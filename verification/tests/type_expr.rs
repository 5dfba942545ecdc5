use boltffi_scan::ast::{
    ClosureTrait,
    ClassId, ClosureKind, EnumId, HandlePresence, Primitive, RecordId, ReturnDef, TraitId, TraitUseForm,
    TypeExpr,
};
use boltffi_scan::declared_types::DeclaredTypes;
use boltffi_scan::error::ScanError;
use boltffi_scan::marked::SourceTree;
use boltffi_scan::path::ModulePath;
use boltffi_scan::scan::scan_text;
use boltffi_scan::syntax::{ItemKind, SynFields, SynType};
use boltffi_scan::type_expr::Scanner;

/// A type as the library parses it, written as the type of a field.
fn ty(source: &str) -> SynType {
    let mut tree = SourceTree::parse("demo", &format!("struct Probe {{ field: {source} }}"))
        .unwrap_or_else(|message| panic!("valid source: {message}"));
    match tree.modules.remove(0).items.remove(0).kind {
        ItemKind::Struct(SynFields::Named(mut fields)) => fields.remove(0).ty,
        other => panic!("expected a struct, got {other:?}"),
    }
}

/// The declared types of a one-file crate named `demo`.
fn declared(source: &str) -> DeclaredTypes {
    match scan_text(source, "demo") {
        Ok(scanned) => scanned.declared_types,
        Err(error) => panic!("scan failed: {error:?}"),
    }
}

fn scan(source: &str) -> Result<TypeExpr, ScanError> {
    let declared_types = DeclaredTypes::new();
    let module = ModulePath::root("demo");
    Scanner { declared: &declared_types, module: &module }.scan(&ty(source))
}

fn unsupported(result: Result<TypeExpr, ScanError>, expected: &str) -> bool {
    matches!(result, Err(ScanError::UnsupportedType { spelling }) if spelling == expected)
}

#[test]
fn type_expr_scans_every_primitive_type_exactly() {
    [
        ("bool", Primitive::Bool),
        ("i8", Primitive::I8),
        ("u8", Primitive::U8),
        ("i16", Primitive::I16),
        ("u16", Primitive::U16),
        ("i32", Primitive::I32),
        ("u32", Primitive::U32),
        ("i64", Primitive::I64),
        ("u64", Primitive::U64),
        ("isize", Primitive::ISize),
        ("usize", Primitive::USize),
        ("f32", Primitive::F32),
        ("f64", Primitive::F64),
    ]
    .into_iter()
    .for_each(|(source, primitive)| {
        assert_eq!(scan(source), Ok(TypeExpr::Primitive(primitive)));
    });
}

#[test]
fn type_expr_scans_string_and_sequence_containers() {
    assert_eq!(scan("String"), Ok(TypeExpr::String));
    assert_eq!(scan("[u8]"), Ok(TypeExpr::Bytes));
    assert_eq!(scan("Vec<i32>"), Ok(TypeExpr::vec(TypeExpr::Primitive(Primitive::I32))));
    assert_eq!(scan("Vec<u8>"), Ok(TypeExpr::Bytes));
    assert_eq!(scan("std::vec::Vec<u8>"), Ok(TypeExpr::Bytes));
    assert_eq!(scan("Option<String>"), Ok(TypeExpr::option(TypeExpr::String)));
}

#[test]
fn type_expr_scans_result_and_map_containers() {
    assert_eq!(
        scan("Result<i32, String>"),
        Ok(TypeExpr::result(TypeExpr::Primitive(Primitive::I32), TypeExpr::String))
    );
    assert_eq!(
        scan("HashMap<String, i32>"),
        Ok(TypeExpr::map(TypeExpr::String, TypeExpr::Primitive(Primitive::I32)))
    );
}

#[test]
fn type_expr_scans_tuples_and_unit() {
    assert_eq!(
        scan("(i32, String)"),
        Ok(TypeExpr::tuple(vec![TypeExpr::Primitive(Primitive::I32), TypeExpr::String]))
    );
    assert_eq!(scan("()"), Ok(TypeExpr::Unit));
}

#[test]
fn type_expr_scans_nested_containers() {
    assert_eq!(
        scan("Option<Vec<i32>>"),
        Ok(TypeExpr::option(TypeExpr::vec(TypeExpr::Primitive(Primitive::I32))))
    );
}

#[test]
fn unwraps_parenthesized_types_before_scanning() {
    assert_eq!(scan("(i32)"), Ok(TypeExpr::Primitive(Primitive::I32)));
    assert_eq!(scan("Vec<(i32)>"), Ok(TypeExpr::vec(TypeExpr::Primitive(Primitive::I32))));
    assert_eq!(scan("(())"), Ok(TypeExpr::Unit));
}

#[test]
fn type_expr_resolves_qualified_std_paths_by_last_segment() {
    assert_eq!(scan("std::string::String"), Ok(TypeExpr::String));
    assert_eq!(scan("std::vec::Vec<u8>"), Ok(TypeExpr::Bytes));
}

#[test]
fn resolves_registered_record_reference_including_nested() {
    let declared_types = declared("pub mod geometry { #[data] pub struct Point { pub x: f64 } }");
    let module = ModulePath::root("demo").child("geometry");
    let scanner = Scanner { declared: &declared_types, module: &module };
    assert_eq!(scanner.scan(&ty("Point")), Ok(TypeExpr::Record(RecordId("demo::geometry::Point".to_string()))));
    assert_eq!(
        scanner.scan(&ty("Vec<Point>")),
        Ok(TypeExpr::vec(TypeExpr::Record(RecordId("demo::geometry::Point".to_string()))))
    );
}

#[test]
fn resolves_registered_class_references_and_nullable_handles() {
    let declared_types = declared("#[export] impl Engine { pub fn new() -> Self { todo!() } }");
    let module = ModulePath::root("demo");
    let scanner = Scanner { declared: &declared_types, module: &module };
    assert_eq!(
        scanner.scan(&ty("Engine")),
        Ok(TypeExpr::Class { id: ClassId("demo::Engine".to_string()), presence: HandlePresence::Required })
    );
    assert_eq!(
        scanner.scan(&ty("Option<Engine>")),
        Ok(TypeExpr::Class { id: ClassId("demo::Engine".to_string()), presence: HandlePresence::Nullable })
    );
}

#[test]
fn resolves_qualified_records_without_leaf_name_guessing() {
    let declared_types = declared(
        "#[data] pub struct Point { pub x: f64 } \
         pub mod geometry { #[data] pub struct Point { pub x: f64 } #[data] pub enum Mode { Fast } } \
         pub mod shape {}",
    );
    let module = ModulePath::root("demo").child("shape");
    let scanner = Scanner { declared: &declared_types, module: &module };
    assert_eq!(
        scanner.scan(&ty("crate::geometry::Point")),
        Ok(TypeExpr::Record(RecordId("demo::geometry::Point".to_string())))
    );
    assert_eq!(
        scanner.scan(&ty("crate::geometry::Mode")),
        Ok(TypeExpr::Enum(EnumId("demo::geometry::Mode".to_string())))
    );
    assert!(unsupported(scanner.scan(&ty("Point")), "Point"));
}

#[test]
fn unregistered_named_type_rejects_with_spelling() {
    assert!(unsupported(scan("Point"), "Point"));
}

#[test]
fn rejects_named_type_arguments_before_erasing_them() {
    let declared_types = declared(
        "#[data] pub struct Point { pub x: f64 } #[export] impl Engine { pub fn new() -> Self { todo!() } }",
    );
    let module = ModulePath::root("demo");
    let scanner = Scanner { declared: &declared_types, module: &module };
    assert!(unsupported(scanner.scan(&ty("Point<u32>")), "Point<u32>"));
    assert!(unsupported(scanner.scan(&ty("Option<Engine<u32>>")), "Engine<u32>"));
    assert!(unsupported(scanner.scan(&ty("i32<u32>")), "i32<u32>"));
}

#[test]
fn self_type_is_captured_verbatim() {
    assert_eq!(scan("Self"), Ok(TypeExpr::SelfType));
}

fn listener_scanner_types() -> DeclaredTypes {
    declared("#[export] pub trait Listener { fn call(&self); }")
}

fn listener(form: TraitUseForm, presence: HandlePresence) -> TypeExpr {
    TypeExpr::Trait { id: TraitId("demo::Listener".to_string()), form, presence }
}

#[test]
fn resolves_callback_trait_use_forms() {
    let declared_types = listener_scanner_types();
    let module = ModulePath::root("demo");
    let scanner = Scanner { declared: &declared_types, module: &module };
    assert_eq!(scanner.scan(&ty("impl Listener")), Ok(listener(TraitUseForm::ImplTrait, HandlePresence::Required)));
    assert_eq!(scanner.scan(&ty("Box<dyn Listener>")), Ok(listener(TraitUseForm::BoxedDyn, HandlePresence::Required)));
    assert_eq!(
        scanner.scan(&ty("std::boxed::Box<dyn Listener>")),
        Ok(listener(TraitUseForm::BoxedDyn, HandlePresence::Required))
    );
    assert_eq!(
        scanner.scan(&ty("std::sync::Arc<dyn Listener>")),
        Ok(listener(TraitUseForm::ArcDyn, HandlePresence::Required))
    );
}

#[test]
fn scans_function_pointer_closure_type() {
    let TypeExpr::Closure { signature, presence } = scan("fn(u32, bool) -> i64").expect("scan") else {
        panic!("expected closure");
    };
    assert_eq!(presence, HandlePresence::Required);
    assert_eq!(signature.kind, ClosureKind::FunctionPointer);
    assert_eq!(
        signature.parameters,
        vec![TypeExpr::Primitive(Primitive::U32), TypeExpr::Primitive(Primitive::Bool)]
    );
    assert_eq!(signature.output, ReturnDef::Value(TypeExpr::Primitive(Primitive::I64)));
}

#[test]
fn folds_optional_callback_trait_handles_into_presence() {
    let declared_types = listener_scanner_types();
    let module = ModulePath::root("demo");
    let scanner = Scanner { declared: &declared_types, module: &module };
    assert_eq!(
        scanner.scan(&ty("Option<Box<dyn Listener>>")),
        Ok(listener(TraitUseForm::BoxedDyn, HandlePresence::Nullable))
    );
    assert_eq!(
        scanner.scan(&ty("Option<std::sync::Arc<dyn Listener>>")),
        Ok(listener(TraitUseForm::ArcDyn, HandlePresence::Nullable))
    );
}

#[test]
fn rejects_trait_references_that_would_erase_bounds_or_form() {
    let declared_types = listener_scanner_types();
    let module = ModulePath::root("demo");
    let scanner = Scanner { declared: &declared_types, module: &module };
    assert!(unsupported(scanner.scan(&ty("Listener")), "Listener"));
    assert!(unsupported(scanner.scan(&ty("impl Send + Listener")), "impl Send + Listener"));
    assert!(unsupported(scanner.scan(&ty("Box<dyn Listener + Send>")), "Box<dyn Listener + Send>"));
    assert!(unsupported(scanner.scan(&ty("impl Listener<i32>")), "impl Listener<i32>"));
    assert!(unsupported(scanner.scan(&ty("Box<dyn Listener<Item = i32>>")), "Box<dyn Listener<Item = i32>>"));
}

#[test]
fn type_expr_impl_trait_without_fn_bound_is_rejected() {
    assert!(unsupported(scan("impl Iterator<Item = u32>"), "impl Iterator<Item = u32>"));
}

#[test]
fn type_expr_closure_with_unsupported_argument_reports_that_argument() {
    assert!(unsupported(scan("impl Fn(Point)"), "Point"));
}

#[test]
fn function_pointers_with_erased_features_are_refused() {
    for source in ["unsafe fn(u32)", "extern \"C\" fn(u32)", "fn(u32, ...)", "for<'a> fn(&'a str)"] {
        assert!(scan(source).is_err(), "{source}");
    }
    let TypeExpr::Closure { signature, presence } = scan("Option<fn(u32)>").expect("scan") else {
        panic!("expected closure");
    };
    assert_eq!(presence, HandlePresence::Nullable);
    assert_eq!(signature.kind, ClosureKind::FunctionPointer);
}

#[test]
fn scans_boxed_closure_trait_objects() {
    let TypeExpr::Closure { signature, presence } = scan("Box<dyn FnMut(u32) -> bool>").expect("scan") else {
        panic!("expected closure");
    };
    assert_eq!(presence, HandlePresence::Required);
    assert_eq!(signature.kind, ClosureKind::BoxedTraitObject(ClosureTrait::FnMut));
    assert_eq!(signature.parameters, vec![TypeExpr::Primitive(Primitive::U32)]);
    assert_eq!(signature.output, ReturnDef::Value(TypeExpr::Primitive(Primitive::Bool)));
}

#[test]
fn folds_optional_inline_closures_into_presence() {
    let TypeExpr::Closure { signature, presence } = scan("Option<fn(u32)>").expect("scan") else {
        panic!("expected closure");
    };
    assert_eq!(presence, HandlePresence::Nullable);
    assert_eq!(signature.kind, ClosureKind::FunctionPointer);

    let TypeExpr::Closure { signature, presence } = scan("Option<Box<dyn FnOnce(u32) -> i64>>").expect("scan") else {
        panic!("expected closure");
    };
    assert_eq!(presence, HandlePresence::Nullable);
    assert_eq!(signature.kind, ClosureKind::BoxedTraitObject(ClosureTrait::FnOnce));
    assert_eq!(signature.output, ReturnDef::Value(TypeExpr::Primitive(Primitive::I64)));
}

#[test]
fn type_expr_impl_trait_closure_can_follow_marker_bounds() {
    let TypeExpr::Closure { signature, presence } = scan("impl Send + Fn(u32) -> u32").expect("scan") else {
        panic!("expected closure");
    };
    assert_eq!(presence, HandlePresence::Required);
    assert_eq!(signature.kind, ClosureKind::ImplTrait(ClosureTrait::Fn));
    assert_eq!(signature.parameters, vec![TypeExpr::Primitive(Primitive::U32)]);
    assert_eq!(signature.output, ReturnDef::Value(TypeExpr::Primitive(Primitive::U32)));
}
