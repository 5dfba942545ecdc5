use boltffi_scan::ast::{
    ClassId, ClosureKind, EnumId, HandlePresence, Primitive, RecordId, ReturnDef, Source,
    SourceVisibility, TraitId, TraitUseForm, TypeExpr,
};
use boltffi_scan::type_expr::Scanner;
use boltffi_scan::declared_types::DeclaredTypes;
use boltffi_scan::error::ScanError;
use boltffi_scan::impl_items;
use boltffi_scan::impl_target::Target;
use boltffi_scan::marked::{MarkedItems, SourceTree};
use boltffi_scan::marker::Marker;
use boltffi_scan::scan::{scan_text, TextScanError};
use boltffi_scan::path::ModulePath;
use boltffi_scan::spelling;
use boltffi_scan::syntax::{
    SynAttribute, BareFn, Field, SynFields, SynGenericArgument, SynImplItem, SynItem, SynItemImpl, ItemKind, Meta, PathArguments,
    SynPathSegment, SynReturnType, SynPath, SynType, SynVisibility, TraitBound, SynTypeParamBound,
};
use boltffi_scan::ty::{scan_return, scan_type};
use boltffi_scan::visibility::{scan, scan_visibility};

/// The root items of a one-file crate, parsed by the library.
fn items(source: &str) -> Vec<SynItem> {
    let mut tree = SourceTree::parse("demo", source).unwrap_or_else(|message| panic!("valid source: {message}"));
    tree.modules.remove(0).items
}

fn first_item(source: &str) -> SynItem {
    items(source).remove(0)
}

fn parse_type(source: &str) -> SynType {
    match first_item(&format!("struct Probe {{ field: {source} }}")).kind {
        ItemKind::Struct(SynFields::Named(mut fields)) => fields.remove(0).ty,
        other => panic!("expected a struct, got {other:?}"),
    }
}

fn parse_path(source: &str) -> SynPath {
    match parse_type(source) {
        SynType::Path { path, .. } => path,
        other => panic!("expected a path, got {other:?}"),
    }
}

fn parse_visibility(source: &str) -> SynVisibility {
    first_item(&format!("{source} struct Probe;")).vis
}

fn struct_attrs(source: &str) -> Vec<SynAttribute> {
    first_item(source).attrs
}

fn impl_attrs(source: &str) -> Vec<SynAttribute> {
    first_item(source).attrs
}

fn fn_attrs(source: &str) -> Vec<SynAttribute> {
    first_item(source).attrs
}

fn enum_attrs(source: &str) -> Vec<SynAttribute> {
    first_item(source).attrs
}

fn const_attrs(source: &str) -> Vec<SynAttribute> {
    first_item(source).attrs
}

fn parse_impl(source: &str) -> SynItemImpl {
    match first_item(source).kind {
        ItemKind::Impl(block) => block,
        other => panic!("expected an impl block, got {other:?}"),
    }
}

fn tree(source: &str) -> SourceTree {
    SourceTree::parse("demo", source).unwrap_or_else(|message| panic!("valid source: {message}"))
}

// error.rs

#[test]
fn unsupported_path_type_preserves_qualified_spelling() {
    assert_eq!(
        ScanError::unsupported_type(&parse_type("crate::domain::Point")),
        ScanError::UnsupportedType {
            spelling: "crate::domain::Point".to_owned()
        }
    );
}

#[test]
fn unsupported_reference_type_preserves_reference_shape() {
    assert_eq!(
        ScanError::unsupported_type(&parse_type("&Point")),
        ScanError::UnsupportedType {
            spelling: "&Point".to_owned()
        }
    );
}

// spelling.rs

#[test]
fn joins_path_segments_with_double_colon() {
    assert_eq!(
        spelling::path(&parse_path("crate::geometry::Point<u32>")),
        "crate::geometry::Point<u32>"
    );
}

#[test]
fn renders_paths_groups_and_references_for_types() {
    assert_eq!(spelling::ty(&parse_type("Point")), "Point");
    assert_eq!(spelling::ty(&parse_type("Point<u32>")), "Point<u32>");
    assert_eq!(
        spelling::ty(&parse_type("Box<dyn Listener + Send>")),
        "Box<dyn Listener + Send>"
    );
    assert_eq!(spelling::ty(&parse_type("&Point")), "&Point");
    assert_eq!(spelling::ty(&parse_type("&mut Point")), "&mut Point");
    assert_eq!(spelling::ty(&parse_type("(Point)")), "Point");
    assert_eq!(spelling::ty(&parse_type("(Point, u32)")), "(Point, u32)");
}

#[test]
fn renders_unrecognized_types_with_a_stable_label() {
    assert_eq!(spelling::ty(&parse_type("[u8; 4]")), "unrecognized type");
}

// visibility.rs

#[test]
fn scans_public_visibility() {
    assert_eq!(scan_visibility(&parse_visibility("pub")), SourceVisibility::Public);
}

#[test]
fn scans_private_visibility() {
    assert_eq!(scan_visibility(&SynVisibility::Inherited), SourceVisibility::Private);
}

#[test]
fn scans_restricted_visibility() {
    assert_eq!(
        scan_visibility(&parse_visibility("pub(crate)")),
        SourceVisibility::Restricted("crate".to_owned())
    );
    assert_eq!(
        scan_visibility(&parse_visibility("pub(super)")),
        SourceVisibility::Restricted("super".to_owned())
    );
    assert_eq!(
        scan_visibility(&parse_visibility("pub(in crate::ffi)")),
        SourceVisibility::Restricted("crate::ffi".to_owned())
    );
}

#[test]
fn source_never_invents_span_without_input_file_context() {
    assert_eq!(
        scan(&parse_visibility("pub")),
        Source::new(SourceVisibility::Public, None)
    );
}

// marker.rs

#[test]
fn detects_data_on_value_types() {
    assert_eq!(
        Marker::detect(&struct_attrs("#[data] struct S { x: i32 }")),
        Ok(Some(Marker::Data))
    );
    assert_eq!(
        Marker::detect(&struct_attrs("#[boltffi::data] struct S { x: i32 }")),
        Ok(Some(Marker::Data))
    );
    assert_eq!(Marker::detect(&struct_attrs("struct S { x: i32 }")), Ok(None));
    assert_eq!(
        Marker::detect(&struct_attrs("#[derive(Clone)] struct S { x: i32 }")),
        Ok(None)
    );
}

#[test]
fn detects_data_impl_distinctly_from_data() {
    assert_eq!(
        Marker::detect(&impl_attrs("#[data(impl)] impl S {}")),
        Ok(Some(Marker::DataImpl))
    );
    assert_eq!(
        Marker::detect(&impl_attrs("#[boltffi::data(impl)] impl S {}")),
        Ok(Some(Marker::DataImpl))
    );
    assert_eq!(Marker::detect(&impl_attrs("impl S {}")), Ok(None));
}

#[test]
fn rejects_unknown_marker_arguments() {
    assert_eq!(
        Marker::detect(&struct_attrs("#[data(foo)] struct S { x: i32 }")),
        Err(ScanError::InvalidMarker {
            attribute: "data(foo)".to_owned()
        })
    );
    assert_eq!(
        Marker::detect(&fn_attrs("#[export(foo)] fn f() {}")),
        Err(ScanError::InvalidMarker {
            attribute: "export(foo)".to_owned()
        })
    );
}

#[test]
fn rejects_conflicting_markers() {
    assert_eq!(
        Marker::detect(&struct_attrs("#[data] #[error] struct S { x: i32 }")),
        Err(ScanError::ConflictingMarkers {
            first: "data".to_owned(),
            second: "error".to_owned()
        })
    );
}

#[test]
fn ignores_unowned_qualified_attributes() {
    assert_eq!(
        Marker::detect(&struct_attrs("#[other::data] struct S { x: i32 }")),
        Ok(None)
    );
}

#[test]
fn detects_error_on_value_types() {
    assert_eq!(
        Marker::detect(&struct_attrs("#[error] struct E { code: i32 }")),
        Ok(Some(Marker::Error))
    );
    assert_eq!(
        Marker::detect(&enum_attrs("#[boltffi::error] enum E { Io, Parse }")),
        Ok(Some(Marker::Error))
    );
}

#[test]
fn detects_export_on_exported_items() {
    assert_eq!(
        Marker::detect(&fn_attrs("#[export] fn f() {}")),
        Ok(Some(Marker::Export))
    );
    assert_eq!(
        Marker::detect(&fn_attrs("#[boltffi::export] fn f() {}")),
        Ok(Some(Marker::Export))
    );
    assert_eq!(Marker::detect(&fn_attrs("fn f() {}")), Ok(None));
    assert_eq!(
        Marker::detect(&const_attrs("#[export] const ANSWER: u32 = 42;")),
        Ok(Some(Marker::Export))
    );
}

#[test]
fn detects_skip_through_the_marker_set() {
    assert_eq!(
        Marker::detect(&fn_attrs("#[skip] fn f() {}")),
        Ok(Some(Marker::Skip))
    );
    assert_eq!(
        Marker::detect(&fn_attrs("#[boltffi::skip] fn f() {}")),
        Ok(Some(Marker::Skip))
    );
    assert_eq!(
        Marker::detect(&fn_attrs("#[skip(reason)] fn f() {}")),
        Err(ScanError::InvalidMarker {
            attribute: "skip(reason)".to_owned()
        })
    );
}

// marked.rs

#[test]
fn collects_marked_items_by_domain_shape() {
    let tree = tree(
        "#[data] struct Point { x: i32 } \
         #[error] enum ParseError { Eof } \
         #[export] fn origin() {} \
         #[export] trait Listener { fn call(&self); } \
         #[export] impl Engine {} \
         #[export] const ANSWER: u32 = 42; \
         #[data(impl)] impl Point {}",
    );

    let marked = MarkedItems::collect(&tree).expect("marked items");

    assert_eq!(marked.records().len(), 1);
    assert_eq!(marked.records()[0].marker(), Marker::Data);
    assert_eq!(marked.enums().len(), 1);
    assert_eq!(marked.enums()[0].marker(), Marker::Error);
    assert_eq!(marked.functions().len(), 1);
    assert_eq!(marked.traits().len(), 1);
    assert_eq!(marked.classes().len(), 1);
    assert_eq!(marked.constants().len(), 1);
    assert_eq!(marked.impls().len(), 1);
}

#[test]
fn rejects_marker_on_wrong_item_kind() {
    let tree = tree("#[export] struct Point { x: i32 }");

    let error = match MarkedItems::collect(&tree) {
        Ok(_) => panic!("wrong marker placement must reject"),
        Err(error) => error,
    };

    assert_eq!(
        error,
        ScanError::InvalidMarkerPlacement {
            marker: "export".to_owned(),
            item: "struct".to_owned()
        }
    );
}

// impl_target.rs

#[test]
fn resolves_plain_impl_targets_from_module_context() {
    let module = ModulePath::root("demo").child("engine");
    let item = parse_impl("impl Runtime {}");
    let target = Target::scan(&item);

    assert_eq!(
        target.resolve(&module),
        Some("demo::engine::Runtime".to_owned())
    );
    assert_eq!(
        target.ident().map(ToString::to_string),
        Some("Runtime".to_owned())
    );
    assert_eq!(target.spelling(), "Runtime");
}

#[test]
fn rejects_targets_that_would_erase_type_arguments() {
    let module = ModulePath::root("demo");
    let item = parse_impl("impl Runtime<u32> {}");
    let target = Target::scan(&item);

    assert_eq!(target.resolve(&module), None);
    assert_eq!(target.ident(), None);
    assert_eq!(target.spelling(), "Runtime<u32>");
}

#[test]
fn rejects_non_path_targets() {
    let module = ModulePath::root("demo");
    let item = parse_impl("impl (Runtime, State) {}");
    let target = Target::scan(&item);

    assert_eq!(target.resolve(&module), None);
    assert_eq!(target.ident(), None);
    assert_eq!(target.spelling(), "(Runtime, State)");
}

// ty.rs

fn scan_source(source: &str) -> Result<TypeExpr, ScanError> {
    scan_type(&parse_type(source))
}

#[test]
fn ty_scans_every_primitive_type_exactly() {
    [
        ("bool", Primitive::Bool),
        ("i8", Primitive::I8),
        ("u8", Primitive::U8),
        ("i16", Primitive::I16),
        ("u16", Primitive::U16),
        ("i32", Primitive::I32),
        ("u32", Primitive::U32),
        ("i64", Primitive::I64),
        ("u64", Primitive::U64),
        ("isize", Primitive::ISize),
        ("usize", Primitive::USize),
        ("f32", Primitive::F32),
        ("f64", Primitive::F64),
    ]
    .into_iter()
    .for_each(|(source, primitive)| {
        assert_eq!(
            scan_source(source),
            Ok(TypeExpr::Primitive(primitive)),
            "primitive {source} should scan exactly"
        );
    });
}

#[test]
fn ty_scans_string_and_sequence_containers() {
    assert_eq!(scan_source("String"), Ok(TypeExpr::String));
    assert_eq!(
        scan_source("Vec<i32>"),
        Ok(TypeExpr::vec(TypeExpr::Primitive(Primitive::I32)))
    );
    assert_eq!(
        scan_source("Option<String>"),
        Ok(TypeExpr::option(TypeExpr::String))
    );
}

#[test]
fn ty_scans_result_and_map_containers() {
    assert_eq!(
        scan_source("Result<i32, String>"),
        Ok(TypeExpr::result(
            TypeExpr::Primitive(Primitive::I32),
            TypeExpr::String
        ))
    );
    assert_eq!(
        scan_source("HashMap<String, i32>"),
        Ok(TypeExpr::map(
            TypeExpr::String,
            TypeExpr::Primitive(Primitive::I32)
        ))
    );
}

#[test]
fn ty_scans_tuples_and_unit() {
    assert_eq!(
        scan_source("(i32, String)"),
        Ok(TypeExpr::tuple(vec![
            TypeExpr::Primitive(Primitive::I32),
            TypeExpr::String
        ]))
    );
    assert_eq!(scan_source("()"), Ok(TypeExpr::Unit));
}

#[test]
fn ty_scans_nested_containers() {
    assert_eq!(
        scan_source("Option<Vec<i32>>"),
        Ok(TypeExpr::option(TypeExpr::vec(TypeExpr::Primitive(
            Primitive::I32
        ))))
    );
}

#[test]
fn ty_resolves_qualified_std_paths_by_last_segment() {
    assert_eq!(scan_source("std::string::String"), Ok(TypeExpr::String));
    assert_eq!(
        scan_source("std::vec::Vec<u8>"),
        Ok(TypeExpr::vec(TypeExpr::Primitive(Primitive::U8)))
    );
}

#[test]
fn named_user_type_rejects_until_registry_lands() {
    assert!(matches!(
        scan_source("Point"),
        Err(ScanError::UnsupportedType { spelling }) if spelling == "Point"
    ));
}

#[test]
fn ty_impl_trait_closure_can_follow_marker_bounds() {
    let TypeExpr::Closure {
        signature,
        presence,
    } = scan_source("impl Send + Fn(u32) -> u32").expect("scan")
    else {
        panic!("expected closure");
    };

    assert_eq!(presence, HandlePresence::Required);
    assert_eq!(signature.kind, ClosureKind::Fn);
    assert_eq!(
        signature.parameters,
        vec![TypeExpr::Primitive(Primitive::U32)]
    );
    assert_eq!(
        signature.output,
        ReturnDef::Value(TypeExpr::Primitive(Primitive::U32))
    );
}

#[test]
fn ty_impl_trait_without_fn_bound_is_rejected() {
    assert!(matches!(
        scan_source("impl Iterator<Item = u32>"),
        Err(ScanError::UnsupportedType { spelling }) if spelling == "unrecognized type"
    ));
}

#[test]
fn ty_closure_with_unsupported_argument_reports_that_argument() {
    assert!(matches!(
        scan_source("impl Fn(Point)"),
        Err(ScanError::UnsupportedType { spelling }) if spelling == "Point"
    ));
}

// items/impl_methods.rs

fn scan_methods(source: &str, parent: &str) -> Result<Vec<String>, ScanError> {
    impl_items::scan(&parse_impl(source), parent)
}

#[test]
fn skips_private_and_explicitly_skipped_methods() {
    let methods = scan_methods(
        "impl Point { \
            pub fn exported(&self) {} \
            fn helper(&self) {} \
            #[skip] pub fn skipped(&self) {} \
            #[boltffi::skip] pub fn also_skipped(&self) {} \
        }",
        "demo::Point",
    )
    .expect("scan");

    assert_eq!(methods.len(), 1);
    assert_eq!(methods[0], "exported");
}

#[test]
fn rejects_malformed_skip_marker_on_method() {
    let error = scan_methods(
        "impl Point { #[skip(reason)] pub fn hidden(&self) {} }",
        "demo::Point",
    )
    .expect_err("malformed skip marker must reject");

    assert_eq!(
        error,
        ScanError::InvalidMarker {
            attribute: "skip(reason)".to_owned()
        }
    );
}

#[test]
fn rejects_non_skip_boltffi_markers_on_methods() {
    let error = scan_methods("impl Point { #[export] pub fn hidden(&self) {} }", "demo::Point")
        .expect_err("method marker rejected");

    assert_eq!(
        error,
        ScanError::InvalidMarkerPlacement {
            marker: "export".to_owned(),
            item: "method".to_owned(),
        }
    );
}

#[test]
fn rejects_public_non_method_items_before_dropping_them() {
    let associated_const = scan_methods("impl Point { pub const VERSION: u32 = 1; }", "demo::Point")
        .expect_err("associated const rejected");
    let associated_type = scan_methods("impl Point { pub type Value = u32; }", "demo::Point")
        .expect_err("associated type rejected");

    assert_eq!(
        associated_const,
        ScanError::UnsupportedImplItem {
            item: "demo::Point::VERSION".to_owned(),
        }
    );
    assert_eq!(
        associated_type,
        ScanError::UnsupportedImplItem {
            item: "demo::Point::Value".to_owned(),
        }
    );
}

#[test]
fn ignores_private_and_skipped_non_method_items() {
    let methods = scan_methods(
        "impl Point { \
            const PRIVATE: u32 = 1; \
            #[skip] pub const PUBLIC: u32 = 2; \
            pub fn exported(&self) {} \
        }",
        "demo::Point",
    )
    .expect("scan");

    assert_eq!(methods.len(), 1);
    assert_eq!(methods[0], "exported");
}

#[test]
fn rejects_impl_macros_because_their_exports_are_not_syntactic() {
    let error = scan_methods("impl Point { exported_methods!(); }", "demo::Point")
        .expect_err("macro rejected");

    assert_eq!(
        error,
        ScanError::UnsupportedImplItem {
            item: "demo::Point::exported_methods".to_owned(),
        }
    );
}

#[test]
fn impl_scan_stops_at_the_first_rejected_item() {
    let error = scan_methods(
        "impl Point { \
            pub fn first(&self) {} \
            pub const LIMIT: u32 = 1; \
            #[export] pub fn second(&self) {} \
        }",
        "demo::Point",
    )
    .expect_err("first rejection wins");

    assert_eq!(
        error,
        ScanError::UnsupportedImplItem {
            item: "demo::Point::LIMIT".to_owned(),
        }
    );
}

// items/class.rs

#[test]
fn rejects_class_impl_shapes_erased_by_ast() {
    let module = ModulePath::root("demo");
    let generic = boltffi_scan::class::build(&parse_impl("impl<T> Engine { pub fn start(&self) {} }"), &module)
        .err()
        .expect("generic rejected");
    let trait_impl = boltffi_scan::class::build(&parse_impl("impl Display for Engine {}"), &module)
        .err()
        .expect("trait impl rejected");
    let generic_target =
        boltffi_scan::class::build(&parse_impl("impl Engine<u32> { pub fn start(&self) {} }"), &module)
            .err()
            .expect("generic target rejected");

    assert_eq!(
        generic,
        ScanError::UnsupportedGenerics {
            item: "class Engine".to_owned()
        }
    );
    assert_eq!(
        trait_impl,
        ScanError::UnsupportedClassImplShape {
            target: "Engine".to_owned()
        }
    );
    assert_eq!(
        generic_target,
        ScanError::UnsupportedClassImpl {
            target: "Engine<u32>".to_owned()
        }
    );
}

#[test]
fn merges_multiple_exported_impl_blocks_for_the_same_class() {
    let source_tree = tree(
        "#[export] impl Engine { pub fn new() -> Self { todo!() } } \
         #[export] impl Engine { pub fn start(&self) {} }",
    );
    let marked = MarkedItems::collect(&source_tree).expect("marked");
    let classes = match boltffi_scan::class::scan(marked.classes()) {
        Ok(classes) => classes,
        Err(error) => panic!("scan failed: {error:?}"),
    };

    assert_eq!(classes.len(), 1);
    assert_eq!(classes[0].id.0, "demo::Engine");
    assert_eq!(classes[0].methods.len(), 2);
    assert_eq!(classes[0].methods[0], "demo::Engine::new");
    assert_eq!(classes[0].methods[1], "demo::Engine::start");
}

#[test]
fn qualified_class_targets_resolve_under_the_crate() {
    let class = match boltffi_scan::class::build(
        &parse_impl("impl crate::runtime::Engine { pub fn start(&self) {} fn helper(&self) {} }"),
        &ModulePath::root("demo"),
    ) {
        Ok(class) => class,
        Err(error) => panic!("scan failed: {error:?}"),
    };

    assert_eq!(class.id.0, "demo::runtime::Engine");
    assert_eq!(class.ident, "Engine");
    assert_eq!(class.methods, vec!["demo::runtime::Engine::start".to_string()]);
}

#[test]
fn class_scan_keeps_classes_apart_and_stops_at_the_first_error() {
    let source_tree = tree(
        "#[export] impl Engine { pub fn start(&self) {} } \
         #[export] impl Wheel { pub fn spin(&self) {} } \
         #[export] impl Engine { pub fn stop(&self) {} }",
    );
    let marked = MarkedItems::collect(&source_tree).expect("marked");
    let classes = match boltffi_scan::class::scan(marked.classes()) {
        Ok(classes) => classes,
        Err(error) => panic!("scan failed: {error:?}"),
    };
    assert_eq!(classes.len(), 2);
    assert_eq!(classes[0].methods, vec!["demo::Engine::start".to_string(), "demo::Engine::stop".to_string()]);
    assert_eq!(classes[1].methods, vec!["demo::Wheel::spin".to_string()]);

    let failing = tree(
        "#[export] impl Engine { pub const LIMIT: u32 = 1; } \
         #[export] impl<T> Wheel {}",
    );
    let marked = MarkedItems::collect(&failing).expect("marked");
    assert_eq!(
        boltffi_scan::class::scan(marked.classes()).err(),
        Some(ScanError::UnsupportedImplItem {
            item: "demo::Engine::LIMIT".to_owned()
        })
    );
}

// record.rs

fn scan_record(source: &str) -> Result<boltffi_scan::record::RecordDef, ScanError> {
    let item = first_item(source);
    match &item.kind {
        ItemKind::Struct(fields) => boltffi_scan::record::scan_struct(
            &item.ident,
            &item.vis,
            fields,
            &ModulePath::root("demo"),
            &DeclaredTypes::new(),
        ),
        other => panic!("expected a struct, got {other:?}"),
    }
}

#[test]
fn tuple_and_unit_structs_are_rejected() {
    let tuple = scan_record("pub struct Pair(i32, i32);").err().expect("tuple struct must reject");
    let unit = scan_record("pub struct Marker;").err().expect("unit struct must reject");

    assert_eq!(tuple, ScanError::TupleOrUnitStruct);
    assert_eq!(unit, ScanError::TupleOrUnitStruct);
}

#[test]
fn scans_record_and_field_visibility() {
    let record = match scan_record("pub(crate) struct Point { pub x: f64, y: f64 }") {
        Ok(record) => record,
        Err(error) => panic!("scan failed: {error:?}"),
    };

    assert_eq!(
        record.source.visibility,
        SourceVisibility::Restricted("crate".to_owned())
    );
    assert_eq!(record.fields[0].source.visibility, SourceVisibility::Public);
    assert_eq!(record.fields[1].source.visibility, SourceVisibility::Private);
    assert_eq!(record.fields[0].source.span, None);
    assert_eq!(record.fields[1].source.span, None);
}

#[test]
fn field_type_errors_keep_source_spelling() {
    let error = scan_record("pub struct Shape { pub point: Point }").err().expect("field type rejected");

    assert!(matches!(
        error,
        ScanError::UnsupportedType { spelling } if spelling == "Point"
    ));
}

#[test]
fn records_keep_their_fields_in_order() {
    let record = match scan_record("pub struct Point { pub x: f64, pub label: Option<String> }") {
        Ok(record) => record,
        Err(error) => panic!("scan failed: {error:?}"),
    };
    assert_eq!(record.id.0, "demo::Point");
    assert_eq!(record.fields.len(), 2);
    assert_eq!(record.fields[0].ident, "x");
    assert_eq!(record.fields[0].type_expr, TypeExpr::Primitive(Primitive::F64));
    assert_eq!(record.fields[1].ident, "label");
    assert_eq!(record.fields[1].type_expr, TypeExpr::option(TypeExpr::String));
}

#[test]
fn collect_types_registers_structs_by_name() {
    let items: Vec<SynItem> =
        items("pub struct Point { pub x: f64 } pub fn helper() {} pub struct Shape { pub center: Point }");
    let module = ModulePath::root("demo").child("geometry");
    let registry = boltffi_scan::record::collect_types(&items, &module);
    assert_eq!(
        registry.resolve("Point"),
        Some(&boltffi_scan::registry::DeclaredType::Record(boltffi_scan::ast::RecordId(
            "demo::geometry::Point".to_string()
        )))
    );
    assert!(registry.resolve("Shape").is_some());
    assert_eq!(registry.resolve("helper"), None);
}

#[test]
fn self_type_ident_reads_the_last_path_segment() {
    let block = parse_impl("impl crate::shapes::Point {}");
    assert_eq!(boltffi_scan::record::self_type_ident(&block).map(String::as_str), Some("Point"));
    let reference = parse_impl("impl<'a> Trait for &'a Point {}");
    assert_eq!(boltffi_scan::record::self_type_ident(&reference), None);
}

/// The return position of a function written as `fn name() -> T { .. }`,
/// read through the function pointer type `fn() -> T`.
fn parse_output(source: &str) -> SynReturnType {
    let close = source.find(')').expect("parameter list");
    let body = source.rfind('{').expect("body");
    match parse_type(&format!("fn(){}", &source[close + 1..body])) {
        SynType::BareFn(function) => function.output,
        other => panic!("expected a function pointer, got {other:?}"),
    }
}

#[test]
fn unit_returns_read_as_void_like_no_return() {
    assert_eq!(scan_return(&parse_output("fn a() -> () {}")), Ok(ReturnDef::Void));
    assert_eq!(scan_return(&parse_output("fn b() {}")), Ok(ReturnDef::Void));
    assert_eq!(
        scan_return(&parse_output("fn c() -> (u8,) { (0,) }")),
        Ok(ReturnDef::Value(TypeExpr::tuple(vec![TypeExpr::Primitive(Primitive::U8)])))
    );
}

// Parsing a whole text and walking its inline modules.

#[test]
fn parse_moves_inline_module_contents_to_their_own_module() {
    let tree = tree("pub mod geometry { pub struct Point; } struct Line;");
    assert_eq!(tree.modules.len(), 2);
    let root: Vec<&str> = tree.modules[0].items.iter().map(|item| item.ident.as_str()).collect();
    assert_eq!(root, vec!["geometry", "Line"]);
    assert_eq!(tree.modules[0].items[0].kind, ItemKind::Mod(None));
    assert_eq!(tree.modules[1].path, ModulePath::root("demo").child("geometry"));
    assert_eq!(tree.modules[1].items.len(), 1);
    assert_eq!(tree.modules[1].items[0].ident, "Point");
}

#[test]
fn parse_reports_invalid_rust() {
    assert!(SourceTree::parse("demo", "#[data] pub struct {").is_err());
}

#[test]
fn inline_tree_lists_modules_depth_first() {
    let tree = tree("mod a { mod b { struct X; } } mod c { } struct Y;");
    let paths: Vec<ModulePath> = vec![
        ModulePath::root("demo"),
        ModulePath::root("demo").child("a"),
        ModulePath::root("demo").child("a").child("b"),
        ModulePath::root("demo").child("c"),
    ];
    assert_eq!(tree.modules.len(), paths.len());
    for (module, path) in tree.modules.iter().zip(paths.iter()) {
        assert_eq!(&module.path, path);
    }
    assert_eq!(tree.modules[0].items.len(), 3);
    assert_eq!(tree.modules[0].items[0].kind, ItemKind::Mod(None));
    assert_eq!(tree.modules[2].items[0].ident, "X");
    assert!(tree.modules[3].items.is_empty());
}

#[test]
fn scan_text_scans_a_record_of_the_root_module() {
    let scanned = scan_text("#[data] pub struct Point { pub x: f64 }", "demo").expect("scan");
    assert_eq!(scanned.records.len(), 1);
    assert_eq!(scanned.records[0].id.0, "demo::Point");
}

#[test]
fn scan_text_qualifies_records_by_their_inline_module() {
    let scanned = scan_text(
        "#[data] pub struct Shape { pub size: u32 } pub mod geometry { #[data] pub struct Point { pub x: f64 } }",
        "demo",
    )
    .expect("scan");
    let ids: Vec<&str> = scanned.records.iter().map(|record| record.id.0.as_str()).collect();
    assert_eq!(ids, vec!["demo::Shape", "demo::geometry::Point"]);
}

#[test]
fn scan_text_reports_invalid_rust_as_a_parse_error() {
    assert!(matches!(scan_text("#[data] pub struct {", "demo"), Err(TextScanError::Parse(_))));
}

#[test]
fn scan_text_reports_a_misplaced_marker() {
    assert!(matches!(
        scan_text("#[export] struct Point { x: i32 }", "demo"),
        Err(TextScanError::Scan(ScanError::InvalidMarkerPlacement { .. }))
    ));
}

// The whole scan of a source text.

fn scan_demo(source: &str) -> boltffi_scan::scan::Scanned {
    match scan_text(source, "demo") {
        Ok(scanned) => scanned,
        Err(error) => panic!("scan failed: {error:?}"),
    }
}

fn try_scan(source: &str) -> Result<boltffi_scan::scan::Scanned, ScanError> {
    match scan_text(source, "demo") {
        Ok(scanned) => Ok(scanned),
        Err(TextScanError::Scan(error)) => Err(error),
        Err(TextScanError::Parse(message)) => panic!("valid source: {message}"),
    }
}

fn record<'a>(scanned: &'a boltffi_scan::scan::Scanned, id: &str) -> &'a boltffi_scan::record::RecordDef {
    scanned.records.iter().find(|record| record.id.0 == id).unwrap_or_else(|| panic!("{id} record"))
}

#[test]
fn scans_items_across_modules_and_qualifies_ids_by_module_path() {
    let scanned = scan_demo(
        "#[data] pub struct Shape { pub center: crate::geometry::Point } \
         pub mod geometry { #[data] pub struct Point { pub x: f64 } }",
    );
    assert!(scanned.records.iter().any(|record| record.id.0 == "demo::geometry::Point"));
    assert_eq!(
        record(&scanned, "demo::Shape").fields[0].type_expr,
        TypeExpr::Record(RecordId("demo::geometry::Point".to_string()))
    );
}

#[test]
fn unqualified_reference_does_not_guess_across_modules() {
    let error = try_scan(
        "#[data] pub struct Shape { pub center: Point } \
         pub mod geometry { #[data] pub struct Point { pub x: f64 } }",
    )
    .err()
    .expect("unqualified cross-module reference must reject");
    assert!(matches!(error, ScanError::UnsupportedType { spelling } if spelling == "Point"));
}

#[test]
fn scans_marked_items_nested_several_modules_deep() {
    let scanned = scan_demo("pub mod a { pub mod b { #[data] pub struct Deep { pub x: i32 } } }");
    assert_eq!(scanned.records[0].id.0, "demo::a::b::Deep");
}

#[test]
fn scan_resolves_record_reference_regardless_of_declaration_order() {
    let scanned = scan_demo(
        "#[data] pub struct Shape { pub center: Point } \
         #[data] pub struct Point { pub x: f64 }",
    );
    assert_eq!(scanned.records.len(), 2);
    assert_eq!(
        record(&scanned, "demo::Shape").fields[0].type_expr,
        TypeExpr::Record(RecordId("demo::Point".to_string()))
    );
}

#[test]
fn rejects_class_and_value_type_with_the_same_source_path() {
    let error = try_scan(
        "#[data] pub struct Engine { pub id: u32 } \
         #[export] impl Engine { pub fn new() -> Self { todo!() } }",
    )
    .err()
    .expect("same path cannot declare two exported domains");
    assert_eq!(
        error,
        ScanError::ConflictingDeclarations {
            path: "demo::Engine".to_owned(),
            first: "record".to_owned(),
            second: "class".to_owned(),
        }
    );
}

#[test]
fn rejects_duplicate_value_type_declarations_with_the_same_source_path() {
    let error = try_scan(
        "#[data] pub struct Point { pub x: f64 } \
         #[data] pub struct Point { pub y: f64 }",
    )
    .err()
    .expect("duplicate value declaration rejected");
    assert_eq!(
        error,
        ScanError::ConflictingDeclarations {
            path: "demo::Point".to_owned(),
            first: "record".to_owned(),
            second: "record".to_owned(),
        }
    );
}

#[test]
fn rejects_exported_trait_impl_before_registering_a_class() {
    let error = try_scan(
        "#[data] pub struct Engine { pub id: u32 } \
         #[export] impl Display for Engine {}",
    )
    .err()
    .expect("trait impl cannot declare a class");
    assert_eq!(error, ScanError::UnsupportedClassImplShape { target: "Engine".to_owned() });
}

#[test]
fn scans_enums_and_resolves_enum_typed_fields() {
    let scanned = scan_demo(
        "#[data] pub enum Mode { Fast, Slow } \
         #[data] pub struct Engine { pub mode: Mode }",
    );
    assert!(scanned.declared_types.resolve("demo::Mode").is_some());
    assert_eq!(
        record(&scanned, "demo::Engine").fields[0].type_expr,
        TypeExpr::Enum(EnumId("demo::Mode".to_string()))
    );
}

#[test]
fn unmarked_items_are_not_scanned() {
    let scanned = scan_demo(
        "pub struct Hidden { pub x: i32 } \
         pub enum Internal { A, B } \
         pub fn helper() {} \
         impl Hidden { pub fn touch(&self) {} }",
    );
    assert!(scanned.records.is_empty());
    assert!(scanned.classes.is_empty());
    assert!(scanned.declared_types.resolve("demo::Internal").is_none());
}

#[test]
fn qualified_markers_are_scanned() {
    let scanned = scan_demo(
        "#[boltffi::data] pub struct Point { pub x: f64 } \
         #[boltffi::export] pub fn origin() -> Point { todo!() } \
         #[boltffi::export] pub const ANSWER: u32 = 42;",
    );
    assert_eq!(scanned.records.len(), 1);
}

#[test]
fn invalid_marker_arguments_are_rejected() {
    let error = try_scan("#[data(foo)] pub struct Point { pub x: f64 }")
        .err()
        .expect("invalid marker argument must reject");
    assert_eq!(error, ScanError::InvalidMarker { attribute: "data(foo)".to_owned() });
}

#[test]
fn marker_on_wrong_item_kind_is_rejected() {
    let error = try_scan("#[export] pub struct Point { pub x: f64 }")
        .err()
        .expect("wrong marker placement must reject");
    assert_eq!(
        error,
        ScanError::InvalidMarkerPlacement { marker: "export".to_owned(), item: "struct".to_owned() }
    );
}

#[test]
fn marker_on_module_is_rejected_after_module_loading() {
    let error = try_scan("#[data] pub mod geometry {}")
        .err()
        .expect("wrong marker placement must reject");
    assert_eq!(
        error,
        ScanError::InvalidMarkerPlacement { marker: "data".to_owned(), item: "module".to_owned() }
    );
}

#[test]
fn marked_impl_for_unknown_type_is_rejected() {
    let error = try_scan("#[data(impl)] impl Missing { pub fn run(&self) {} }")
        .err()
        .expect("marked impl target must resolve");
    assert_eq!(error, ScanError::UnsupportedMarkedImpl { target: "Missing".to_owned() });
}

#[test]
fn marked_impl_for_a_declared_record_or_enum_is_accepted() {
    let scanned = scan_demo(
        "#[data] pub struct Point { pub x: f64 } \
         #[data(impl)] impl Point { pub fn origin() -> Self { todo!() } } \
         #[data] pub enum Mode { Fast } \
         #[data(impl)] impl Mode { pub fn parse(value: i32) -> Self { todo!() } }",
    );
    assert_eq!(scanned.records.len(), 1);
    let error = try_scan(
        "#[export] impl Engine { pub fn new() -> Self { todo!() } } \
         #[data(impl)] impl Engine { pub fn run(&self) {} }",
    )
    .err()
    .expect("a class is no data(impl) target");
    assert_eq!(error, ScanError::UnsupportedMarkedImpl { target: "Engine".to_owned() });
}

#[test]
fn non_declaration_items_are_ignored() {
    let scanned = scan_demo("use std::collections::HashMap; #[data] pub struct Point { pub x: f64 }");
    assert_eq!(scanned.records.len(), 1);
}

#[test]
fn reference_to_unmarked_type_is_rejected() {
    let error = try_scan(
        "#[data] pub struct Shape { pub center: Point } \
         pub struct Point { pub x: f64 }",
    )
    .err()
    .expect("reference to an unmarked type must reject");
    assert!(matches!(error, ScanError::UnsupportedType { spelling } if spelling == "Point"));
}

#[test]
fn record_fields_resolve_classes_and_callback_traits() {
    let scanned = scan_demo(
        "#[export] pub trait Listener { fn on_value(&self, value: i32) -> i64; } \
         #[export] impl Engine { pub fn new() -> Self { todo!() } } \
         #[data] pub struct Holder { \
             pub engine: Engine, \
             pub spare: Option<Engine>, \
             pub listener: Option<Box<dyn Listener>>, \
             pub shared: std::sync::Arc<dyn Listener>, \
             pub bytes: Vec<u8>, \
             pub grouped: (u32), \
         }",
    );
    let holder = record(&scanned, "demo::Holder");
    let types: Vec<&TypeExpr> = holder.fields.iter().map(|field| &field.type_expr).collect();
    assert_eq!(
        types,
        vec![
            &TypeExpr::Class { id: ClassId("demo::Engine".to_string()), presence: HandlePresence::Required },
            &TypeExpr::Class { id: ClassId("demo::Engine".to_string()), presence: HandlePresence::Nullable },
            &TypeExpr::Trait {
                id: TraitId("demo::Listener".to_string()),
                form: TraitUseForm::BoxedDyn,
                presence: HandlePresence::Nullable,
            },
            &TypeExpr::Trait {
                id: TraitId("demo::Listener".to_string()),
                form: TraitUseForm::ArcDyn,
                presence: HandlePresence::Required,
            },
            &TypeExpr::Bytes,
            &TypeExpr::Primitive(Primitive::U32),
        ]
    );
}

#[test]
fn a_trait_named_bare_is_no_field_type() {
    let error = try_scan(
        "#[export] pub trait Listener { fn on_value(&self); } \
         #[data] pub struct Holder { pub listener: Listener }",
    )
    .err()
    .expect("a trait is used through a box, an Arc or impl");
    assert!(matches!(error, ScanError::UnsupportedType { spelling } if spelling == "Listener"));
}

#[test]
fn scanner_resolves_relative_and_super_paths_from_its_module() {
    let scanned = scan_demo(
        "#[data] pub struct Point { pub x: f64 } \
         pub mod shapes { #[data] pub struct Circle { pub center: super::Point, pub radius: f64 } }",
    );
    let module = ModulePath::root("demo").child("shapes");
    let scanner = Scanner { declared: &scanned.declared_types, module: &module };
    assert_eq!(
        scanner.scan(&parse_type("super::Point")),
        Ok(TypeExpr::Record(RecordId("demo::Point".to_string())))
    );
    assert_eq!(
        scanner.scan(&parse_type("Circle")),
        Ok(TypeExpr::Record(RecordId("demo::shapes::Circle".to_string())))
    );
    assert!(scanner.scan(&parse_type("Point")).is_err());
    assert!(scanner.scan(&parse_type("Circle<u8>")).is_err());
    assert_eq!(scanner.scan(&parse_type("Self")), Ok(TypeExpr::SelfType));
    assert_eq!(
        scanner.scan(&parse_type("std::collections::HashMap<String, Circle>")),
        Ok(TypeExpr::map(TypeExpr::String, TypeExpr::Record(RecordId("demo::shapes::Circle".to_string()))))
    );
    assert!(scanner.scan(&parse_type("my::Vec<u8>")).is_err());
    assert_eq!(scanner.scan(&parse_type("&[u8]")).ok(), None);
}

#[test]
fn scan_attaches_impl_methods_to_their_record() {
    let scanned = scan_demo(
        "#[data] pub struct Point { pub x: f64, pub y: f64 } \
         #[data(impl)] impl Point { \
             pub fn origin() -> Self { todo!() } \
             pub fn distance(&self, other: Point) -> f64 { 0.0 } \
         }",
    );
    assert_eq!(scanned.impl_methods.len(), 1);
    assert_eq!(scanned.impl_methods[0].target, "demo::Point");
    assert_eq!(scanned.impl_methods[0].methods, vec!["origin".to_string(), "distance".to_string()]);
}

#[test]
fn attaches_impl_methods_to_their_enum() {
    let scanned = scan_demo(
        "#[data] pub enum Mode { Fast, Slow } \
         #[data(impl)] impl Mode { \
             pub fn parse(value: i32) -> Self { todo!() } \
         }",
    );
    assert_eq!(scanned.impl_methods[0].target, "demo::Mode");
    assert_eq!(scanned.impl_methods[0].methods, vec!["parse".to_string()]);
}

#[test]
fn scan_file_scans_a_file_parsed_by_syn() {
    let file = syn::parse_file(
        "#[data] pub struct Shape { pub center: Point } #[data] pub struct Point { pub x: f64 }",
    )
    .expect("valid file");
    let scanned = boltffi_scan::scan::scan_file(&file, "demo").expect("scan");
    let shape = scanned.records.iter().find(|record| record.id.0 == "demo::Shape").expect("shape");
    assert_eq!(shape.fields[0].type_expr, TypeExpr::Record(RecordId("demo::Point".to_string())));
    let missing = syn::parse_file("#[data(impl)] impl Missing { pub fn run(&self) {} }").expect("valid file");
    assert_eq!(
        boltffi_scan::scan::scan_file(&missing, "demo").err(),
        Some(ScanError::UnsupportedMarkedImpl { target: "Missing".to_string() })
    );
}
