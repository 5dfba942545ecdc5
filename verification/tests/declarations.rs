use boltffi_scan::ast::{AttributeInput, ClassId, EnumId, RecordId, TraitId, UserAttr};
use boltffi_scan::declared_types::{DeclaredKind, DeclaredType, DeclaredTypes};
use boltffi_scan::error::ScanError;
use boltffi_scan::marked::{MarkedItems, SourceModule, SourceTree};
use boltffi_scan::marker::Marker;
use boltffi_scan::path::ModulePath;
use boltffi_scan::registry::{self, TypeRegistry};
use boltffi_scan::standard::StandardType;
use boltffi_scan::syntax::{
    SynAttribute, SynFields, SynImplItem, SynItem, SynItemImpl, ItemKind, Meta, PathArguments, SynPathSegment, SynPath,
    SynType, SynVisibility,
};

fn simple_path(segments: &[&str]) -> SynPath {
    SynPath {
        leading_colon: false,
        segments: segments
            .iter()
            .map(|ident| SynPathSegment {
                ident: ident.to_string(),
                arguments: PathArguments::Bare,
            })
            .collect(),
    }
}

fn marker(name: &str) -> SynAttribute {
    SynAttribute {
        path: simple_path(&[name]),
        meta: Meta::Path,
    }
}

fn marker_with(name: &str, tokens: &str) -> SynAttribute {
    SynAttribute {
        path: simple_path(&[name]),
        meta: Meta::List {
            tokens: tokens.to_string(),
        },
    }
}

fn item(attrs: Vec<SynAttribute>, ident: &str, kind: ItemKind) -> SynItem {
    SynItem {
        attrs,
        ident: ident.to_string(),
        vis: SynVisibility::Public,
        kind,
    }
}

fn inherent_impl(target: &str) -> ItemKind {
    ItemKind::Impl(SynItemImpl {
        self_ty: SynType::Path {
            qself: false,
            path: simple_path(&[target]),
        },
        has_generic_params: false,
        has_where_clause: false,
        is_trait_impl: false,
        items: Vec::new(),
    })
}

fn trait_impl(target: &str) -> ItemKind {
    ItemKind::Impl(SynItemImpl {
        self_ty: SynType::Path {
            qself: false,
            path: simple_path(&[target]),
        },
        has_generic_params: false,
        has_where_clause: false,
        is_trait_impl: true,
        items: vec![SynImplItem::Fn {
            attrs: Vec::new(),
            vis: SynVisibility::Inherited,
            ident: "fmt".to_string(),
        }],
    })
}

fn demo(items: Vec<SynItem>) -> SourceTree {
    SourceTree {
        modules: vec![SourceModule {
            path: ModulePath::root("demo"),
            items,
        }],
    }
}

fn index(tree: &SourceTree) -> Result<DeclaredTypes, ScanError> {
    let marked = MarkedItems::collect(tree)?;
    DeclaredTypes::index(&marked)
}

#[test]
fn index_resolves_each_exported_domain_by_path() {
    let tree = SourceTree {
        modules: vec![
            SourceModule {
                path: ModulePath::root("demo"),
                items: vec![
                    item(vec![marker("data")], "Point", ItemKind::Struct(SynFields::Unit)),
                    item(vec![marker("error")], "Problem", ItemKind::Enum),
                    item(vec![marker("export")], "Listener", ItemKind::Trait),
                ],
            },
            SourceModule {
                path: ModulePath::root("demo").child("engine"),
                items: vec![item(vec![marker("export")], "", inherent_impl("Engine"))],
            },
        ],
    };
    let declared = index(&tree).expect("index");
    assert_eq!(
        declared.resolve("demo::Point"),
        Some(&DeclaredType::Record(RecordId("demo::Point".to_string())))
    );
    assert_eq!(
        declared.resolve("demo::Problem"),
        Some(&DeclaredType::Enum(EnumId("demo::Problem".to_string())))
    );
    assert_eq!(
        declared.resolve("demo::Listener"),
        Some(&DeclaredType::Trait(TraitId("demo::Listener".to_string())))
    );
    assert_eq!(
        declared.resolve("demo::engine::Engine"),
        Some(&DeclaredType::Class(ClassId("demo::engine::Engine".to_string())))
    );
    assert_eq!(declared.resolve("demo::Engine"), None);
}

#[test]
fn index_rejects_a_class_and_a_record_at_one_path() {
    let tree = demo(vec![
        item(vec![marker("data")], "Engine", ItemKind::Struct(SynFields::Unit)),
        item(vec![marker("export")], "", inherent_impl("Engine")),
    ]);
    assert_eq!(
        index(&tree).err(),
        Some(ScanError::ConflictingDeclarations {
            path: "demo::Engine".to_owned(),
            first: "record".to_owned(),
            second: "class".to_owned(),
        })
    );
}

#[test]
fn index_rejects_duplicate_records() {
    let tree = demo(vec![
        item(vec![marker("data")], "Point", ItemKind::Struct(SynFields::Unit)),
        item(vec![marker("data")], "Point", ItemKind::Struct(SynFields::Unit)),
    ]);
    assert_eq!(
        index(&tree).err(),
        Some(ScanError::ConflictingDeclarations {
            path: "demo::Point".to_owned(),
            first: "record".to_owned(),
            second: "record".to_owned(),
        })
    );
}

#[test]
fn index_merges_impl_blocks_of_one_class() {
    let tree = demo(vec![
        item(vec![marker("export")], "", inherent_impl("Engine")),
        item(vec![marker("export")], "", inherent_impl("Engine")),
    ]);
    let declared = index(&tree).expect("index");
    assert_eq!(
        declared.resolve("demo::Engine"),
        Some(&DeclaredType::Class(ClassId("demo::Engine".to_string())))
    );
}

#[test]
fn index_rejects_an_exported_trait_impl_as_a_class() {
    let tree = demo(vec![
        item(vec![marker("data")], "Engine", ItemKind::Struct(SynFields::Unit)),
        item(vec![marker("export")], "", trait_impl("Engine")),
    ]);
    assert_eq!(
        index(&tree).err(),
        Some(ScanError::UnsupportedClassImplShape {
            target: "Engine".to_owned(),
        })
    );
}

#[test]
fn collect_rejects_marker_arguments_and_misplaced_markers() {
    let arguments = demo(vec![item(vec![marker_with("data", "foo")], "Point", ItemKind::Struct(SynFields::Unit))]);
    assert_eq!(
        index(&arguments).err(),
        Some(ScanError::InvalidMarker {
            attribute: "data(foo)".to_owned()
        })
    );
    let misplaced = demo(vec![item(vec![marker("export")], "Point", ItemKind::Struct(SynFields::Unit))]);
    assert_eq!(
        index(&misplaced).err(),
        Some(ScanError::InvalidMarkerPlacement {
            marker: "export".to_owned(),
            item: "struct".to_owned(),
        })
    );
    let module = demo(vec![item(vec![marker("data")], "geometry", ItemKind::Mod(None))]);
    assert_eq!(
        index(&module).err(),
        Some(ScanError::InvalidMarkerPlacement {
            marker: "data".to_owned(),
            item: "module".to_owned(),
        })
    );
}

#[test]
fn collect_leaves_unmarked_and_non_declaration_items_alone() {
    let tree = demo(vec![
        item(Vec::new(), "Hidden", ItemKind::Struct(SynFields::Unit)),
        item(Vec::new(), "helper", ItemKind::Fn),
        item(Vec::new(), "", ItemKind::Use),
        item(Vec::new(), "", inherent_impl("Hidden")),
    ]);
    let marked = MarkedItems::collect(&tree).expect("collect");
    assert!(marked.records().is_empty());
    assert!(marked.functions().is_empty());
    assert!(marked.impls().is_empty());
    let declared = DeclaredTypes::index(&marked).expect("index");
    assert_eq!(declared.resolve("demo::Hidden"), None);
}

#[test]
fn collect_reads_qualified_markers() {
    let qualified = SynAttribute {
        path: simple_path(&["boltffi", "export"]),
        meta: Meta::Path,
    };
    let tree = demo(vec![item(vec![qualified], "ANSWER", ItemKind::Const)]);
    let marked = MarkedItems::collect(&tree).expect("collect");
    assert_eq!(marked.constants().len(), 1);
    assert_eq!(marked.constants()[0].marker(), Marker::Export);
}

#[test]
fn register_refuses_a_second_kind_at_one_path_and_keeps_the_first() {
    let mut declared = DeclaredTypes::new();
    assert_eq!(declared.register(DeclaredType::Enum(EnumId("demo::Mode".to_string()))), Ok(()));
    assert_eq!(
        declared.register(DeclaredType::Trait(TraitId("demo::Mode".to_string()))),
        Err(ScanError::ConflictingDeclarations {
            path: "demo::Mode".to_owned(),
            first: "enum".to_owned(),
            second: "trait".to_owned(),
        })
    );
    assert_eq!(
        declared.resolve("demo::Mode"),
        Some(&DeclaredType::Enum(EnumId("demo::Mode".to_string())))
    );
    assert_eq!(declared.register(DeclaredType::Class(ClassId("demo::Engine".to_string()))), Ok(()));
    assert_eq!(declared.register(DeclaredType::Class(ClassId("demo::Engine".to_string()))), Ok(()));
}

#[test]
fn declared_kinds_name_their_domains() {
    assert_eq!(DeclaredKind::Record.as_str(), "record");
    assert_eq!(DeclaredKind::Class.as_str(), "class");
    assert!(DeclaredKind::Class.allows_redeclaration());
    assert!(!DeclaredKind::Record.allows_redeclaration());
    let declared = DeclaredType::Trait(TraitId("demo::Listener".to_string()));
    assert_eq!(declared.path(), "demo::Listener");
    assert_eq!(declared.kind(), DeclaredKind::Trait);
}

#[test]
fn registry_resolves_the_latest_registration() {
    let mut types = TypeRegistry::new();
    assert_eq!(types.resolve("Point"), None);
    types.register_record("Point", RecordId("demo::Point".to_string()));
    types.register_record("Point", RecordId("demo::geometry::Point".to_string()));
    assert_eq!(
        types.resolve("Point"),
        Some(&registry::DeclaredType::Record(RecordId("demo::geometry::Point".to_string())))
    );
    assert_eq!(types.resolve("Shape"), None);
}

#[test]
fn standard_types_accept_prelude_and_full_paths() {
    assert_eq!(StandardType::from_leaf("Vec"), Some(StandardType::Vec));
    assert_eq!(StandardType::from_leaf("Rc"), None);
    assert!(StandardType::String.accepts_path("alloc::string::String"));
    assert!(StandardType::HashMap.accepts_path("HashMap"));
    assert!(!StandardType::Arc.accepts_path("Arc"));
    assert!(StandardType::Arc.accepts_path("std::sync::Arc"));
    assert!(!StandardType::Vec.accepts_path("my::Vec"));
    assert_eq!(StandardType::Option.paths(), vec!["Option", "std::option::Option", "core::option::Option"]);
}

#[test]
fn module_paths_resolve_relative_and_crate_paths() {
    let module = ModulePath::root("demo").child("geometry");
    assert_eq!(module.resolve(&simple_path(&["Point"])), Some("demo::geometry::Point".to_string()));
    assert_eq!(module.resolve(&simple_path(&["crate", "Engine"])), Some("demo::Engine".to_string()));
    assert_eq!(module.resolve(&simple_path(&["super", "Engine"])), Some("demo::Engine".to_string()));
    assert_eq!(
        module.resolve(&simple_path(&["self", "shapes", "Circle"])),
        Some("demo::geometry::shapes::Circle".to_string())
    );
    assert_eq!(ModulePath::root("demo").resolve(&simple_path(&["super", "Engine"])), None);
    assert_eq!(module.resolve(&simple_path(&["self"])), None);
    let external = SynPath {
        leading_colon: true,
        segments: simple_path(&["serde", "Value"]).segments,
    };
    assert_eq!(module.resolve(&external), None);
}

#[test]
fn error_markers_carry_the_error_attribute() {
    let mut attrs: Vec<UserAttr> = Vec::new();
    Marker::Data.append_value_attrs(&mut attrs);
    assert!(attrs.is_empty());
    Marker::Error.append_value_attrs(&mut attrs);
    assert_eq!(
        attrs,
        vec![UserAttr {
            path: vec!["error".to_string()],
            input: AttributeInput::Empty,
        }]
    );
}
