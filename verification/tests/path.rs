use boltffi_scan::path::ModulePath;

#[test]
fn root_qualifies_items_under_the_crate_segment() {
    assert_eq!(ModulePath::root("demo").qualified("add"), "demo::add");
}

#[test]
fn child_paths_preserve_all_ancestors_in_order() {
    let path = ModulePath::root("demo").child("geometry").child("point");

    assert_eq!(path.qualified("Point"), "demo::geometry::point::Point");
}

#[test]
fn child_does_not_mutate_the_parent_path() {
    let parent = ModulePath::root("demo");
    let child = parent.child("geometry");

    assert_eq!(parent.qualified("Point"), "demo::Point");
    assert_eq!(child.qualified("Point"), "demo::geometry::Point");
}
