//! Classes: exported inherent impl blocks, merged by the type they are
//! written for.
use vstd::prelude::*;

use crate::ast::ClassId;
use crate::error::{ScanError, ScanErrorView};
use crate::impl_items::{self, spec_scan};
use crate::impl_target::{self, spec_class_error, spec_path_target_resolve, spec_target_path};
use crate::marked::Marked;
use crate::path::ModulePath;
use crate::spelling::spell_type;
use crate::syntax::{SynItem, SynItemImpl, ItemKind};

verus! {

/// An exported class: its id, the name its impl blocks are written for,
/// and the ids of its exported methods in source order.
pub struct ClassDef {
    pub id: ClassId,
    pub ident: String,
    pub methods: Vec<String>,
}

/// What a [`ClassDef`] holds.
pub struct ClassView {
    pub id: Seq<char>,
    pub ident: Seq<char>,
    pub methods: Seq<Seq<char>>,
}

impl View for ClassDef {
    type V = ClassView;

    open spec fn view(&self) -> ClassView {
        ClassView {
            id: self.id.0@,
            ident: self.ident@,
            methods: self.methods@.map_values(|method: String| method@),
        }
    }
}

/// The views of a list of classes.
pub open spec fn class_views(classes: Seq<ClassDef>) -> Seq<ClassView> {
    classes.map_values(|class: ClassDef| class@)
}

/// The id of a method `name` of the class `class`.
pub open spec fn method_id(class: Seq<char>, name: Seq<char>) -> Seq<char> {
    class + "::"@ + name
}

/// The name a target path ends with, when its last segment is bare.
pub open spec fn target_ident(item: SynItemImpl) -> Option<Seq<char>> {
    match spec_target_path(item) {
        Some(path) => if path.segments@.len() > 0 && path.segments@.last().arguments is Bare {
            Some(path.segments@.last().ident@)
        } else {
            None
        },
        None => None,
    }
}

/// The class one exported impl block in `module` declares.
pub open spec fn spec_build(item: SynItemImpl, module: Seq<Seq<char>>) -> Result<ClassView, ScanErrorView> {
    match spec_class_error(item) {
        Some(error) => Err(error),
        None => match spec_path_target_resolve(spec_target_path(item), module) {
            None => Err(ScanErrorView::UnsupportedClassImpl { target: spell_type(item.self_ty) }),
            Some(id) => match target_ident(item) {
                None => Err(ScanErrorView::UnsupportedClassImpl { target: spell_type(item.self_ty) }),
                Some(ident) => match spec_scan(item.items@, id) {
                    Err(error) => Err(error),
                    Ok(names) => Ok(
                        ClassView {
                            id,
                            ident,
                            methods: names.map_values(|name: Seq<char>| method_id(id, name)),
                        },
                    ),
                },
            },
        },
    }
}

/// Whether no two classes share an id.
pub open spec fn distinct_ids(classes: Seq<ClassView>) -> bool {
    forall|i: int, j: int|
        0 <= i < classes.len() && 0 <= j < classes.len() && i != j ==> (#[trigger] classes[i]).id
            != (#[trigger] classes[j]).id
}

/// Adds a class to a list: its methods join those of a class with the
/// same id, which keeps its place, or it goes last.
pub open spec fn merge(classes: Seq<ClassView>, class: ClassView) -> Seq<ClassView> {
    if exists|i: int| 0 <= i < classes.len() && (#[trigger] classes[i]).id == class.id {
        let i = choose|i: int| 0 <= i < classes.len() && (#[trigger] classes[i]).id == class.id;
        classes.update(
            i,
            ClassView { id: classes[i].id, ident: classes[i].ident, methods: classes[i].methods + class.methods },
        )
    } else {
        classes.push(class)
    }
}

/// The impl block a marked entry holds.
pub open spec fn impl_of(item: SynItem) -> SynItemImpl {
    match item.kind {
        ItemKind::Impl(block) => block,
        _ => arbitrary(),
    }
}

/// The classes a list of exported impl blocks declares, or the first
/// error among them.
pub open spec fn spec_scan_classes(marked: Seq<(ModulePath, SynItem)>) -> Result<Seq<ClassView>, ScanErrorView>
    decreases marked.len(),
{
    if marked.len() == 0 {
        Ok(Seq::empty())
    } else {
        match spec_scan_classes(marked.drop_last()) {
            Err(error) => Err(error),
            Ok(classes) => match spec_build(impl_of(marked.last().1), marked.last().0@) {
                Err(error) => Err(error),
                Ok(class) => Ok(merge(classes, class)),
            },
        }
    }
}

/// Merging keeps the ids distinct.
pub proof fn lemma_merge_keeps_ids_distinct(classes: Seq<ClassView>, class: ClassView)
    requires
        distinct_ids(classes),
    ensures
        distinct_ids(merge(classes, class)),
        forall|i: int| 0 <= i < classes.len() ==> (#[trigger] merge(classes, class)[i]).id == classes[i].id,
{
    if exists|i: int| 0 <= i < classes.len() && (#[trigger] classes[i]).id == class.id {
    } else {
        let merged = classes.push(class);
        assert forall|i: int, j: int|
            0 <= i < merged.len() && 0 <= j < merged.len() && i != j implies (#[trigger] merged[i]).id
            != (#[trigger] merged[j]).id by {
            if i < classes.len() && j < classes.len() {
                assert(merged[i] == classes[i]);
                assert(merged[j] == classes[j]);
            } else if i < classes.len() {
                assert(merged[i] == classes[i]);
            } else {
                assert(merged[j] == classes[j]);
            }
        }
    }
}

/// Every exported impl block for one type adds to a single class: the
/// classes a scan gives never share an id.
pub proof fn lemma_scanned_ids_distinct(marked: Seq<(ModulePath, SynItem)>)
    ensures
        spec_scan_classes(marked) matches Ok(classes) ==> distinct_ids(classes),
    decreases marked.len(),
{
    if marked.len() > 0 {
        lemma_scanned_ids_distinct(marked.drop_last());
        if let Ok(classes) = spec_scan_classes(marked.drop_last()) {
            if let Ok(class) = spec_build(impl_of(marked.last().1), marked.last().0@) {
                lemma_merge_keeps_ids_distinct(classes, class);
            }
        }
    }
}

fn qualify(class: &String, name: &String) -> (id: String)
    ensures
        id@ == method_id(class@, name@),
{
    proof {
        reveal_strlit("::");
    }
    let mut id = class.clone();
    id.append("::");
    id.append(name.as_str());
    id
}

/// Builds the class one exported impl block declares: its target must be
/// a plain path of this crate, and its items must all be exported methods,
/// skipped or private.
pub fn build(item: &SynItemImpl, module: &ModulePath) -> (class: Result<ClassDef, ScanError>)
    ensures
        match class {
            Ok(class) => spec_build(*item, module@) == Ok::<ClassView, ScanErrorView>(class@),
            Err(error) => spec_build(*item, module@) == Err::<ClassView, ScanErrorView>(error@),
        },
{
    let target = match impl_target::Target::class(item) {
        Ok(target) => target,
        Err(error) => return Err(error),
    };
    let id = match target.resolve(module) {
        Some(id) => id,
        None => return Err(ScanError::UnsupportedClassImpl { target: target.spelling().to_owned() }),
    };
    let ident = match target.ident() {
        Some(ident) => ident.clone(),
        None => return Err(ScanError::UnsupportedClassImpl { target: target.spelling().to_owned() }),
    };
    let names = match impl_items::scan(item, id.as_str()) {
        Ok(names) => names,
        Err(error) => return Err(error),
    };
    let mut methods: Vec<String> = Vec::new();
    let mut i: usize = 0;
    while i < names.len()
        invariant
            i <= names.len(),
            methods@.map_values(|method: String| method@) == names@.take(i as int).map_values(
                |name: String| method_id(id@, name@),
            ),
        decreases names.len() - i,
    {
        let ghost before = methods@;
        methods.push(qualify(&id, &names[i]));
        proof {
            assert(names@.take(i + 1) =~= names@.take(i as int).push(names@[i as int]));
            assert(methods@.map_values(|method: String| method@) =~= before.map_values(
                |method: String| method@,
            ).push(method_id(id@, names@[i as int]@)));
            assert(names@.take(i + 1).map_values(|name: String| method_id(id@, name@))
                =~= names@.take(i as int).map_values(|name: String| method_id(id@, name@)).push(
                method_id(id@, names@[i as int]@),
            ));
        }
        i = i + 1;
    }
    proof {
        assert(names@.take(names.len() as int) =~= names@);
        assert(names@.map_values(|name: String| method_id(id@, name@)) =~= names@.map_values(
            |name: String| name@,
        ).map_values(|name: Seq<char>| method_id(id@, name)));
    }
    Ok(ClassDef { id: ClassId(id), ident, methods })
}

/// Scans the exported impl blocks, in order, into classes; blocks written
/// for the same type add their methods to one class.
pub fn scan<'a>(marked: &[Marked<'a>]) -> (classes: Result<Vec<ClassDef>, ScanError>)
    requires
        forall|i: int| 0 <= i < marked@.len() ==> (#[trigger] marked@[i]).view().2.kind is Impl,
    ensures
        match classes {
            Ok(classes) => spec_scan_classes(entries_of(marked@)) == Ok::<Seq<ClassView>, ScanErrorView>(
                class_views(classes@),
            ),
            Err(error) => spec_scan_classes(entries_of(marked@)) == Err::<Seq<ClassView>, ScanErrorView>(error@),
        },
{
    let mut classes: Vec<ClassDef> = Vec::new();
    let mut k: usize = 0;
    proof {
        assert(entries_of(marked@).take(0) =~= Seq::<(ModulePath, SynItem)>::empty());
        assert(class_views(classes@) =~= Seq::<ClassView>::empty());
    }
    while k < marked.len()
        invariant
            k <= marked.len(),
            forall|i: int| 0 <= i < marked@.len() ==> (#[trigger] marked@[i]).view().2.kind is Impl,
            spec_scan_classes(entries_of(marked@).take(k as int)) == Ok::<Seq<ClassView>, ScanErrorView>(
                class_views(classes@),
            ),
            distinct_ids(class_views(classes@)),
        decreases marked.len() - k,
    {
        let ghost entries = entries_of(marked@);
        proof {
            assert(entries.take(k + 1).drop_last() =~= entries.take(k as int));
            assert(entries.take(k + 1).last() == entries[k as int]);
            assert(entries[k as int] == (marked@[k as int].view().0, marked@[k as int].view().2));
        }
        let entry = &marked[k];
        let item = entry.item();
        let block = match &item.kind {
            ItemKind::Impl(block) => block,
            _ => {
                proof {
                    assert(marked@[k as int].view().2.kind is Impl);
                }
                return unreached();
            },
        };
        let class = match build(block, entry.module()) {
            Ok(class) => class,
            Err(error) => {
                proof {
                    lemma_scan_error_sticks(entries, k + 1);
                }
                return Err(error);
            },
        };
        let ghost before = class_views(classes@);
        proof {
            lemma_merge_keeps_ids_distinct(before, class@);
        }
        add_class(&mut classes, class);
        k = k + 1;
    }
    proof {
        assert(entries_of(marked@).take(marked@.len() as int) =~= entries_of(marked@));
    }
    Ok(classes)
}

/// The module and item of each marked entry.
pub open spec fn entries_of<'a>(marked: Seq<Marked<'a>>) -> Seq<(ModulePath, SynItem)> {
    marked.map_values(|m: Marked<'a>| (m.view().0, m.view().2))
}

/// Once a prefix fails, the whole scan fails with the same error.
proof fn lemma_scan_error_sticks(marked: Seq<(ModulePath, SynItem)>, n: int)
    requires
        0 <= n <= marked.len(),
        spec_scan_classes(marked.take(n)) is Err,
    ensures
        spec_scan_classes(marked) == spec_scan_classes(marked.take(n)),
    decreases marked.len() - n,
{
    if n < marked.len() {
        assert(marked.take(n + 1).drop_last() =~= marked.take(n));
        lemma_scan_error_sticks(marked, n + 1);
    } else {
        assert(marked.take(n) =~= marked);
    }
}

fn copy_strings(strings: &Vec<String>) -> (copy: Vec<String>)
    ensures
        copy@ == strings@,
{
    let mut copy: Vec<String> = Vec::new();
    let mut i: usize = 0;
    while i < strings.len()
        invariant
            i <= strings.len(),
            copy@ == strings@.take(i as int),
        decreases strings.len() - i,
    {
        copy.push(strings[i].clone());
        proof {
            assert(strings@.take(i + 1) =~= strings@.take(i as int).push(strings@[i as int]));
        }
        i = i + 1;
    }
    proof {
        assert(strings@.take(strings.len() as int) =~= strings@);
    }
    copy
}

fn add_class(classes: &mut Vec<ClassDef>, class: ClassDef)
    requires
        distinct_ids(class_views(old(classes)@)),
    ensures
        class_views(final(classes)@) == merge(class_views(old(classes)@), class@),
{
    let ghost views = class_views(classes@);
    let ghost incoming = class@;
    let mut j: usize = 0;
    while j < classes.len()
        invariant
            j <= classes.len(),
            classes@ == old(classes)@,
            views == class_views(classes@),
            incoming == class@,
            distinct_ids(views),
            forall|i: int| 0 <= i < j ==> (#[trigger] views[i]).id != incoming.id,
        decreases classes.len() - j,
    {
        if crate::text::text_eq(classes[j].id.0.as_str(), class.id.0.as_str()) {
            let mut methods = copy_strings(&classes[j].methods);
            let mut added = class.methods;
            let ghost kept = methods@;
            let ghost more = added@;
            methods.append(&mut added);
            let merged = ClassDef {
                id: ClassId(classes[j].id.0.clone()),
                ident: classes[j].ident.clone(),
                methods,
            };
            proof {
                assert(views[j as int].id == incoming.id);
                assert forall|i: int| 0 <= i < views.len() && (#[trigger] views[i]).id == incoming.id implies i
                    == j by {
                    if i != j {
                        assert(views[i].id != views[j as int].id);
                    }
                }
                assert(merged@.methods =~= views[j as int].methods + incoming.methods);
            }
            classes.set(j, merged);
            proof {
                assert(class_views(classes@) =~= views.update(
                    j as int,
                    ClassView {
                        id: views[j as int].id,
                        ident: views[j as int].ident,
                        methods: views[j as int].methods + incoming.methods,
                    },
                ));
            }
            return;
        }
        j = j + 1;
    }
    classes.push(class);
    proof {
        assert(class_views(classes@) =~= views.push(class@));
    }
}

} // verus!
