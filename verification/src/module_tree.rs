//! The modules of a single parsed file: the crate root, and each inline
//! `mod name { .. }` as a module of its own, in the order a depth-first
//! walk meets them.
use vstd::prelude::*;

use crate::marked::{SourceModule, SourceTree};
use crate::parse::{parse_file, parsed_items};
use crate::path::ModulePath;
use crate::syntax::{ItemKind, SynItem};

verus! {

/// A module as the tree holds it: its path's segments and its items.
pub type ModuleView = (Seq<Seq<char>>, Seq<SynItem>);

/// An item as its module keeps it: an inline module's items move to a
/// module of their own, so the item itself is left without content.
pub open spec fn stripped(item: SynItem) -> SynItem {
    match item.kind {
        ItemKind::Mod(Some(_)) => SynItem {
            attrs: item.attrs,
            ident: item.ident,
            vis: item.vis,
            kind: ItemKind::Mod(None),
        },
        _ => item,
    }
}

/// The modules that the items of the module at `path` make: that module
/// first, holding its items stripped, then the modules of each inline
/// child in source order.
pub open spec fn inline_modules(path: Seq<Seq<char>>, items: Seq<SynItem>) -> Seq<ModuleView>
    decreases items, 1int, 0int,
{
    seq![(path, items.map_values(|item: SynItem| stripped(item)))] + inline_children(path, items, 0)
}

/// The modules of the inline children among `items` from index `i` on.
pub open spec fn inline_children(path: Seq<Seq<char>>, items: Seq<SynItem>, i: int) -> Seq<
    ModuleView,
>
    decreases items, 0int, items.len() - i,
{
    if 0 <= i < items.len() {
        let rest = inline_children(path, items, i + 1);
        match items[i].kind {
            ItemKind::Mod(Some(inner)) => {
                proof {
                    assert(decreases_to!(items => items[i]));
                    assert(decreases_to!(items[i] => items[i].kind));
                    assert(decreases_to!(items[i].kind => inner));
                    assert(decreases_to!(inner => inner@));
                }
                inline_modules(path.push(items[i].ident@), inner@) + rest
            },
            _ => rest,
        }
    } else {
        Seq::empty()
    }
}

} // verus!

verus! {

/// Whether the path `inner` lies at or below the path `outer`.
pub open spec fn lies_under(outer: Seq<Seq<char>>, inner: Seq<Seq<char>>) -> bool {
    outer.len() <= inner.len() && inner.subrange(0, outer.len() as int) == outer
}

/// Every module that the items of the module at `path` make lies at or
/// below `path`, and the first is that module itself, holding the items
/// with the inline modules' contents moved out.
pub proof fn lemma_modules_lie_under(path: Seq<Seq<char>>, items: Seq<SynItem>)
    ensures
        inline_modules(path, items).len() >= 1,
        inline_modules(path, items)[0] == (path, items.map_values(|item: SynItem| stripped(item))),
        forall|k: int|
            0 <= k < inline_modules(path, items).len() ==> lies_under(
                path,
                #[trigger] inline_modules(path, items)[k].0,
            ),
    decreases items, 1int, 0int,
{
    lemma_children_lie_under(path, items, 0);
    let all = inline_modules(path, items);
    let children = inline_children(path, items, 0);
    assert forall|k: int| 0 <= k < all.len() implies lies_under(path, #[trigger] all[k].0) by {
        if k == 0 {
            assert(path.subrange(0, path.len() as int) =~= path);
        } else {
            assert(all[k] == children[k - 1]);
        }
    }
}

/// Every module the inline children among `items` from index `i` on make
/// lies strictly below `path`.
pub proof fn lemma_children_lie_under(path: Seq<Seq<char>>, items: Seq<SynItem>, i: int)
    ensures
        forall|k: int|
            0 <= k < inline_children(path, items, i).len() ==> lies_under(
                path,
                #[trigger] inline_children(path, items, i)[k].0,
            ),
    decreases items, 0int, items.len() - i,
{
    if 0 <= i < items.len() {
        lemma_children_lie_under(path, items, i + 1);
        let rest = inline_children(path, items, i + 1);
        match items[i].kind {
            ItemKind::Mod(Some(inner)) => {
                assert(decreases_to!(items => items[i]));
                assert(decreases_to!(items[i] => items[i].kind));
                assert(decreases_to!(items[i].kind => inner));
                assert(decreases_to!(inner => inner@));
                let child = path.push(items[i].ident@);
                lemma_modules_lie_under(child, inner@);
                let first = inline_modules(child, inner@);
                let all = inline_children(path, items, i);
                assert(all == first + rest);
                assert forall|k: int| 0 <= k < all.len() implies lies_under(path, #[trigger] all[k].0) by {
                    if k < first.len() {
                        assert(all[k] == first[k]);
                        let q = first[k].0;
                        assert(lies_under(child, q));
                        assert(q.subrange(0, child.len() as int) == child);
                        assert(q.subrange(0, path.len() as int) =~= child.subrange(0, path.len() as int));
                        assert(child.subrange(0, path.len() as int) =~= path);
                    } else {
                        assert(all[k] == rest[k - first.len()]);
                    }
                }
            },
            _ => {},
        }
    }
}

/// The modules of a list, each taken as its path's segments and its items.
pub open spec fn module_views(modules: Seq<SourceModule>) -> Seq<ModuleView> {
    modules.map_values(|module: SourceModule| (module.path@, module.items@))
}

/// What walking `item` of the module at `path` leaves to do: for an inline
/// module, the child's path and the items it holds.
spec fn pending_fits(
    path: Seq<Seq<char>>,
    item: SynItem,
    entry: Option<(ModulePath, Vec<SynItem>)>,
) -> bool {
    match item.kind {
        ItemKind::Mod(Some(inner)) => match entry {
            Some((child, held)) => held == inner && child@ == path.push(item.ident@),
            None => false,
        },
        _ => entry is None,
    }
}

/// Each pending entry fits the item it came from, `offset` places on.
spec fn pending_match(
    path: Seq<Seq<char>>,
    items: Seq<SynItem>,
    pending: Seq<Option<(ModulePath, Vec<SynItem>)>>,
    offset: int,
) -> bool {
    forall|j: int|
        0 <= j < pending.len() ==> #[trigger] pending_fits(path, items[offset + j], pending[j])
}

/// Appends the modules that `items` make inside the module at `path`: that
/// module first, then its inline children, depth first.
#[verifier::loop_isolation(false)]
fn push_inline_modules(modules: &mut Vec<SourceModule>, path: ModulePath, items: Vec<SynItem>)
    ensures
        module_views(final(modules)@) == module_views(old(modules)@) + inline_modules(
            path@,
            items@,
        ),
    decreases items@,
{
    let ghost original = items@;
    let ghost path_view = path@;
    let mut items = items;
    let mut kept: Vec<SynItem> = Vec::new();
    let mut pending: Vec<Option<(ModulePath, Vec<SynItem>)>> = Vec::new();
    while items.len() > 0
        invariant
            path@ == path_view,
            kept.len() + items.len() == original.len(),
            items@ == original.skip(kept.len() as int),
            kept@ == original.take(kept.len() as int).map_values(|item: SynItem| stripped(item)),
            pending.len() == kept.len(),
            pending_match(path_view, original, pending@, 0),
        decreases items.len(),
    {
        let ghost k = kept.len() as int;
        let item = items.remove(0);
        proof {
            assert(item == original[k]);
        }
        let SynItem { attrs, ident, vis, kind } = item;
        match kind {
            ItemKind::Mod(Some(inner)) => {
                let child = path.child(&ident);
                kept.push(SynItem { attrs, ident, vis, kind: ItemKind::Mod(None) });
                pending.push(Some((child, inner)));
            },
            kind => {
                kept.push(SynItem { attrs, ident, vis, kind });
                pending.push(None);
            },
        }
        proof {
            assert(pending_fits(path_view, original[0 + k], pending@[k]));
            assert(items@ =~= original.skip(kept.len() as int));
            assert(kept@ =~= original.take(kept.len() as int).map_values(
                |item: SynItem| stripped(item),
            ));
        }
    }
    let ghost before = module_views(modules@);
    let ghost root: ModuleView = (path_view, kept@);
    proof {
        assert(original.len() <= usize::MAX);
        assert(original.take(original.len() as int) =~= original);
    }
    modules.push(SourceModule { path, items: kept });
    proof {
        assert(module_views(modules@) =~= before + seq![root]);
    }
    let mut i: usize = 0;
    while pending.len() > 0
        invariant
            i + pending.len() == original.len(),
            original.len() <= usize::MAX,
            pending_match(path_view, original, pending@, i as int),
            module_views(modules@) + inline_children(path_view, original, i as int) == before
                + seq![root] + inline_children(path_view, original, 0),
        decreases pending.len(),
    {
        let ghost views_now = module_views(modules@);
        let ghost rest = inline_children(path_view, original, i + 1);
        let ghost fits = pending_fits(path_view, original[i + 0], pending@[0]);
        assert(fits);
        let ghost pending_before = pending@;
        let entry = pending.remove(0);
        match entry {
            Some((child, inner)) => {
                proof {
                    assert(decreases_to!(original => original[i as int]));
                    assert(decreases_to!(original[i as int] => original[i as int].kind));
                    assert(decreases_to!(original[i as int].kind => inner));
                    assert(decreases_to!(inner => inner@));
                    assert(decreases_to!(original => inner@));
                }
                push_inline_modules(modules, child, inner);
                proof {
                    assert(views_now + inline_children(path_view, original, i as int) =~= (views_now
                        + inline_modules(path_view.push(original[i as int].ident@), inner@)) + rest);
                }
            },
            None => {
                proof {
                    assert(inline_children(path_view, original, i as int) == rest);
                }
            },
        }
        proof {
            assert forall|j: int| 0 <= j < pending@.len() implies #[trigger] pending_fits(
                path_view,
                original[(i + 1) + j],
                pending@[j],
            ) by {
                assert(pending@[j] == pending_before[j + 1]);
                assert(pending_fits(path_view, original[i + (j + 1)], pending_before[j + 1]));
                assert((i + 1) + j == i + (j + 1));
            }
        }
        i = i + 1;
    }
}

} // verus!

verus! {

impl SourceTree {
    /// The tree of a crate written as one file: the root module
    /// `crate_name` holds the file's items, and each inline module is a
    /// module of its own under its parent's path.
    pub fn inline(crate_name: &str, items: Vec<SynItem>) -> (tree: SourceTree)
        ensures
            module_views(tree.modules@) == inline_modules(seq![crate_name@], items@),
    {
        let mut modules: Vec<SourceModule> = Vec::new();
        push_inline_modules(&mut modules, ModulePath::root(crate_name), items);
        proof {
            assert(module_views(Seq::empty()) =~= Seq::<ModuleView>::empty());
            assert(Seq::<ModuleView>::empty() + inline_modules(seq![crate_name@], items@)
                =~= inline_modules(seq![crate_name@], items@));
        }
        SourceTree { modules }
    }
}

impl SourceTree {
    /// Parses `text` as the single file of the crate `crate_name` and
    /// builds its tree; a text that does not parse is answered with the
    /// parser's message.
    pub fn parse(crate_name: &str, text: &str) -> (tree: Result<SourceTree, String>)
        ensures
            match parsed_items(text@) {
                Ok(items) => tree matches Ok(t) && module_views(t.modules@) == inline_modules(
                    seq![crate_name@],
                    items,
                ),
                Err(message) => tree matches Err(m) && m@ == message,
            },
    {
        match parse_file(text) {
            Ok(items) => Ok(SourceTree::inline(crate_name, items)),
            Err(message) => Err(message),
        }
    }
}

} // verus!
