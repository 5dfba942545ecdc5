//! Which items of an exported impl block become methods.
use vstd::prelude::*;

use crate::error::{result_view, ScanError, ScanErrorView};
use crate::marker::{marker_text, spec_detect, Marker};
use crate::syntax::{SynAttribute, SynImplItem, SynItemImpl, SynVisibility};

verus! {

/// Whether a function of an impl block is exported: `#[skip]` drops it,
/// any other marker is misplaced on it, and without a marker it is
/// exported when it is `pub`.
pub open spec fn spec_exported(attrs: Seq<SynAttribute>, visibility: SynVisibility, item: Seq<char>) -> Result<bool, ScanErrorView> {
    match spec_detect(attrs) {
        Err(error) => Err(error),
        Ok(Some(Marker::Skip)) => Ok(false),
        Ok(Some(marker)) => Err(
            ScanErrorView::InvalidMarkerPlacement { marker: marker_text(marker), item },
        ),
        Ok(None) => Ok(visibility is Public),
    }
}

/// What becomes of an impl item that is not a method: a skipped or
/// private one is dropped (`None`); a public one, which the contract
/// cannot carry, is rejected rather than dropped.
pub open spec fn spec_non_method(
    attrs: Seq<SynAttribute>,
    visibility: Option<SynVisibility>,
    parent: Seq<char>,
    name: Seq<char>,
    item: Seq<char>,
) -> Option<ScanErrorView> {
    match spec_detect(attrs) {
        Err(error) => Some(error),
        Ok(Some(Marker::Skip)) => None,
        Ok(Some(marker)) => Some(
            ScanErrorView::InvalidMarkerPlacement { marker: marker_text(marker), item },
        ),
        Ok(None) => match visibility {
            Some(v) => if v is Public {
                Some(ScanErrorView::UnsupportedImplItem { item: parent + "::"@ + name })
            } else {
                None
            },
            None => Some(ScanErrorView::UnsupportedImplItem { item: parent + "::"@ + name }),
        },
    }
}

/// What becomes of one impl item: `None` drops it, `Some(Ok(()))` makes it
/// a method whose signature is scanned, `Some(Err(..))` rejects it.
pub open spec fn spec_scan_item(item: SynImplItem, parent: Seq<char>) -> Option<Result<(), ScanErrorView>> {
    match item {
        SynImplItem::Fn { attrs, vis, .. } => match spec_exported(attrs@, vis, "method"@) {
            Ok(true) => Some(Ok(())),
            Ok(false) => None,
            Err(error) => Some(Err(error)),
        },
        SynImplItem::Const { attrs, vis, ident } => match spec_non_method(
            attrs@,
            Some(vis),
            parent,
            ident@,
            "associated const"@,
        ) {
            Some(error) => Some(Err(error)),
            None => None,
        },
        SynImplItem::Type { attrs, vis, ident } => match spec_non_method(
            attrs@,
            Some(vis),
            parent,
            ident@,
            "associated type"@,
        ) {
            Some(error) => Some(Err(error)),
            None => None,
        },
        SynImplItem::Macro { attrs, path } => {
            let name = if path.segments.len() > 0 {
                path.segments@.last().ident@
            } else {
                "macro"@
            };
            match spec_non_method(attrs@, None, parent, name, "macro"@) {
                Some(error) => Some(Err(error)),
                None => None,
            }
        },
        SynImplItem::Other => Some(Err(ScanErrorView::UnsupportedImplItem { item: parent + "::item"@ })),
    }
}

/// Decides what becomes of one impl item of the impl block for `parent`.
pub fn scan_item(item: &SynImplItem, parent: &str) -> (decision: Option<Result<(), ScanError>>)
    ensures
        match spec_scan_item(*item, parent@) {
            Some(Ok(())) => decision == Some(Ok::<(), ScanError>(())),
            Some(Err(error)) => decision matches Some(Err(e)) && e@ == error,
            None => decision is None,
        },
{
    proof {
        reveal_strlit("method");
        reveal_strlit("associated const");
        reveal_strlit("associated type");
        reveal_strlit("macro");
        reveal_strlit("::item");
    }
    match item {
        SynImplItem::Fn { attrs, vis, .. } => match exported(attrs, vis, "method") {
            Ok(true) => Some(Ok(())),
            Ok(false) => None,
            Err(error) => Some(Err(error)),
        },
        SynImplItem::Const { attrs, vis, ident } => match non_method(
            attrs,
            Some(vis),
            parent,
            ident.as_str(),
            "associated const",
        ) {
            Some(error) => Some(Err(error)),
            None => None,
        },
        SynImplItem::Type { attrs, vis, ident } => match non_method(
            attrs,
            Some(vis),
            parent,
            ident.as_str(),
            "associated type",
        ) {
            Some(error) => Some(Err(error)),
            None => None,
        },
        SynImplItem::Macro { attrs, path } => {
            let n = path.segments.len();
            let name = if n > 0 {
                path.segments[n - 1].ident.as_str()
            } else {
                "macro"
            };
            match non_method(attrs, None, parent, name, "macro") {
                Some(error) => Some(Err(error)),
                None => None,
            }
        },
        SynImplItem::Other => {
            let mut item = parent.to_owned();
            item.append("::item");
            Some(Err(ScanError::UnsupportedImplItem { item }))
        },
    }
}

/// Whether a function of an impl block is exported.
pub fn exported(attrs: &Vec<SynAttribute>, visibility: &SynVisibility, item: &str) -> (exported: Result<bool, ScanError>)
    ensures
        result_view(exported) == spec_exported(attrs@, *visibility, item@),
{
    match Marker::detect(attrs) {
        Err(error) => Err(error),
        Ok(Some(Marker::Skip)) => Ok(false),
        Ok(Some(marker)) => Err(
            ScanError::InvalidMarkerPlacement { marker: marker.as_str().to_owned(), item: item.to_owned() },
        ),
        Ok(None) => Ok(matches!(visibility, SynVisibility::Public)),
    }
}

/// What becomes of an impl item that is not a method.
pub fn non_method(
    attrs: &Vec<SynAttribute>,
    visibility: Option<&SynVisibility>,
    parent: &str,
    name: &str,
    item: &str,
) -> (rejected: Option<ScanError>)
    ensures
        match spec_non_method(
            attrs@,
            match visibility {
                Some(v) => Some(*v),
                None => None,
            },
            parent@,
            name@,
            item@,
        ) {
            Some(error) => rejected matches Some(e) && e@ == error,
            None => rejected is None,
        },
{
    proof {
        reveal_strlit("::");
    }
    match Marker::detect(attrs) {
        Err(error) => Some(error),
        Ok(Some(Marker::Skip)) => None,
        Ok(Some(marker)) => Some(
            ScanError::InvalidMarkerPlacement { marker: marker.as_str().to_owned(), item: item.to_owned() },
        ),
        Ok(None) => {
            let private = match visibility {
                Some(v) => !matches!(v, SynVisibility::Public),
                None => false,
            };
            if private {
                None
            } else {
                let mut qualified = parent.to_owned();
                qualified.append("::");
                qualified.append(name);
                Some(ScanError::UnsupportedImplItem { item: qualified })
            }
        },
    }
}

/// The methods an impl block for `parent` exports, by name and in order,
/// or the first of its items that is rejected.
pub open spec fn spec_scan(items: Seq<SynImplItem>, parent: Seq<char>) -> Result<Seq<Seq<char>>, ScanErrorView>
    decreases items.len(),
{
    if items.len() == 0 {
        Ok(Seq::empty())
    } else {
        match spec_scan(items.drop_last(), parent) {
            Err(error) => Err(error),
            Ok(names) => match spec_scan_item(items.last(), parent) {
                None => Ok(names),
                Some(Err(error)) => Err(error),
                Some(Ok(())) => match items.last() {
                    SynImplItem::Fn { ident, .. } => Ok(names.push(ident@)),
                    _ => Ok(names),
                },
            },
        }
    }
}

/// A list of names taken by its views.
pub open spec fn names_view(names: Result<Vec<String>, ScanError>) -> Result<Seq<Seq<char>>, ScanErrorView> {
    match names {
        Ok(names) => Ok(names@.map_values(|name: String| name@)),
        Err(error) => Err(error@),
    }
}

/// Only functions are ever scanned as methods.
proof fn lemma_scanned_items_are_functions(item: SynImplItem, parent: Seq<char>)
    requires
        spec_scan_item(item, parent) == Some(Ok::<(), ScanErrorView>(())),
    ensures
        item is Fn,
{
    match item {
        SynImplItem::Const { attrs, vis, ident } => {},
        SynImplItem::Type { attrs, vis, ident } => {},
        SynImplItem::Macro { attrs, path } => {},
        _ => {},
    }
}

/// The names of the methods the impl block `item` for `parent` exports,
/// in order; the first rejected item fails the whole block. Only the
/// items are decided here: the methods' signatures are not scanned.
pub fn scan(item: &SynItemImpl, parent: &str) -> (methods: Result<Vec<String>, ScanError>)
    ensures
        names_view(methods) == spec_scan(item.items@, parent@),
{
    let items = &item.items;
    let mut names: Vec<String> = Vec::new();
    let mut i: usize = 0;
    proof {
        assert(items@.take(0) =~= Seq::<SynImplItem>::empty());
        assert(names@.map_values(|name: String| name@) =~= Seq::<Seq<char>>::empty());
    }
    while i < items.len()
        invariant
            i <= items.len(),
            items@ == item.items@,
            spec_scan(items@.take(i as int), parent@) == Ok::<Seq<Seq<char>>, ScanErrorView>(
                names@.map_values(|name: String| name@),
            ),
        decreases items.len() - i,
    {
        let ghost before = names@;
        proof {
            assert(items@.take(i + 1).drop_last() =~= items@.take(i as int));
            assert(items@.take(i + 1).last() == items@[i as int]);
        }
        match scan_item(&items[i], parent) {
            None => {},
            Some(Err(error)) => {
                proof {
                    lemma_scan_error_sticks(items@, parent@, i + 1);
                }
                return Err(error);
            },
            Some(Ok(())) => {
                proof {
                    lemma_scanned_items_are_functions(items@[i as int], parent@);
                }
                match &items[i] {
                    SynImplItem::Fn { ident, .. } => {
                        names.push(ident.clone());
                        proof {
                            assert(names@.map_values(|name: String| name@) =~= before.map_values(
                                |name: String| name@,
                            ).push(ident@));
                        }
                    },
                    _ => {},
                }
            },
        }
        i = i + 1;
    }
    proof {
        assert(items@.take(items.len() as int) =~= items@);
    }
    Ok(names)
}

/// Once a prefix of the items is rejected, so is the whole block, with the
/// same error.
proof fn lemma_scan_error_sticks(items: Seq<SynImplItem>, parent: Seq<char>, n: int)
    requires
        0 <= n <= items.len(),
        spec_scan(items.take(n), parent) is Err,
    ensures
        spec_scan(items, parent) == spec_scan(items.take(n), parent),
    decreases items.len() - n,
{
    if n < items.len() {
        assert(items.take(n + 1).drop_last() =~= items.take(n));
        lemma_scan_error_sticks(items, parent, n + 1);
    } else {
        assert(items.take(n) =~= items);
    }
}

/// Without a marker, a function of an impl block is exported exactly when
/// it is plain `pub`: a private function and a `pub(crate)`, `pub(super)`
/// or `pub(in ..)` one are never exported. With no attributes at all there
/// is no marker.
pub proof fn lemma_only_plain_pub_is_exported(
    attrs: Seq<SynAttribute>,
    visibility: SynVisibility,
    item: Seq<char>,
)
    requires
        spec_detect(attrs) == Ok::<Option<Marker>, ScanErrorView>(None),
    ensures
        visibility == SynVisibility::Public ==> spec_exported(attrs, visibility, item) == Ok::<
            bool,
            ScanErrorView,
        >(true),
        visibility != SynVisibility::Public ==> spec_exported(attrs, visibility, item) == Ok::<
            bool,
            ScanErrorView,
        >(false),
        (visibility matches SynVisibility::Restricted(_)) ==> spec_exported(attrs, visibility, item)
            == Ok::<bool, ScanErrorView>(false),
        spec_detect(Seq::<SynAttribute>::empty()) == Ok::<Option<Marker>, ScanErrorView>(None),
{
}

} // verus!
