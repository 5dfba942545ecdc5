//! Sorting the marked items of a source tree by the domain shape they
//! declare.
use vstd::prelude::*;

use crate::error::{ScanError, ScanErrorView};
use crate::marker::{marker_text, spec_detect, Marker};
use crate::path::ModulePath;
use crate::syntax::{SynItem, ItemKind};

verus! {

/// A module of a source tree with its items in source order.
pub struct SourceModule {
    pub path: ModulePath,
    pub items: Vec<SynItem>,
}

/// The modules of a crate, in the order they were loaded.
pub struct SourceTree {
    pub modules: Vec<SourceModule>,
}

/// The domain shape a marked item declares.
#[derive(Clone, Copy, Debug, Eq, PartialEq, Structural)]
pub enum Bucket {
    Records,
    Enums,
    Functions,
    Traits,
    Classes,
    Constants,
    Impls,
}

/// Where a marker on an item of the given kind puts it: data and error
/// structs are records and enums are enums, `data(impl)` blocks are impls
/// and exported functions, traits, impls and constants are functions,
/// traits, classes and constants. Any other pairing is misplaced.
pub open spec fn spec_bucket(marker: Marker, kind: ItemKind) -> Option<Bucket> {
    match (marker, kind) {
        (Marker::Data, ItemKind::Struct(_)) => Some(Bucket::Records),
        (Marker::Error, ItemKind::Struct(_)) => Some(Bucket::Records),
        (Marker::Data, ItemKind::Enum) => Some(Bucket::Enums),
        (Marker::Error, ItemKind::Enum) => Some(Bucket::Enums),
        (Marker::DataImpl, ItemKind::Impl(_)) => Some(Bucket::Impls),
        (Marker::Export, ItemKind::Fn) => Some(Bucket::Functions),
        (Marker::Export, ItemKind::Trait) => Some(Bucket::Traits),
        (Marker::Export, ItemKind::Impl(_)) => Some(Bucket::Classes),
        (Marker::Export, ItemKind::Const) => Some(Bucket::Constants),
        _ => None,
    }
}

/// The name an item kind is reported with.
pub open spec fn spec_item_kind(kind: ItemKind) -> Seq<char> {
    match kind {
        ItemKind::Const => "const"@,
        ItemKind::Enum => "enum"@,
        ItemKind::ExternCrate => "extern crate"@,
        ItemKind::Fn => "function"@,
        ItemKind::ForeignMod => "foreign mod"@,
        ItemKind::Impl(_) => "impl"@,
        ItemKind::Macro => "macro"@,
        ItemKind::Mod(_) => "module"@,
        ItemKind::Static => "static"@,
        ItemKind::Struct(_) => "struct"@,
        ItemKind::Trait => "trait"@,
        ItemKind::TraitAlias => "trait alias"@,
        ItemKind::Type => "type alias"@,
        ItemKind::Union => "union"@,
        ItemKind::Use => "use"@,
        ItemKind::Verbatim => "item"@,
    }
}

/// What marking does with one item: nothing for an unmarked item, a
/// bucket for a well placed marker, an error otherwise.
pub open spec fn spec_entry(item: SynItem) -> Result<Option<(Marker, Bucket)>, ScanErrorView> {
    match spec_detect(item.attrs@) {
        Err(error) => Err(error),
        Ok(None) => Ok(None),
        Ok(Some(marker)) => match spec_bucket(marker, item.kind) {
            Some(bucket) => Ok(Some((marker, bucket))),
            None => Err(
                ScanErrorView::InvalidMarkerPlacement {
                    marker: marker_text(marker),
                    item: spec_item_kind(item.kind),
                },
            ),
        },
    }
}

/// The items of a tree, each with its module, in source order.
pub open spec fn spec_entries(modules: Seq<SourceModule>) -> Seq<(ModulePath, SynItem)>
    decreases modules.len(),
{
    if modules.len() == 0 {
        Seq::empty()
    } else {
        spec_entries(modules.drop_last()) + spec_module_entries(modules.last())
    }
}

pub open spec fn spec_module_entries(module: SourceModule) -> Seq<(ModulePath, SynItem)> {
    module.items@.map_values(|item: SynItem| (module.path, item))
}

/// The first error that marking meets in `entries`, if any.
pub open spec fn spec_first_error(entries: Seq<(ModulePath, SynItem)>) -> Option<ScanErrorView>
    decreases entries.len(),
{
    if entries.len() == 0 {
        None
    } else {
        match spec_first_error(entries.drop_last()) {
            Some(error) => Some(error),
            None => match spec_entry(entries.last().1) {
                Err(error) => Some(error),
                Ok(_) => None,
            },
        }
    }
}

/// The marked items of `entries` that fall in `bucket`, in source order.
pub open spec fn spec_bucket_entries(entries: Seq<(ModulePath, SynItem)>, bucket: Bucket) -> Seq<
    (ModulePath, Marker, SynItem),
>
    decreases entries.len(),
{
    if entries.len() == 0 {
        Seq::empty()
    } else {
        let before = spec_bucket_entries(entries.drop_last(), bucket);
        match spec_entry(entries.last().1) {
            Ok(Some((marker, b))) => if b == bucket {
                before.push((entries.last().0, marker, entries.last().1))
            } else {
                before
            },
            _ => before,
        }
    }
}

/// An item with the module it lives in and the marker it carries.
pub struct Marked<'source> {
    module: &'source ModulePath,
    marker: Marker,
    item: &'source SynItem,
}

impl<'source> Marked<'source> {
    pub fn new(module: &'source ModulePath, marker: Marker, item: &'source SynItem) -> (marked: Self)
        ensures
            marked.view() == (*module, marker, *item),
    {
        Marked { module, marker, item }
    }

    /// The module, marker and item.
    pub open spec fn view(self) -> (ModulePath, Marker, SynItem) {
        (*self.module_spec(), self.marker_spec(), *self.item_spec())
    }

    pub closed spec fn module_spec(self) -> &'source ModulePath {
        self.module
    }

    pub closed spec fn marker_spec(self) -> Marker {
        self.marker
    }

    pub closed spec fn item_spec(self) -> &'source SynItem {
        self.item
    }

    pub fn module(&self) -> (module: &'source ModulePath)
        ensures
            *module == self.view().0,
    {
        self.module
    }

    pub fn marker(&self) -> (marker: Marker)
        ensures
            marker == self.view().1,
    {
        self.marker
    }

    pub fn item(&self) -> (item: &'source SynItem)
        ensures
            *item == self.view().2,
    {
        self.item
    }
}

/// The views of a list of marked items.
pub open spec fn marked_views<'a>(marked: Seq<Marked<'a>>) -> Seq<(ModulePath, Marker, SynItem)> {
    marked.map_values(|m: Marked<'a>| m.view())
}

/// The marked items of a source tree, sorted by domain shape.
pub struct MarkedItems<'source> {
    records: Vec<Marked<'source>>,
    enums: Vec<Marked<'source>>,
    functions: Vec<Marked<'source>>,
    traits: Vec<Marked<'source>>,
    classes: Vec<Marked<'source>>,
    constants: Vec<Marked<'source>>,
    impls: Vec<Marked<'source>>,
}

/// Whether every entry of `entries` carries a marker that puts an item of
/// its kind in `bucket`.
pub open spec fn entries_fit(entries: Seq<(ModulePath, Marker, SynItem)>, bucket: Bucket) -> bool {
    forall|i: int|
        0 <= i < entries.len() ==> spec_bucket((#[trigger] entries[i]).1, entries[i].2.kind)
            == Some(bucket)
}

/// Every marked entry fits the bucket it was filed under.
pub proof fn lemma_bucket_entries_fit(entries: Seq<(ModulePath, SynItem)>, bucket: Bucket)
    ensures
        entries_fit(spec_bucket_entries(entries, bucket), bucket),
    decreases entries.len(),
{
    if entries.len() > 0 {
        lemma_bucket_entries_fit(entries.drop_last(), bucket);
        let before = spec_bucket_entries(entries.drop_last(), bucket);
        match spec_entry(entries.last().1) {
            Ok(Some((marker, b))) => if b == bucket {
                let after = before.push((entries.last().0, marker, entries.last().1));
                assert forall|i: int| 0 <= i < after.len() implies spec_bucket(
                    (#[trigger] after[i]).1,
                    after[i].2.kind,
                ) == Some(bucket) by {
                    if i < before.len() {
                        assert(after[i] == before[i]);
                    }
                }
            },
            _ => {},
        }
    }
}

impl<'source> MarkedItems<'source> {
    /// Every filed item carries a marker that puts an item of its kind in
    /// the bucket it is filed under.
    pub open spec fn wf(self) -> bool {
        forall|b: Bucket| #[trigger] entries_fit(self.bucket(b), b)
    }

    /// The marked items that fall in `bucket`, in source order.
    pub closed spec fn bucket(self, bucket: Bucket) -> Seq<(ModulePath, Marker, SynItem)> {
        match bucket {
            Bucket::Records => marked_views(self.records@),
            Bucket::Enums => marked_views(self.enums@),
            Bucket::Functions => marked_views(self.functions@),
            Bucket::Traits => marked_views(self.traits@),
            Bucket::Classes => marked_views(self.classes@),
            Bucket::Constants => marked_views(self.constants@),
            Bucket::Impls => marked_views(self.impls@),
        }
    }

    /// Sorts the marked items of `tree`. The first item whose markers
    /// cannot be read, or whose marker does not fit its kind, rejects the
    /// whole tree.
    pub fn collect(tree: &'source SourceTree) -> (marked: Result<Self, ScanError>)
        ensures
            match marked {
                Ok(marked) => marked.wf() && spec_first_error(spec_entries(tree.modules@)) is None && forall|
                    b: Bucket,
                | #[trigger] marked.bucket(b) == spec_bucket_entries(spec_entries(tree.modules@), b),
                Err(error) => spec_first_error(spec_entries(tree.modules@)) == Some(error@),
            },
    {
        let mut marked = Self::empty();
        let mut m: usize = 0;
        while m < tree.modules.len()
            invariant
                m <= tree.modules.len(),
                spec_first_error(spec_entries(tree.modules@.take(m as int))) is None,
                forall|b: Bucket| #[trigger]
                    marked.bucket(b) == spec_bucket_entries(
                        spec_entries(tree.modules@.take(m as int)),
                        b,
                    ),
            decreases tree.modules.len() - m,
        {
            let module = &tree.modules[m];
            let ghost done = spec_entries(tree.modules@.take(m as int));
            proof {
                assert(tree.modules@.take(m + 1).drop_last() =~= tree.modules@.take(m as int));
                assert(spec_entries(tree.modules@.take(m + 1)) == done + spec_module_entries(
                    *module,
                ));
            }
            let mut i: usize = 0;
            while i < module.items.len()
                invariant
                    m < tree.modules.len(),
                    module == &tree.modules[m as int],
                    done == spec_entries(tree.modules@.take(m as int)),
                    i <= module.items.len(),
                    spec_first_error(done + spec_module_entries(*module).take(i as int)) is None,
                    forall|b: Bucket| #[trigger]
                        marked.bucket(b) == spec_bucket_entries(
                            done + spec_module_entries(*module).take(i as int),
                            b,
                        ),
                decreases module.items.len() - i,
            {
                let ghost before = done + spec_module_entries(*module).take(i as int);
                let ghost after = done + spec_module_entries(*module).take(i + 1);
                proof {
                    assert(after.drop_last() =~= before);
                    assert(after.last() == (module.path, module.items@[i as int]));
                }
                let ghost old_marked = marked;
                match marked.push(&module.path, &module.items[i]) {
                    Ok(()) => {},
                    Err(error) => {
                        proof {
                            lemma_entries_prefix(tree.modules@, m as int, i as int + 1);
                            lemma_first_error_extends(
                                spec_entries(tree.modules@),
                                after,
                            );
                        }
                        return Err(error);
                    },
                }
                proof {
                    assert forall|b: Bucket| #[trigger]
                        marked.bucket(b) == spec_bucket_entries(after, b) by {
                        assert(old_marked.bucket(b) == spec_bucket_entries(before, b));
                    }
                }
                i = i + 1;
            }
            proof {
                assert(spec_module_entries(*module).take(module.items.len() as int)
                    =~= spec_module_entries(*module));
            }
            m = m + 1;
        }
        proof {
            assert(tree.modules@.take(tree.modules.len() as int) =~= tree.modules@);
            assert forall|b: Bucket| #[trigger] entries_fit(marked.bucket(b), b) by {
                lemma_bucket_entries_fit(spec_entries(tree.modules@), b);
            }
        }
        Ok(marked)
    }

    fn empty() -> (marked: Self)
        ensures
            forall|b: Bucket| #[trigger] marked.bucket(b) == Seq::<(ModulePath, Marker, SynItem)>::empty(),
    {
        let marked = MarkedItems {
            records: Vec::new(),
            enums: Vec::new(),
            functions: Vec::new(),
            traits: Vec::new(),
            classes: Vec::new(),
            constants: Vec::new(),
            impls: Vec::new(),
        };
        proof {
            assert forall|b: Bucket| #[trigger]
                marked.bucket(b) == Seq::<(ModulePath, Marker, SynItem)>::empty() by {
                assert(marked_views(Seq::<Marked<'source>>::empty()) =~= Seq::empty());
            }
        }
        marked
    }

    pub fn records(&self) -> (records: &[Marked<'source>])
        ensures
            marked_views(records@) == self.bucket(Bucket::Records),
    {
        self.records.as_slice()
    }

    pub fn enums(&self) -> (enums: &[Marked<'source>])
        ensures
            marked_views(enums@) == self.bucket(Bucket::Enums),
    {
        self.enums.as_slice()
    }

    pub fn functions(&self) -> (functions: &[Marked<'source>])
        ensures
            marked_views(functions@) == self.bucket(Bucket::Functions),
    {
        self.functions.as_slice()
    }

    pub fn traits(&self) -> (traits: &[Marked<'source>])
        ensures
            marked_views(traits@) == self.bucket(Bucket::Traits),
    {
        self.traits.as_slice()
    }

    pub fn classes(&self) -> (classes: &[Marked<'source>])
        ensures
            marked_views(classes@) == self.bucket(Bucket::Classes),
    {
        self.classes.as_slice()
    }

    pub fn constants(&self) -> (constants: &[Marked<'source>])
        ensures
            marked_views(constants@) == self.bucket(Bucket::Constants),
    {
        self.constants.as_slice()
    }

    pub fn impls(&self) -> (impls: &[Marked<'source>])
        ensures
            marked_views(impls@) == self.bucket(Bucket::Impls),
    {
        self.impls.as_slice()
    }

    /// Files one item under the bucket its marker puts it in.
    fn push(&mut self, module: &'source ModulePath, item: &'source SynItem) -> (res: Result<
        (),
        ScanError,
    >)
        ensures
            match spec_entry(*item) {
                Err(error) => res matches Err(e) && e@ == error && *final(self) == *old(self),
                Ok(None) => res is Ok && forall|b: Bucket| #[trigger]
                    final(self).bucket(b) == old(self).bucket(b),
                Ok(Some((marker, bucket))) => res is Ok && forall|b: Bucket| #[trigger]
                    final(self).bucket(b) == if b == bucket {
                        old(self).bucket(b).push((*module, marker, *item))
                    } else {
                        old(self).bucket(b)
                    },
            },
    {
        let marker = match Marker::detect(&item.attrs) {
            Ok(Some(marker)) => marker,
            Ok(None) => return Ok(()),
            Err(error) => return Err(error),
        };
        let entry = Marked::new(module, marker, item);
        let ghost pushed = entry.view();
        match (marker, &item.kind) {
            (Marker::Data, ItemKind::Struct(_)) | (Marker::Error, ItemKind::Struct(_)) => {
                self.records.push(entry);
                proof { lemma_push_view(old(self).records@, entry); }
            },
            (Marker::Data, ItemKind::Enum) | (Marker::Error, ItemKind::Enum) => {
                self.enums.push(entry);
                proof { lemma_push_view(old(self).enums@, entry); }
            },
            (Marker::DataImpl, ItemKind::Impl(_)) => {
                self.impls.push(entry);
                proof { lemma_push_view(old(self).impls@, entry); }
            },
            (Marker::Export, ItemKind::Fn) => {
                self.functions.push(entry);
                proof { lemma_push_view(old(self).functions@, entry); }
            },
            (Marker::Export, ItemKind::Trait) => {
                self.traits.push(entry);
                proof { lemma_push_view(old(self).traits@, entry); }
            },
            (Marker::Export, ItemKind::Impl(_)) => {
                self.classes.push(entry);
                proof { lemma_push_view(old(self).classes@, entry); }
            },
            (Marker::Export, ItemKind::Const) => {
                self.constants.push(entry);
                proof { lemma_push_view(old(self).constants@, entry); }
            },
            _ => {
                return Err(
                    ScanError::InvalidMarkerPlacement {
                        marker: marker.as_str().to_owned(),
                        item: item_kind(item).to_owned(),
                    },
                );
            },
        }
        Ok(())
    }
}

proof fn lemma_push_view<'a>(marked: Seq<Marked<'a>>, entry: Marked<'a>)
    ensures
        marked_views(marked.push(entry)) == marked_views(marked).push(entry.view()),
{
    assert(marked_views(marked.push(entry)) =~= marked_views(marked).push(entry.view()));
}

/// The entries of a tree's first `m` modules and the first `i` items of
/// the next one are a prefix of all its entries.
proof fn lemma_entries_prefix(modules: Seq<SourceModule>, m: int, i: int)
    requires
        0 <= m < modules.len(),
        0 <= i <= modules[m].items.len(),
    ensures
        spec_entries(modules.take(m)).len() + i <= spec_entries(modules).len(),
        spec_entries(modules).take(
            spec_entries(modules.take(m)).len() + i,
        ) == spec_entries(modules.take(m)) + spec_module_entries(modules[m]).take(i),
{
    let done = spec_entries(modules.take(m));
    let next = spec_entries(modules.take(m + 1));
    assert(modules.take(m + 1).drop_last() =~= modules.take(m));
    assert(modules.take(m + 1).last() == modules[m]);
    assert(next == done + spec_module_entries(modules[m]));
    lemma_entries_take(modules, m + 1);
    let all = spec_entries(modules);
    let len = done.len() + i;
    assert(spec_module_entries(modules[m]).len() == modules[m].items.len());
    assert(all.take(len) =~= next.take(len));
    assert(next.take(len) =~= done + spec_module_entries(modules[m]).take(i));
}

/// The entries of a tree's first `k` modules are a prefix of all its
/// entries.
proof fn lemma_entries_take(modules: Seq<SourceModule>, k: int)
    requires
        0 <= k <= modules.len(),
    ensures
        spec_entries(modules.take(k)).len() <= spec_entries(modules).len(),
        spec_entries(modules).take(spec_entries(modules.take(k)).len() as int) == spec_entries(
            modules.take(k),
        ),
    decreases modules.len(),
{
    if k == modules.len() {
        assert(modules.take(k) =~= modules);
        assert(spec_entries(modules).take(spec_entries(modules).len() as int) =~= spec_entries(
            modules,
        ));
    } else {
        let rest = modules.drop_last();
        assert(rest.take(k) =~= modules.take(k));
        lemma_entries_take(rest, k);
        let part = spec_entries(modules.take(k));
        assert(spec_entries(modules) == spec_entries(rest) + spec_module_entries(modules.last()));
        assert(spec_entries(modules).take(part.len() as int) =~= spec_entries(rest).take(
            part.len() as int,
        ));
    }
}

/// Once a prefix of the entries meets an error, the whole sequence meets
/// the same first error.
proof fn lemma_first_error_extends(
    entries: Seq<(ModulePath, SynItem)>,
    prefix: Seq<(ModulePath, SynItem)>,
)
    requires
        prefix.len() <= entries.len(),
        entries.take(prefix.len() as int) == prefix,
        spec_first_error(prefix) is Some,
    ensures
        spec_first_error(entries) == spec_first_error(prefix),
    decreases entries.len(),
{
    if entries.len() == prefix.len() {
        assert(entries =~= prefix);
    } else {
        assert(entries.drop_last().take(prefix.len() as int) =~= prefix);
        lemma_first_error_extends(entries.drop_last(), prefix);
    }
}

/// The name an item's kind is reported with.
fn item_kind(item: &SynItem) -> (kind: &'static str)
    ensures
        kind@ == spec_item_kind(item.kind),
{
    proof {
        reveal_strlit("const");
        reveal_strlit("enum");
        reveal_strlit("extern crate");
        reveal_strlit("function");
        reveal_strlit("foreign mod");
        reveal_strlit("impl");
        reveal_strlit("macro");
        reveal_strlit("module");
        reveal_strlit("static");
        reveal_strlit("struct");
        reveal_strlit("trait");
        reveal_strlit("trait alias");
        reveal_strlit("type alias");
        reveal_strlit("union");
        reveal_strlit("use");
        reveal_strlit("item");
    }
    match &item.kind {
        ItemKind::Const => "const",
        ItemKind::Enum => "enum",
        ItemKind::ExternCrate => "extern crate",
        ItemKind::Fn => "function",
        ItemKind::ForeignMod => "foreign mod",
        ItemKind::Impl(_) => "impl",
        ItemKind::Macro => "macro",
        ItemKind::Mod(_) => "module",
        ItemKind::Static => "static",
        ItemKind::Struct(_) => "struct",
        ItemKind::Trait => "trait",
        ItemKind::TraitAlias => "trait alias",
        ItemKind::Type => "type alias",
        ItemKind::Union => "union",
        ItemKind::Use => "use",
        ItemKind::Verbatim => "item",
    }
}

} // verus!
