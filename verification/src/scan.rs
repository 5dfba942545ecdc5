//! Scanning a whole source tree: marking, indexing the declared types, then
//! scanning the classes and the records against that index, and checking
//! the `data(impl)` blocks.
use vstd::prelude::*;

use crate::class::{self, ClassDef, ClassView, class_views, entries_of, spec_scan_classes};
use crate::declared_types::{
    DeclaredKind, DeclaredTypes, spec_class_candidates, spec_named_candidates, spec_register_from,
    Candidate,
};
use crate::error::{ScanError, ScanErrorView};
use crate::marked::{
    Bucket, Marked, MarkedItems, SourceTree, entries_fit, marked_views, spec_bucket_entries,
    spec_entries, spec_first_error,
};
use crate::marker::Marker;
use crate::module_tree::{inline_modules, module_views};
use crate::parse::parsed_items;
use crate::path::{ModulePath, spec_qualified};
use crate::record::{self, RecordDef, fields_scan_as, first_field_error};
use crate::impl_items::{self, spec_scan};
use crate::impl_target::{spec_path_target_resolve, spec_target_path, Target};
use crate::spelling::spell_type;
use crate::syntax::{SynFields, SynItem, ItemKind};
use crate::visibility::scans_as;

verus! {

/// What a scan reads from a tree: the declared types, the records, the
/// classes, and the methods attached to records and enums.
pub struct Scanned {
    pub declared_types: DeclaredTypes,
    pub records: Vec<RecordDef>,
    pub classes: Vec<ClassDef>,
    /// The methods each `data(impl)` block attaches, in source order.
    pub impl_methods: Vec<ImplMethods>,
}

/// The marked entries of a tree in one bucket.
pub open spec fn bucket_of(tree: SourceTree, bucket: Bucket) -> Seq<(ModulePath, Marker, SynItem)> {
    spec_bucket_entries(spec_entries(tree.modules@), bucket)
}

/// The declarations a tree makes: records, enums, traits, then classes.
pub open spec fn tree_candidates(tree: SourceTree) -> Seq<Candidate> {
    spec_named_candidates(DeclaredKind::Record, bucket_of(tree, Bucket::Records))
        + spec_named_candidates(DeclaredKind::Enum, bucket_of(tree, Bucket::Enums))
        + spec_named_candidates(DeclaredKind::Trait, bucket_of(tree, Bucket::Traits))
        + spec_class_candidates(bucket_of(tree, Bucket::Classes))
}

/// Why a marked struct cannot be scanned as a record, if it cannot: its
/// field types are resolved against `declared` from the struct's module.
pub open spec fn record_error(declared: Map<Seq<char>, DeclaredKind>, entry: (ModulePath, Marker, SynItem)) -> Option<ScanErrorView> {
    match entry.2.kind {
        ItemKind::Struct(SynFields::Named(written)) => first_field_error((declared, entry.0@), written@),
        _ => Some(ScanErrorView::TupleOrUnitStruct),
    }
}

/// The first marked struct, in order, that cannot be scanned.
pub open spec fn first_record_error(declared: Map<Seq<char>, DeclaredKind>, entries: Seq<(ModulePath, Marker, SynItem)>) -> Option<ScanErrorView>
    decreases entries.len(),
{
    if entries.len() == 0 {
        None
    } else {
        match first_record_error(declared, entries.drop_last()) {
            Some(error) => Some(error),
            None => record_error(declared, entries.last()),
        }
    }
}

/// Whether `record` is what the marked struct `entry` scans as.
pub open spec fn record_scans_as(declared: Map<Seq<char>, DeclaredKind>, entry: (ModulePath, Marker, SynItem), record: RecordDef) -> bool {
    &&& record.id.0@ == spec_qualified(entry.0@, entry.2.ident@)
    &&& scans_as(entry.2.vis, record.source.visibility)
    &&& record.source.span is None
    &&& entry.2.kind matches ItemKind::Struct(SynFields::Named(written)) && fields_scan_as(
        (declared, entry.0@),
        written@,
        record.fields@,
    )
}

/// Whether `records` are what the marked structs `entries` scan as, one
/// for one and in order.
pub open spec fn records_scan_as(declared: Map<Seq<char>, DeclaredKind>, entries: Seq<(ModulePath, Marker, SynItem)>, records: Seq<RecordDef>) -> bool {
    &&& entries.len() == records.len()
    &&& forall|i: int| 0 <= i < entries.len() ==> record_scans_as(declared, #[trigger] entries[i], records[i])
}

/// The methods a `data(impl)` block attaches to the record or enum it is
/// written for.
pub struct ImplMethods {
    /// The fully qualified path of the record or enum.
    pub target: String,
    /// The names of the block's exported methods, in source order.
    pub methods: Vec<String>,
}

/// What an [`ImplMethods`] holds.
pub open spec fn impl_view(attached: ImplMethods) -> (Seq<char>, Seq<Seq<char>>) {
    (attached.target@, attached.methods@.map_values(|method: String| method@))
}

/// The views of a list of attached method lists.
pub open spec fn impl_views(attached: Seq<ImplMethods>) -> Seq<(Seq<char>, Seq<Seq<char>>)> {
    attached.map_values(|a: ImplMethods| impl_view(a))
}

/// What a `data(impl)` block attaches: its target, resolved from the
/// block's module, must be a declared record or enum, and its items are
/// decided as the methods of that target.
pub open spec fn impl_outcome(declared: Map<Seq<char>, DeclaredKind>, entry: (ModulePath, Marker, SynItem)) -> Result<(Seq<char>, Seq<Seq<char>>), ScanErrorView> {
    match entry.2.kind {
        ItemKind::Impl(item) => {
            let refused = ScanErrorView::UnsupportedMarkedImpl { target: spell_type(item.self_ty) };
            match spec_path_target_resolve(spec_target_path(item), entry.0@) {
                Some(path) => if declared.contains_key(path) && (declared[path] == DeclaredKind::Record
                    || declared[path] == DeclaredKind::Enum) {
                    match spec_scan(item.items@, path) {
                        Ok(names) => Ok((path, names)),
                        Err(error) => Err(error),
                    }
                } else {
                    Err(refused)
                },
                None => Err(refused),
            }
        },
        _ => Err(ScanErrorView::UnsupportedMarkedImpl { target: Seq::empty() }),
    }
}

/// What the `data(impl)` blocks attach, in order; the first refused block
/// stops the scan.
pub open spec fn spec_scan_impls(declared: Map<Seq<char>, DeclaredKind>, entries: Seq<(ModulePath, Marker, SynItem)>) -> Result<Seq<(Seq<char>, Seq<Seq<char>>)>, ScanErrorView>
    decreases entries.len(),
{
    if entries.len() == 0 {
        Ok(Seq::empty())
    } else {
        match spec_scan_impls(declared, entries.drop_last()) {
            Err(error) => Err(error),
            Ok(attached) => match impl_outcome(declared, entries.last()) {
                Err(error) => Err(error),
                Ok(one) => Ok(attached.push(one)),
            },
        }
    }
}

/// The error that stops the scan of `tree`, if any: marking first, then
/// indexing, then the classes, the records and the `data(impl)` blocks.
/// Types are resolved against the index, so a reference finds its
/// declaration wherever in the tree that declaration stands.
pub open spec fn scan_error(tree: SourceTree) -> Option<ScanErrorView> {
    let entries = spec_entries(tree.modules@);
    match spec_first_error(entries) {
        Some(error) => Some(error),
        None => match spec_register_from(Map::empty(), tree_candidates(tree)) {
            Err(error) => Some(error),
            Ok(declared) => match spec_scan_classes(class_entries(tree)) {
                Err(error) => Some(error),
                Ok(_) => match first_record_error(declared, bucket_of(tree, Bucket::Records)) {
                    Some(error) => Some(error),
                    None => match spec_scan_impls(declared, bucket_of(tree, Bucket::Impls)) {
                        Err(error) => Some(error),
                        Ok(_) => None,
                    },
                },
            },
        },
    }
}

/// The module and item of each exported impl block of a tree.
pub open spec fn class_entries(tree: SourceTree) -> Seq<(ModulePath, SynItem)> {
    bucket_of(tree, Bucket::Classes).map_values(|e: (ModulePath, Marker, SynItem)| (e.0, e.2))
}

/// Whether `scanned` is what a scan of `tree` gives when nothing stops it.
pub open spec fn scanned_as(tree: SourceTree, scanned: Scanned) -> bool {
    &&& spec_register_from(Map::empty(), tree_candidates(tree)) == Ok::<
        Map<Seq<char>, DeclaredKind>,
        ScanErrorView,
    >(scanned.declared_types@)
    &&& records_scan_as(scanned.declared_types@, bucket_of(tree, Bucket::Records), scanned.records@)
    &&& spec_scan_classes(class_entries(tree)) == Ok::<Seq<ClassView>, ScanErrorView>(
        class_views(scanned.classes@),
    )
    &&& spec_scan_impls(scanned.declared_types@, bucket_of(tree, Bucket::Impls)) == Ok::<
        Seq<(Seq<char>, Seq<Seq<char>>)>,
        ScanErrorView,
    >(impl_views(scanned.impl_methods@))
}

/// Scans every marked struct as a record, in order; the first struct that
/// cannot be scanned stops the scan.
fn scan_records<'a>(marked: &[Marked<'a>], declared: &DeclaredTypes) -> (records: Result<Vec<RecordDef>, ScanError>)
    ensures
        match records {
            Ok(records) => first_record_error(declared@, marked_views(marked@)) is None && records_scan_as(
                declared@,
                marked_views(marked@),
                records@,
            ),
            Err(error) => first_record_error(declared@, marked_views(marked@)) == Some(error@),
        },
{
    let ghost entries = marked_views(marked@);
    let mut records: Vec<RecordDef> = Vec::new();
    let mut i: usize = 0;
    while i < marked.len()
        invariant
            i <= marked.len(),
            entries == marked_views(marked@),
            entries.len() == marked@.len(),
            first_record_error(declared@, entries.take(i as int)) is None,
            records_scan_as(declared@, entries.take(i as int), records@),
        decreases marked.len() - i,
    {
        proof {
            assert(entries.take(i + 1).drop_last() =~= entries.take(i as int));
            assert(entries.take(i + 1).last() == entries[i as int]);
            assert(entries[i as int] == marked@[i as int].view());
        }
        let entry = &marked[i];
        let item = entry.item();
        let scanned = match &item.kind {
            ItemKind::Struct(fields) => record::scan_struct(
                item.ident.as_str(),
                &item.vis,
                fields,
                entry.module(),
                declared,
            ),
            _ => Err(ScanError::TupleOrUnitStruct),
        };
        match scanned {
            Ok(scanned) => {
                records.push(scanned);
                proof {
                    let taken = entries.take(i + 1);
                    assert forall|j: int| 0 <= j < taken.len() implies record_scans_as(
                        declared@,
                        #[trigger] taken[j],
                        records@[j],
                    ) by {
                        if j < i {
                            assert(taken[j] == entries.take(i as int)[j]);
                        }
                    }
                }
            },
            Err(error) => {
                proof {
                    lemma_record_error_sticks(declared@, entries, i + 1);
                }
                return Err(error);
            },
        }
        i = i + 1;
    }
    proof {
        assert(entries.take(marked.len() as int) =~= entries);
    }
    Ok(records)
}

proof fn lemma_record_error_sticks(declared: Map<Seq<char>, DeclaredKind>, entries: Seq<(ModulePath, Marker, SynItem)>, n: int)
    requires
        0 <= n <= entries.len(),
        first_record_error(declared, entries.take(n)) is Some,
    ensures
        first_record_error(declared, entries) == first_record_error(declared, entries.take(n)),
    decreases entries.len() - n,
{
    if n < entries.len() {
        assert(entries.take(n + 1).drop_last() =~= entries.take(n));
        lemma_record_error_sticks(declared, entries, n + 1);
    } else {
        assert(entries.take(n) =~= entries);
    }
}

/// Attaches the methods of each `data(impl)` block in order; the first
/// block whose target is not a declared record or enum, or whose items are
/// refused, stops the scan.
fn scan_impls<'a>(marked: &[Marked<'a>], declared: &DeclaredTypes) -> (attached: Result<Vec<ImplMethods>, ScanError>)
    ensures
        match spec_scan_impls(declared@, marked_views(marked@)) {
            Ok(expected) => attached matches Ok(a) && impl_views(a@) == expected,
            Err(error) => attached matches Err(e) && e@ == error,
        },
{
    let ghost entries = marked_views(marked@);
    let mut attached: Vec<ImplMethods> = Vec::new();
    let mut i: usize = 0;
    proof {
        assert(entries.take(0) =~= Seq::<(ModulePath, Marker, SynItem)>::empty());
        assert(impl_views(attached@) =~= Seq::<(Seq<char>, Seq<Seq<char>>)>::empty());
    }
    while i < marked.len()
        invariant
            i <= marked.len(),
            entries == marked_views(marked@),
            entries.len() == marked@.len(),
            spec_scan_impls(declared@, entries.take(i as int)) == Ok::<
                Seq<(Seq<char>, Seq<Seq<char>>)>,
                ScanErrorView,
            >(impl_views(attached@)),
        decreases marked.len() - i,
    {
        proof {
            assert(entries.take(i + 1).drop_last() =~= entries.take(i as int));
            assert(entries.take(i + 1).last() == entries[i as int]);
            assert(entries[i as int] == marked@[i as int].view());
        }
        let entry = &marked[i];
        let item = entry.item();
        let outcome: Result<ImplMethods, ScanError> = match &item.kind {
            ItemKind::Impl(block) => {
                let target = Target::scan(block);
                let resolved = match target.resolve(entry.module()) {
                    Some(path) => {
                        let fits = match declared.resolve(path.as_str()) {
                            Some(found) => matches!(found.kind(), DeclaredKind::Record | DeclaredKind::Enum),
                            None => false,
                        };
                        if fits {
                            Some(path)
                        } else {
                            None
                        }
                    },
                    None => None,
                };
                match resolved {
                    Some(path) => match impl_items::scan(block, path.as_str()) {
                        Ok(methods) => Ok(ImplMethods { target: path, methods }),
                        Err(error) => Err(error),
                    },
                    None => Err(ScanError::UnsupportedMarkedImpl { target: target.spelling().to_owned() }),
                }
            },
            _ => Err(ScanError::UnsupportedMarkedImpl { target: String::new() }),
        };
        match outcome {
            Ok(one) => {
                let ghost before = attached@;
                attached.push(one);
                proof {
                    assert(impl_views(attached@) =~= impl_views(before).push(impl_view(one)));
                }
            },
            Err(error) => {
                proof {
                    lemma_impls_stop(declared@, entries, i + 1);
                }
                return Err(error);
            },
        }
        i = i + 1;
    }
    proof {
        assert(entries.take(marked.len() as int) =~= entries);
    }
    Ok(attached)
}

proof fn lemma_impls_stop(declared: Map<Seq<char>, DeclaredKind>, entries: Seq<(ModulePath, Marker, SynItem)>, n: int)
    requires
        0 <= n <= entries.len(),
        spec_scan_impls(declared, entries.take(n)) is Err,
    ensures
        spec_scan_impls(declared, entries) == spec_scan_impls(declared, entries.take(n)),
    decreases entries.len() - n,
{
    if n < entries.len() {
        assert(entries.take(n + 1).drop_last() =~= entries.take(n));
        lemma_impls_stop(declared, entries, n + 1);
    } else {
        assert(entries.take(n) =~= entries);
    }
}

/// Scans a source tree: sorts its marked items, indexes the declared
/// types, then scans the classes and the records, resolving field types
/// against the index, and checks the `data(impl)` blocks. The first error,
/// in that order, stops the scan.
pub fn scan_tree(tree: &SourceTree) -> (scanned: Result<Scanned, ScanError>)
    ensures
        match scanned {
            Ok(scanned) => scan_error(*tree) is None && scanned_as(*tree, scanned),
            Err(error) => scan_error(*tree) == Some(error@),
        },
{
    let marked = match MarkedItems::collect(tree) {
        Ok(marked) => marked,
        Err(error) => return Err(error),
    };
    proof {
        assert(spec_candidates_eq(marked, *tree));
    }
    let declared_types = match DeclaredTypes::index(&marked) {
        Ok(declared) => declared,
        Err(error) => return Err(error),
    };
    let blocks = marked.classes();
    proof {
        assert(entries_fit(marked.bucket(Bucket::Classes), Bucket::Classes));
        assert forall|i: int| 0 <= i < blocks@.len() implies (#[trigger] blocks@[i]).view().2.kind is Impl by {
            assert(marked_views(blocks@)[i] == blocks@[i].view());
        }
        assert(entries_of(blocks@) =~= class_entries(*tree));
    }
    let classes = match class::scan(blocks) {
        Ok(classes) => classes,
        Err(error) => return Err(error),
    };
    let records = match scan_records(marked.records(), &declared_types) {
        Ok(records) => records,
        Err(error) => return Err(error),
    };
    let impl_methods = match scan_impls(marked.impls(), &declared_types) {
        Ok(attached) => attached,
        Err(error) => return Err(error),
    };
    Ok(Scanned { declared_types, records, classes, impl_methods })
}

/// After marking, the declarations of the marked items are the tree's.
spec fn spec_candidates_eq(marked: MarkedItems, tree: SourceTree) -> bool {
    crate::declared_types::spec_candidates(marked) == tree_candidates(tree)
}

/// Why a source text could not be scanned.
#[derive(Debug, Eq, PartialEq)]
pub enum TextScanError {
    /// The text is not a Rust file; the parser's message.
    Parse(String),
    /// The scan of the parsed tree stopped.
    Scan(ScanError),
}

/// Parses `text` as the single file of the crate `crate_name`, builds its
/// module tree, and scans it. A text that does not parse is answered with
/// the parser's message; otherwise the result is the scan of a tree whose
/// modules are the inline modules of the parsed items.
pub fn scan_text(text: &str, crate_name: &str) -> (scanned: Result<Scanned, TextScanError>)
    ensures
        match parsed_items(text@) {
            Err(message) => scanned matches Err(TextScanError::Parse(m)) && m@ == message,
            Ok(items) => exists|tree: SourceTree|
                #[trigger] module_views(tree.modules@) == inline_modules(seq![crate_name@], items)
                    && match scanned {
                    Ok(scanned) => scan_error(tree) is None && scanned_as(tree, scanned),
                    Err(TextScanError::Scan(error)) => scan_error(tree) == Some(error@),
                    Err(TextScanError::Parse(_)) => false,
                },
        },
{
    let tree = match SourceTree::parse(crate_name, text) {
        Ok(tree) => tree,
        Err(message) => return Err(TextScanError::Parse(message)),
    };
    let result = scan_tree(&tree);
    match result {
        Ok(scanned) => Ok(scanned),
        Err(error) => Err(TextScanError::Scan(error)),
    }
}

/// Scans a file that `syn` has already parsed, as the single file of the
/// crate `crate_name`: the scan of a tree whose modules are the inline
/// modules of the file's items.
pub fn scan_file(file: &syn::File, crate_name: &str) -> (scanned: Result<Scanned, ScanError>)
    ensures
        exists|tree: SourceTree, items: Seq<SynItem>|
            #![trigger module_views(tree.modules@), inline_modules(seq![crate_name@], items)]
            module_views(tree.modules@) == inline_modules(seq![crate_name@], items) && match scanned {
                Ok(scanned) => scan_error(tree) is None && scanned_as(tree, scanned),
                Err(error) => scan_error(tree) == Some(error@),
            },
{
    let items = crate::parse::file_items(file);
    let ghost written = items@;
    let tree = SourceTree::inline(crate_name, items);
    let result = scan_tree(&tree);
    proof {
        assert(module_views(tree.modules@) == inline_modules(seq![crate_name@], written));
    }
    result
}

} // verus!
