//! Records: structs with named fields whose types the contract can carry.
use vstd::prelude::*;

use crate::ast::{RecordId, Source, TypeExpr, TypeView, type_view};
use crate::error::{ScanError, ScanErrorView};
use crate::path::{ModulePath, spec_qualified};
use crate::registry::TypeRegistry;
use crate::syntax::{Field, SynFields, SynItem, SynItemImpl, ItemKind, SynType, SynVisibility};
use crate::declared_types::DeclaredTypes;
use crate::type_expr::{spec_scan, Scanner, Scope};
use crate::visibility::{self, scans_as};

verus! {

/// A field of a record: its name, its type and where it is visible.
pub struct FieldDef {
    pub ident: String,
    pub type_expr: TypeExpr,
    pub source: Source,
}

/// A scanned record: its id, where it is visible, and its fields in order.
pub struct RecordDef {
    pub id: RecordId,
    pub source: Source,
    pub fields: Vec<FieldDef>,
}

/// Whether `field` is what the source field `written` scans as.
pub open spec fn field_scans_as(scope: Scope, written: Field, field: FieldDef) -> bool {
    &&& written.ident matches Some(ident) && field.ident@ == ident@
    &&& spec_scan(scope, written.ty, written.ty) == Ok::<TypeView, ScanErrorView>(type_view(field.type_expr))
    &&& scans_as(written.vis, field.source.visibility)
    &&& field.source.span is None
}

/// The error a source field is rejected with, if any: a field without a
/// name, or a type the contract cannot carry.
pub open spec fn field_error(scope: Scope, written: Field) -> Option<ScanErrorView> {
    if written.ident is None {
        Some(ScanErrorView::TupleOrUnitStruct)
    } else {
        match spec_scan(scope, written.ty, written.ty) {
            Err(error) => Some(error),
            Ok(_) => None,
        }
    }
}

/// The first rejected field among `fields`, in order.
pub open spec fn first_field_error(scope: Scope, fields: Seq<Field>) -> Option<ScanErrorView>
    decreases fields.len(),
{
    if fields.len() == 0 {
        None
    } else {
        match first_field_error(scope, fields.drop_last()) {
            Some(error) => Some(error),
            None => field_error(scope, fields.last()),
        }
    }
}

/// Whether `scanned` is what the named fields `written` scan as.
pub open spec fn fields_scan_as(scope: Scope, written: Seq<Field>, scanned: Seq<FieldDef>) -> bool {
    &&& written.len() == scanned.len()
    &&& forall|i: int| 0 <= i < written.len() ==> field_scans_as(scope, #[trigger] written[i], scanned[i])
}

/// Scans one named field, resolving its type from the scanner's module.
pub fn record_field(field: &Field, scanner: &Scanner) -> (scanned: Result<FieldDef, ScanError>)
    ensures
        match scanned {
            Ok(scanned) => field_error(scanner.scope(), *field) is None && field_scans_as(
                scanner.scope(),
                *field,
                scanned,
            ),
            Err(error) => field_error(scanner.scope(), *field) == Some(error@),
        },
{
    let ident = match &field.ident {
        Some(ident) => ident.clone(),
        None => return Err(ScanError::TupleOrUnitStruct),
    };
    let type_expr = match scanner.scan(&field.ty) {
        Ok(type_expr) => type_expr,
        Err(error) => return Err(error),
    };
    Ok(FieldDef { ident, type_expr, source: visibility::scan(&field.vis) })
}

/// Scans the fields of a struct: only named fields make a record, and the
/// first field that cannot be scanned rejects them all.
pub fn record_fields(fields: &SynFields, scanner: &Scanner) -> (scanned: Result<Vec<FieldDef>, ScanError>)
    ensures
        match *fields {
            SynFields::Named(written) => match scanned {
                Ok(scanned) => first_field_error(scanner.scope(), written@) is None && fields_scan_as(
                    scanner.scope(),
                    written@,
                    scanned@,
                ),
                Err(error) => first_field_error(scanner.scope(), written@) == Some(error@),
            },
            _ => scanned matches Err(error) && error@ == ScanErrorView::TupleOrUnitStruct,
        },
{
    let written = match fields {
        SynFields::Named(written) => written,
        _ => return Err(ScanError::TupleOrUnitStruct),
    };
    let mut scanned: Vec<FieldDef> = Vec::new();
    let mut i: usize = 0;
    while i < written.len()
        invariant
            i <= written.len(),
            *fields matches SynFields::Named(w) && w@ == written@,
            first_field_error(scanner.scope(), written@.take(i as int)) is None,
            fields_scan_as(scanner.scope(), written@.take(i as int), scanned@),
        decreases written.len() - i,
    {
        proof {
            assert(written@.take(i + 1).drop_last() =~= written@.take(i as int));
            assert(written@.take(i + 1).last() == written@[i as int]);
        }
        match record_field(&written[i], scanner) {
            Ok(field) => {
                scanned.push(field);
                proof {
                    let taken = written@.take(i + 1);
                    assert forall|j: int| 0 <= j < taken.len() implies field_scans_as(
                        scanner.scope(),
                        #[trigger] taken[j],
                        scanned@[j],
                    ) by {
                        if j < i {
                            assert(taken[j] == written@.take(i as int)[j]);
                        }
                    }
                }
            },
            Err(error) => {
                proof {
                    lemma_field_error_sticks(scanner.scope(), written@, i + 1);
                }
                return Err(error);
            },
        }
        i = i + 1;
    }
    proof {
        assert(written@.take(written.len() as int) =~= written@);
    }
    Ok(scanned)
}

/// Once a prefix of the fields holds an error, the first error of every
/// longer prefix is that one.
proof fn lemma_field_error_sticks(scope: Scope, fields: Seq<Field>, n: int)
    requires
        0 <= n <= fields.len(),
        first_field_error(scope, fields.take(n)) is Some,
    ensures
        first_field_error(scope, fields) == first_field_error(scope, fields.take(n)),
    decreases fields.len() - n,
{
    if n < fields.len() {
        assert(fields.take(n + 1).drop_last() =~= fields.take(n));
        lemma_field_error_sticks(scope, fields, n + 1);
    } else {
        assert(fields.take(n) =~= fields);
    }
}

/// Scans a struct of `module` as a record, its field types resolved
/// against the crate's `declared` types from that module.
pub fn scan_struct(
    ident: &str,
    vis: &SynVisibility,
    fields: &SynFields,
    module: &ModulePath,
    declared: &DeclaredTypes,
) -> (record: Result<RecordDef, ScanError>)
    ensures
        match record {
            Ok(record) => record.id.0@ == spec_qualified(module@, ident@) && scans_as(
                *vis,
                record.source.visibility,
            ) && record.source.span is None && (*fields matches SynFields::Named(written)
                && first_field_error((declared@, module@), written@) is None && fields_scan_as(
                (declared@, module@),
                written@,
                record.fields@,
            )),
            Err(error) => match *fields {
                SynFields::Named(written) => first_field_error((declared@, module@), written@) == Some(
                    error@,
                ),
                _ => error@ == ScanErrorView::TupleOrUnitStruct,
            },
        },
{
    let id = RecordId(module.qualified(ident));
    let source = visibility::scan(vis);
    let scanner = Scanner { declared, module };
    match record_fields(fields, &scanner) {
        Ok(fields) => Ok(RecordDef { id, source, fields }),
        Err(error) => Err(error),
    }
}

/// The structs of `items` in order, each as the leaf name a reference
/// writes and the record id it resolves to.
pub open spec fn struct_entries(items: Seq<SynItem>, module: Seq<Seq<char>>) -> Seq<(Seq<char>, Seq<char>)>
    decreases items.len(),
{
    if items.len() == 0 {
        Seq::empty()
    } else {
        let before = struct_entries(items.drop_last(), module);
        match items.last().kind {
            ItemKind::Struct(_) => before.push(
                (items.last().ident@, spec_qualified(module, items.last().ident@)),
            ),
            _ => before,
        }
    }
}

/// The registry that registering `entries` in order builds.
pub open spec fn registered(entries: Seq<(Seq<char>, Seq<char>)>) -> Map<Seq<char>, Seq<char>>
    decreases entries.len(),
{
    if entries.len() == 0 {
        Map::empty()
    } else {
        registered(entries.drop_last()).insert(entries.last().0, entries.last().1)
    }
}

/// Every struct is registered before any reference is resolved, whatever
/// its place among the items: its name resolves to its record unless a
/// later struct takes the same name.
pub proof fn lemma_struct_registered(items: Seq<SynItem>, module: Seq<Seq<char>>, k: int)
    requires
        0 <= k < items.len(),
        items[k].kind is Struct,
        forall|j: int|
            k < j < items.len() && (#[trigger] items[j]).kind is Struct ==> items[j].ident@
                != items[k].ident@,
    ensures
        registered(struct_entries(items, module)).contains_key(items[k].ident@),
        registered(struct_entries(items, module))[items[k].ident@] == spec_qualified(
            module,
            items[k].ident@,
        ),
    decreases items.len(),
{
    let rest = items.drop_last();
    let last = items.last();
    let before = struct_entries(rest, module);
    let entries = struct_entries(items, module);
    if last.kind is Struct {
        let entry = (last.ident@, spec_qualified(module, last.ident@));
        assert(entries == before.push(entry));
        assert(entries.drop_last() =~= before);
        assert(registered(entries) == registered(before).insert(entry.0, entry.1));
    } else {
        assert(entries == before);
    }
    if k < items.len() - 1 {
        assert forall|j: int|
            k < j < rest.len() && (#[trigger] rest[j]).kind is Struct implies rest[j].ident@
                != rest[k].ident@ by {
            assert(rest[j] == items[j]);
        }
        assert(rest[k] == items[k]);
        lemma_struct_registered(rest, module, k);
        assert(last == items[items.len() - 1]);
    }
}

/// Registers every struct of `items` as a record of `module`, under its
/// name; a later struct with the same name replaces an earlier one.
pub fn collect_types(items: &Vec<SynItem>, module: &ModulePath) -> (registry: TypeRegistry)
    ensures
        registry@ == registered(struct_entries(items@, module@)),
{
    let mut registry = TypeRegistry::new();
    let mut i: usize = 0;
    while i < items.len()
        invariant
            i <= items.len(),
            registry@ == registered(struct_entries(items@.take(i as int), module@)),
        decreases items.len() - i,
    {
        proof {
            assert(items@.take(i + 1).drop_last() =~= items@.take(i as int));
            assert(items@.take(i + 1).last() == items@[i as int]);
        }
        let item = &items[i];
        let ghost before = struct_entries(items@.take(i as int), module@);
        match &item.kind {
            ItemKind::Struct(_) => {
                let id = RecordId(module.qualified(item.ident.as_str()));
                registry.register_record(item.ident.as_str(), id);
                proof {
                    let after = struct_entries(items@.take(i + 1), module@);
                    assert(after == before.push(
                        (item.ident@, spec_qualified(module@, item.ident@)),
                    ));
                    assert(after.drop_last() =~= before);
                }
            },
            _ => {},
        }
        i = i + 1;
    }
    proof {
        assert(items@.take(items.len() as int) =~= items@);
    }
    registry
}

/// The name an impl block's self type ends with, when it is a path.
pub open spec fn spec_self_type_ident(item: SynItemImpl) -> Option<Seq<char>> {
    match item.self_ty {
        SynType::Path { path, .. } => if path.segments@.len() > 0 {
            Some(path.segments@.last().ident@)
        } else {
            None
        },
        _ => None,
    }
}

/// The name an impl block's self type ends with, when it is a path.
pub fn self_type_ident(item: &SynItemImpl) -> (ident: Option<&String>)
    ensures
        match ident {
            Some(ident) => spec_self_type_ident(*item) == Some(ident@),
            None => spec_self_type_ident(*item) is None,
        },
{
    match &item.self_ty {
        SynType::Path { path, .. } => {
            let n = path.segments.len();
            if n > 0 {
                Some(&path.segments[n - 1].ident)
            } else {
                None
            }
        },
        _ => None,
    }
}

} // verus!
