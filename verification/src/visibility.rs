//! Visibilities as the contract records them.
use vstd::prelude::*;

use crate::ast::{Source, SourceVisibility};
use crate::spelling::{path_idents, spell_path_idents};
use crate::syntax::SynVisibility;

verus! {

/// Whether `scanned` is what `written` records as.
pub open spec fn scans_as(written: SynVisibility, scanned: SourceVisibility) -> bool {
    match written {
        SynVisibility::Public => scanned == SourceVisibility::Public,
        SynVisibility::Restricted(path) => scanned matches SourceVisibility::Restricted(p) && p@
            == spell_path_idents(path),
        SynVisibility::Inherited => scanned == SourceVisibility::Private,
    }
}

/// The source record of a declaration with the written visibility; a
/// scan never invents a span without the input file's context.
pub fn scan(visibility: &SynVisibility) -> (source: Source)
    ensures
        scans_as(*visibility, source.visibility),
        source.span is None,
{
    Source::new(scan_visibility(visibility), None)
}

/// The contract visibility of a written one.
pub fn scan_visibility(visibility: &SynVisibility) -> (scanned: SourceVisibility)
    ensures
        scans_as(*visibility, scanned),
{
    match visibility {
        SynVisibility::Public => SourceVisibility::Public,
        SynVisibility::Restricted(path) => SourceVisibility::Restricted(path_idents(path)),
        SynVisibility::Inherited => SourceVisibility::Private,
    }
}

} // verus!
