//! The boltffi marker attributes: `#[data]`, `#[data(impl)]`, `#[error]`,
//! `#[export]` and `#[skip]`, bare or under the `boltffi::` namespace.
use vstd::prelude::*;

use crate::ast::{AttributeInput, UserAttr};
use crate::error::{result_view, ScanError, ScanErrorView};
use crate::spelling::{path, spell_path, spell_segments};
use crate::syntax::{SynAttribute, Meta};
use crate::text::text_eq;

verus! {

/// A boltffi marker on an item.
#[derive(Clone, Copy, Debug, Eq, PartialEq, Structural)]
pub enum Marker {
    Data,
    DataImpl,
    Error,
    Export,
    Skip,
}

/// The name a marker is reported with.
pub open spec fn marker_text(marker: Marker) -> Seq<char> {
    match marker {
        Marker::Data => "data"@,
        Marker::DataImpl => "data(impl)"@,
        Marker::Error => "error"@,
        Marker::Export => "export"@,
        Marker::Skip => "skip"@,
    }
}

/// Whether `name` is the name of a marker attribute.
pub open spec fn is_marker_word(name: Seq<char>) -> bool {
    name == "data"@ || name == "error"@ || name == "export"@ || name == "skip"@
}

/// The marker name an attribute is written with: `name` or
/// `boltffi::name`, where `name` is a marker word. Other paths name no
/// marker.
pub open spec fn spec_marker_name(attr: SynAttribute) -> Option<Seq<char>> {
    let segments = attr.path.segments@;
    if segments.len() == 1 && is_marker_word(segments[0].ident@) {
        Some(segments[0].ident@)
    } else if segments.len() == 2 && segments[0].ident@ == "boltffi"@ && is_marker_word(
        segments[1].ident@,
    ) {
        Some(segments[1].ident@)
    } else {
        None
    }
}

/// How an attribute is spelled in an error: its path, then its list
/// tokens in parentheses.
pub open spec fn spec_attribute_spelling(attr: SynAttribute) -> Seq<char> {
    match attr.meta {
        Meta::List { tokens } => spell_path(attr.path) + seq!['('] + tokens@ + seq![')'],
        _ => spell_path(attr.path),
    }
}

/// The error for a marker written with arguments it does not take.
pub open spec fn spec_invalid(attr: SynAttribute) -> ScanErrorView {
    ScanErrorView::InvalidMarker { attribute: spec_attribute_spelling(attr) }
}

/// The marker an attribute makes, if any: `data` bare is data and
/// `data(impl)` is data(impl); `error`, `export` and `skip` take no
/// arguments. Any other form of a marker name is rejected.
pub open spec fn spec_from_attribute(attr: SynAttribute) -> Result<Option<Marker>, ScanErrorView> {
    match spec_marker_name(attr) {
        Some(name) => if name == "data"@ {
            match attr.meta {
                Meta::Path => Ok(Some(Marker::Data)),
                Meta::List { tokens } => if tokens@ == "impl"@ {
                    Ok(Some(Marker::DataImpl))
                } else {
                    Err(spec_invalid(attr))
                },
                Meta::NameValue => Err(spec_invalid(attr)),
            }
        } else {
            let marker = if name == "error"@ {
                Marker::Error
            } else if name == "export"@ {
                Marker::Export
            } else {
                Marker::Skip
            };
            match attr.meta {
                Meta::Path => Ok(Some(marker)),
                _ => Err(spec_invalid(attr)),
            }
        },
        None => Ok(None),
    }
}

/// The marker of an attribute list, read left to right: the first error
/// stops the reading; a second marker conflicts with the first.
pub open spec fn spec_detect(attrs: Seq<SynAttribute>) -> Result<Option<Marker>, ScanErrorView>
    decreases attrs.len(),
{
    if attrs.len() == 0 {
        Ok(None)
    } else {
        match spec_detect(attrs.drop_last()) {
            Err(error) => Err(error),
            Ok(detected) => match spec_from_attribute(attrs.last()) {
                Err(error) => Err(error),
                Ok(None) => Ok(detected),
                Ok(Some(second)) => match detected {
                    Some(first) => Err(
                        ScanErrorView::ConflictingMarkers {
                            first: marker_text(first),
                            second: marker_text(second),
                        },
                    ),
                    None => Ok(Some(second)),
                },
            },
        }
    }
}

impl Marker {
    /// Detects the marker of an item from its attributes.
    pub fn detect(attrs: &Vec<SynAttribute>) -> (detected: Result<Option<Self>, ScanError>)
        ensures
            result_view(detected) == spec_detect(attrs@),
    {
        let mut detected: Option<Marker> = None;
        let mut i: usize = 0;
        while i < attrs.len()
            invariant
                i <= attrs.len(),
                spec_detect(attrs@.take(i as int)) == Ok::<Option<Marker>, ScanErrorView>(
                    detected,
                ),
            decreases attrs.len() - i,
        {
            proof {
                assert(attrs@.take(i + 1).drop_last() =~= attrs@.take(i as int));
            }
            let marker = match Self::from_attribute(&attrs[i]) {
                Ok(marker) => marker,
                Err(error) => {
                    proof {
                        lemma_detect_stops(attrs@, i as int);
                    }
                    return Err(error);
                },
            };
            match (detected, marker) {
                (Some(first), Some(second)) => {
                    proof {
                        lemma_detect_stops(attrs@, i as int);
                    }
                    let error = ScanError::ConflictingMarkers {
                        first: first.as_str().to_owned(),
                        second: second.as_str().to_owned(),
                    };
                    return Err(error);
                },
                (None, Some(marker)) => {
                    detected = Some(marker);
                },
                (_, None) => {},
            }
            i = i + 1;
        }
        proof {
            assert(attrs@.take(attrs.len() as int) =~= attrs@);
        }
        Ok(detected)
    }

    /// The name this marker is reported with.
    pub fn as_str(self) -> (name: &'static str)
        ensures
            name@ == marker_text(self),
    {
        proof {
            reveal_strlit("data");
            reveal_strlit("data(impl)");
            reveal_strlit("error");
            reveal_strlit("export");
            reveal_strlit("skip");
        }
        match self {
            Marker::Data => "data",
            Marker::DataImpl => "data(impl)",
            Marker::Error => "error",
            Marker::Export => "export",
            Marker::Skip => "skip",
        }
    }

    /// Adds the user attributes a value type carries for this marker: an
    /// error type carries `error`; other markers add none.
    pub fn append_value_attrs(self, attrs: &mut Vec<UserAttr>)
        ensures
            self == Marker::Error ==> final(attrs)@.len() == old(attrs)@.len() + 1
                && final(attrs)@.take(old(attrs)@.len() as int) == old(attrs)@
                && final(attrs)@.last().path@.len() == 1
                && final(attrs)@.last().path@[0]@ == "error"@
                && final(attrs)@.last().input == AttributeInput::Empty,
            self != Marker::Error ==> final(attrs)@ == old(attrs)@,
    {
        if self == Marker::Error {
            let mut path: Vec<String> = Vec::new();
            path.push("error".to_owned());
            attrs.push(UserAttr { path, input: AttributeInput::Empty });
            proof {
                assert(attrs@.take(old(attrs)@.len() as int) =~= old(attrs)@);
            }
        }
    }

    /// The marker an attribute makes, if any.
    pub fn from_attribute(attr: &SynAttribute) -> (marker: Result<Option<Self>, ScanError>)
        ensures
            result_view(marker) == spec_from_attribute(*attr),
    {
        let name = match marker_name(attr) {
            Some(name) => name,
            None => return Ok(None),
        };
        proof {
            reveal_strlit("data");
            reveal_strlit("error");
            reveal_strlit("export");
            reveal_strlit("skip");
        }
        let read = if text_eq(name.as_str(), "data") {
            Self::from_data(attr)
        } else if text_eq(name.as_str(), "error") {
            Self::empty(attr, Marker::Error)
        } else if text_eq(name.as_str(), "export") {
            Self::empty(attr, Marker::Export)
        } else {
            Self::empty(attr, Marker::Skip)
        };
        match read {
            Ok(marker) => Ok(Some(marker)),
            Err(error) => Err(error),
        }
    }

    fn empty(attr: &SynAttribute, marker: Self) -> (res: Result<Self, ScanError>)
        ensures
            result_view(res) == (match attr.meta {
                Meta::Path => Ok(marker),
                _ => Err(spec_invalid(*attr)),
            }),
    {
        match &attr.meta {
            Meta::Path => Ok(marker),
            _ => Err(invalid(attr)),
        }
    }

    fn from_data(attr: &SynAttribute) -> (res: Result<Self, ScanError>)
        ensures
            result_view(res) == (match attr.meta {
                Meta::Path => Ok(Marker::Data),
                Meta::List { tokens } => if tokens@ == "impl"@ {
                    Ok(Marker::DataImpl)
                } else {
                    Err(spec_invalid(*attr))
                },
                Meta::NameValue => Err(spec_invalid(*attr)),
            }),
    {
        match &attr.meta {
            Meta::Path => Ok(Marker::Data),
            Meta::List { tokens } => if text_eq(tokens.as_str(), "impl") {
                Ok(Marker::DataImpl)
            } else {
                Err(invalid(attr))
            },
            Meta::NameValue => Err(invalid(attr)),
        }
    }
}

/// The attribute name a marker is written with.
pub open spec fn marker_word(marker: Marker) -> Seq<char> {
    match marker {
        Marker::Data => "data"@,
        Marker::DataImpl => "data"@,
        Marker::Error => "error"@,
        Marker::Export => "export"@,
        Marker::Skip => "skip"@,
    }
}

/// Whether `attr` writes `marker` in its own spelling: `#[name]`, or
/// `#[data(impl)]` for data(impl).
pub open spec fn writes_marker(attr: SynAttribute, marker: Marker) -> bool {
    &&& attr.path.segments@.len() == 1
    &&& attr.path.segments@[0].ident@ == marker_word(marker)
    &&& attr.path.segments@[0].arguments is Bare
    &&& if marker == Marker::DataImpl {
        attr.meta matches Meta::List { tokens } && tokens@ == "impl"@
    } else {
        attr.meta is Path
    }
}

/// No two markers share a name.
pub proof fn lemma_marker_names_distinct(first: Marker, second: Marker)
    ensures
        first != second ==> marker_text(first) != marker_text(second),
{
    reveal_strlit("data");
    reveal_strlit("data(impl)");
    reveal_strlit("error");
    reveal_strlit("export");
    reveal_strlit("skip");
    if first != second {
        let a = marker_text(first);
        let b = marker_text(second);
        if a.len() == b.len() {
            assert(a[0] != b[0] || a[1] != b[1]);
        }
    }
}

/// A marker written in its own spelling is detected as that marker, and
/// an error reports the attribute with the marker's name.
pub proof fn lemma_marker_spelling_detects(attr: SynAttribute, marker: Marker)
    requires
        writes_marker(attr, marker),
    ensures
        spec_detect(seq![attr]) == Ok::<Option<Marker>, ScanErrorView>(Some(marker)),
        spec_attribute_spelling(attr) == marker_text(marker),
{
    reveal_strlit("data");
    reveal_strlit("data(impl)");
    reveal_strlit("error");
    reveal_strlit("export");
    reveal_strlit("skip");
    reveal_strlit("impl");
    reveal_strlit("boltffi");
    assert(seq![attr].drop_last() =~= Seq::<SynAttribute>::empty());
    assert(seq![attr].last() == attr);
    let segments = attr.path.segments@;
    assert(spell_segments(segments) =~= seq![segments[0].ident@]);
    assert(spell_path(attr.path) == segments[0].ident@);
    if marker == Marker::DataImpl {
        assert(segments[0].ident@ + seq!['('] + "impl"@ + seq![')'] =~= "data(impl)"@);
    }
    if marker == Marker::Skip {
        assert("skip"@[0] != "data"@[0]);
    }
    assert(spec_marker_name(attr) == Some(marker_word(marker)));
    match marker {
        Marker::Error => assert("error"@ != "data"@),
        Marker::Export => {
            assert("export"@ != "data"@);
            assert("export"@ != "error"@);
        },
        Marker::Skip => {
            assert("skip"@ != "error"@);
            assert("skip"@ != "export"@);
        },
        _ => {},
    }
    assert(spec_from_attribute(attr) == Ok::<Option<Marker>, ScanErrorView>(Some(marker)));
    assert(spec_detect(Seq::<SynAttribute>::empty()) == Ok::<Option<Marker>, ScanErrorView>(None));
}

/// Attributes that name no marker leave an item unmarked, whatever else
/// they say.
pub proof fn lemma_detect_unmarked(attrs: Seq<SynAttribute>)
    requires
        forall|i: int| 0 <= i < attrs.len() ==> spec_marker_name(#[trigger] attrs[i]) is None,
    ensures
        spec_detect(attrs) == Ok::<Option<Marker>, ScanErrorView>(None),
    decreases attrs.len(),
{
    if attrs.len() > 0 {
        let rest = attrs.drop_last();
        assert forall|i: int| 0 <= i < rest.len() implies spec_marker_name(#[trigger] rest[i]) is None by {
            assert(rest[i] == attrs[i]);
        }
        lemma_detect_unmarked(rest);
        assert(spec_marker_name(attrs[attrs.len() - 1]) is None);
    }
}

/// One marker among attributes that name no other marker is the item's
/// marker, wherever it stands among them.
pub proof fn lemma_detect_single(attrs: Seq<SynAttribute>, k: int, marker: Marker)
    requires
        0 <= k < attrs.len(),
        spec_from_attribute(attrs[k]) == Ok::<Option<Marker>, ScanErrorView>(Some(marker)),
        forall|i: int| 0 <= i < attrs.len() && i != k ==> spec_marker_name(#[trigger] attrs[i]) is None,
    ensures
        spec_detect(attrs) == Ok::<Option<Marker>, ScanErrorView>(Some(marker)),
    decreases attrs.len(),
{
    let rest = attrs.drop_last();
    if k == attrs.len() - 1 {
        assert forall|i: int| 0 <= i < rest.len() implies spec_marker_name(#[trigger] rest[i]) is None by {
            assert(rest[i] == attrs[i]);
        }
        lemma_detect_unmarked(rest);
    } else {
        assert forall|i: int| 0 <= i < rest.len() && i != k implies spec_marker_name(
            #[trigger] rest[i],
        ) is None by {
            assert(rest[i] == attrs[i]);
        }
        assert(rest[k] == attrs[k]);
        lemma_detect_single(rest, k, marker);
        assert(spec_marker_name(attrs[attrs.len() - 1]) is None);
    }
}

/// Two markers on one item conflict: the error names them in source order.
pub proof fn lemma_detect_conflict(attrs: Seq<SynAttribute>, i: int, j: int, first: Marker, second: Marker)
    requires
        0 <= i < j < attrs.len(),
        spec_from_attribute(attrs[i]) == Ok::<Option<Marker>, ScanErrorView>(Some(first)),
        spec_from_attribute(attrs[j]) == Ok::<Option<Marker>, ScanErrorView>(Some(second)),
        forall|k: int|
            0 <= k < attrs.len() && k != i && k != j ==> spec_marker_name(#[trigger] attrs[k]) is None,
    ensures
        spec_detect(attrs) == Err::<Option<Marker>, ScanErrorView>(
            ScanErrorView::ConflictingMarkers {
                first: marker_text(first),
                second: marker_text(second),
            },
        ),
{
    let before = attrs.take(j);
    assert forall|k: int| 0 <= k < before.len() && k != i implies spec_marker_name(
        #[trigger] before[k],
    ) is None by {
        assert(before[k] == attrs[k]);
    }
    assert(before[i] == attrs[i]);
    lemma_detect_single(before, i, first);
    assert(attrs.take(j + 1).drop_last() =~= before);
    assert(attrs.take(j + 1).last() == attrs[j]);
    lemma_detect_stops(attrs, j);
}

/// Once a prefix of the attributes fails to read, the whole list fails
/// with the same error.
proof fn lemma_detect_stops(attrs: Seq<SynAttribute>, i: int)
    requires
        0 <= i < attrs.len(),
        spec_detect(attrs.take(i + 1)) is Err,
    ensures
        spec_detect(attrs) == spec_detect(attrs.take(i + 1)),
    decreases attrs.len() - i,
{
    if i + 1 == attrs.len() {
        assert(attrs.take(i + 1) =~= attrs);
    } else {
        assert(attrs.take(i + 2).drop_last() =~= attrs.take(i + 1));
        assert(spec_detect(attrs.take(i + 2)) == spec_detect(attrs.take(i + 1)));
        lemma_detect_stops(attrs, i + 1);
    }
}

/// The marker name an attribute is written with.
fn marker_name(attr: &SynAttribute) -> (name: Option<String>)
    ensures
        match name {
            Some(n) => spec_marker_name(*attr) == Some(n@),
            None => spec_marker_name(*attr) is None,
        },
{
    let segments = &attr.path.segments;
    if segments.len() == 1 {
        if is_marker_word_exec(segments[0].ident.as_str()) {
            Some(segments[0].ident.clone())
        } else {
            None
        }
    } else if segments.len() == 2 {
        proof {
            reveal_strlit("boltffi");
        }
        if text_eq(segments[0].ident.as_str(), "boltffi") && is_marker_word_exec(
            segments[1].ident.as_str(),
        ) {
            Some(segments[1].ident.clone())
        } else {
            None
        }
    } else {
        None
    }
}

fn is_marker_word_exec(name: &str) -> (r: bool)
    ensures
        r == is_marker_word(name@),
{
    text_eq(name, "data") || text_eq(name, "error") || text_eq(name, "export") || text_eq(
        name,
        "skip",
    )
}

fn invalid(attr: &SynAttribute) -> (error: ScanError)
    ensures
        error@ == spec_invalid(*attr),
{
    ScanError::InvalidMarker { attribute: spelling(attr) }
}

fn spelling(attr: &SynAttribute) -> (res: String)
    ensures
        res@ == spec_attribute_spelling(*attr),
{
    let mut res = path(&attr.path);
    match &attr.meta {
        Meta::List { tokens } => {
            proof {
                reveal_strlit("(");
                reveal_strlit(")");
            }
            res.append("(");
            res.append(tokens.as_str());
            res.append(")");
        },
        _ => {},
    }
    res
}

} // verus!
