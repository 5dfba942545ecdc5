//! The ways a scan can reject the source it reads.
use vstd::prelude::*;

use crate::spelling::{path_idents, spell_path_idents};
use crate::syntax::SynType;

verus! {

/// A source shape the scanner cannot turn into a contract node.
///
/// Each variant names a concrete source shape that was rejected rather
/// than silently dropped, so a caller can report it against the Rust the
/// user wrote.
#[derive(Clone, Debug, Eq, PartialEq)]
pub enum ScanError {
    /// A type expression the scanner does not recognize, with its source
    /// spelling.
    UnsupportedType { spelling: String },
    /// A parameter whose pattern is not a plain name binding.
    UnnamedParameter,
    /// A receiver (`self`) on a free function.
    ReceiverOnFreeFunction,
    /// A struct without named fields where a record is expected.
    TupleOrUnitStruct,
    /// A boltffi marker attribute written with arguments it does not take.
    InvalidMarker { attribute: String },
    /// Two boltffi markers on one item.
    ConflictingMarkers { first: String, second: String },
    /// A marker on an item kind it cannot mark.
    InvalidMarkerPlacement { marker: String, item: String },
    /// Two exported declarations at one source path.
    ConflictingDeclarations { path: String, first: String, second: String },
    /// Generic parameters where none are supported.
    UnsupportedGenerics { item: String },
    /// An exported impl that is not an inherent impl.
    UnsupportedClassImplShape { target: String },
    /// An exported impl whose target is not a plain type path.
    UnsupportedClassImpl { target: String },
    /// A public item of an impl block that is not a method.
    UnsupportedImplItem { item: String },
    /// A `data(impl)` block whose target is not a declared record or enum.
    UnsupportedMarkedImpl { target: String },
}

/// What a [`ScanError`] says, with its texts as character sequences.
pub enum ScanErrorView {
    UnsupportedType { spelling: Seq<char> },
    UnnamedParameter,
    ReceiverOnFreeFunction,
    TupleOrUnitStruct,
    InvalidMarker { attribute: Seq<char> },
    ConflictingMarkers { first: Seq<char>, second: Seq<char> },
    InvalidMarkerPlacement { marker: Seq<char>, item: Seq<char> },
    ConflictingDeclarations { path: Seq<char>, first: Seq<char>, second: Seq<char> },
    UnsupportedGenerics { item: Seq<char> },
    UnsupportedClassImplShape { target: Seq<char> },
    UnsupportedClassImpl { target: Seq<char> },
    UnsupportedImplItem { item: Seq<char> },
    UnsupportedMarkedImpl { target: Seq<char> },
}

impl View for ScanError {
    type V = ScanErrorView;

    open spec fn view(&self) -> ScanErrorView {
        match *self {
            ScanError::UnsupportedType { spelling } => ScanErrorView::UnsupportedType {
                spelling: spelling@,
            },
            ScanError::UnnamedParameter => ScanErrorView::UnnamedParameter,
            ScanError::ReceiverOnFreeFunction => ScanErrorView::ReceiverOnFreeFunction,
            ScanError::TupleOrUnitStruct => ScanErrorView::TupleOrUnitStruct,
            ScanError::InvalidMarker { attribute } => ScanErrorView::InvalidMarker {
                attribute: attribute@,
            },
            ScanError::ConflictingMarkers { first, second } => ScanErrorView::ConflictingMarkers {
                first: first@,
                second: second@,
            },
            ScanError::InvalidMarkerPlacement { marker, item } =>
                ScanErrorView::InvalidMarkerPlacement { marker: marker@, item: item@ },
            ScanError::ConflictingDeclarations { path, first, second } =>
                ScanErrorView::ConflictingDeclarations {
                path: path@,
                first: first@,
                second: second@,
            },
            ScanError::UnsupportedGenerics { item } => ScanErrorView::UnsupportedGenerics {
                item: item@,
            },
            ScanError::UnsupportedClassImplShape { target } =>
                ScanErrorView::UnsupportedClassImplShape { target: target@ },
            ScanError::UnsupportedClassImpl { target } => ScanErrorView::UnsupportedClassImpl {
                target: target@,
            },
            ScanError::UnsupportedImplItem { item } => ScanErrorView::UnsupportedImplItem {
                item: item@,
            },
            ScanError::UnsupportedMarkedImpl { target } => ScanErrorView::UnsupportedMarkedImpl {
                target: target@,
            },
        }
    }
}

/// A result with its error taken by its view.
pub open spec fn result_view<T>(result: Result<T, ScanError>) -> Result<T, ScanErrorView> {
    match result {
        Ok(value) => Ok(value),
        Err(error) => Err(error@),
    }
}

/// The spelling an unsupported type is reported with: a path's idents
/// joined by `::`, a reference as `&` and its target, anything else as
/// `unrecognized type`.
pub open spec fn spec_type_spelling(ty: SynType) -> Seq<char>
    decreases ty,
{
    match ty {
        SynType::Path { path, .. } => spell_path_idents(path),
        SynType::Reference { elem, .. } => seq!['&'] + spec_type_spelling(*elem),
        _ => "unrecognized type"@,
    }
}

fn type_spelling(ty: &SynType) -> (res: String)
    ensures
        res@ == spec_type_spelling(*ty),
    decreases ty,
{
    proof {
        reveal_strlit("&");
        reveal_strlit("unrecognized type");
    }
    match ty {
        SynType::Path { path, .. } => path_idents(path),
        SynType::Reference { elem, .. } => {
            let mut res = "&".to_owned();
            let inner = type_spelling(elem);
            res.append(inner.as_str());
            res
        },
        _ => "unrecognized type".to_owned(),
    }
}

/// The text of `error`'s message.
pub open spec fn spec_message(error: ScanError) -> Seq<char> {
    match error {
        ScanError::UnsupportedType { spelling } => "unsupported source type `"@ + spelling@
            + "`"@,
        ScanError::UnnamedParameter => "parameter pattern is not a plain name"@,
        ScanError::ReceiverOnFreeFunction => "free function cannot have a receiver"@,
        ScanError::TupleOrUnitStruct => "tuple and unit structs are not supported as records yet"@,
        ScanError::InvalidMarker { attribute } => "invalid marker attribute `#["@ + attribute@
            + "]`"@,
        ScanError::ConflictingMarkers { first, second } => "conflicting markers `"@ + first@
            + "` and `"@ + second@ + "`"@,
        ScanError::InvalidMarkerPlacement { marker, item } => "marker `"@ + marker@
            + "` cannot be placed on "@ + item@,
        ScanError::ConflictingDeclarations { path, first, second } => "`"@ + path@
            + "` is declared as both "@ + first@ + " and "@ + second@,
        ScanError::UnsupportedGenerics { item } => "generic "@ + item@ + " is not supported"@,
        ScanError::UnsupportedClassImplShape { target } => "exported impl for `"@ + target@
            + "` must be an inherent impl"@,
        ScanError::UnsupportedClassImpl { target } => "exported impl target `"@ + target@
            + "` is not a plain type path"@,
        ScanError::UnsupportedImplItem { item } => "unsupported impl item `"@ + item@ + "`"@,
        ScanError::UnsupportedMarkedImpl { target } => "data(impl) target `"@ + target@
            + "` is not a declared record or enum"@,
    }
}

fn wrap(prefix: &str, value: &String, suffix: &str) -> (res: String)
    ensures
        res@ == prefix@ + value@ + suffix@,
{
    let mut res = prefix.to_owned();
    res.append(value.as_str());
    res.append(suffix);
    res
}

impl ScanError {
    /// The error for an unsupported type, carrying its source spelling.
    pub fn unsupported_type(ty: &SynType) -> (error: Self)
        ensures
            error@ == (ScanErrorView::UnsupportedType { spelling: spec_type_spelling(*ty) }),
    {
        ScanError::UnsupportedType { spelling: type_spelling(ty) }
    }

    /// The message a user reads for this error.
    pub fn message(&self) -> (res: String)
        ensures
            res@ == spec_message(*self),
    {
        match self {
            ScanError::UnsupportedType { spelling } => wrap(
                "unsupported source type `",
                spelling,
                "`",
            ),
            ScanError::UnnamedParameter => "parameter pattern is not a plain name".to_owned(),
            ScanError::ReceiverOnFreeFunction => "free function cannot have a receiver".to_owned(),
            ScanError::TupleOrUnitStruct => "tuple and unit structs are not supported as records yet".to_owned(),
            ScanError::InvalidMarker { attribute } => wrap(
                "invalid marker attribute `#[",
                attribute,
                "]`",
            ),
            ScanError::ConflictingMarkers { first, second } => {
                let mut res = wrap("conflicting markers `", first, "` and `");
                res.append(second.as_str());
                res.append("`");
                res
            },
            ScanError::InvalidMarkerPlacement { marker, item } => {
                let mut res = wrap("marker `", marker, "` cannot be placed on ");
                res.append(item.as_str());
                res
            },
            ScanError::ConflictingDeclarations { path, first, second } => {
                let mut res = wrap("`", path, "` is declared as both ");
                res.append(first.as_str());
                res.append(" and ");
                res.append(second.as_str());
                res
            },
            ScanError::UnsupportedGenerics { item } => wrap("generic ", item, " is not supported"),
            ScanError::UnsupportedClassImplShape { target } => wrap(
                "exported impl for `",
                target,
                "` must be an inherent impl",
            ),
            ScanError::UnsupportedClassImpl { target } => wrap(
                "exported impl target `",
                target,
                "` is not a plain type path",
            ),
            ScanError::UnsupportedImplItem { item } => wrap("unsupported impl item `", item, "`"),
            ScanError::UnsupportedMarkedImpl { target } => wrap(
                "data(impl) target `",
                target,
                "` is not a declared record or enum",
            ),
        }
    }
}

} // verus!
