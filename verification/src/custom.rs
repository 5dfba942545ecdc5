//! Custom types on the wire: the Rust type a value is decoded as before its
//! converters run, and the paths to those converters.
use vstd::prelude::*;

use crate::expansion::{ExpansionError, ExpansionErrorView};
use crate::source_names::{
    accepted, checked_expr, checked_expr_path, checked_ident, checked_type, checked_view,
    parses_as_expr, parses_as_expr_path, parses_as_ident, parses_as_type,
};
use crate::text::{join, join_strings, views};
use crate::type_ref::{primitive_name, primitive_spelling};
use crate::wire::{CodecNode, MapKind};

verus! {

/// Where a converter path starts.
#[derive(Clone, Copy, Debug, Eq, PartialEq, Structural)]
pub enum PathRoot {
    /// In the current scope.
    Relative,
    /// At the crate root: `crate::`.
    Crate,
    /// In the current module: `self::`.
    SelfModule,
    /// This many modules up: `super::` repeated.
    Super(usize),
    /// In another crate: `::`.
    Absolute,
    /// A root this expansion does not know.
    Other,
}

/// A path to a custom type's converter: its root and its segments.
pub struct ConverterPath {
    pub root: PathRoot,
    pub segments: Vec<String>,
}

/// `n` copies of `super`, each followed by `::`.
pub open spec fn supers(n: nat) -> Seq<char>
    decreases n,
{
    if n == 0 {
        Seq::empty()
    } else {
        supers((n - 1) as nat) + "super::"@
    }
}

/// What a path starts with, or `None` for an unknown root.
pub open spec fn prefix_of(root: PathRoot) -> Option<Seq<char>> {
    match root {
        PathRoot::Relative => Some(Seq::empty()),
        PathRoot::Crate => Some("crate::"@),
        PathRoot::SelfModule => Some("self::"@),
        PathRoot::Super(levels) => Some(if levels == 0 { "::"@ } else { supers(levels as nat) }),
        PathRoot::Absolute => Some("::"@),
        PathRoot::Other => None,
    }
}

/// The source text of a converter path.
pub open spec fn source_of(path: ConverterPath) -> Option<Seq<char>> {
    match prefix_of(path.root) {
        Some(prefix) => Some(prefix + join(views(path.segments@), "::"@)),
        None => None,
    }
}

/// Renders converter paths.
pub struct PathRenderer<'a> {
    pub path: &'a ConverterPath,
}

impl<'a> PathRenderer<'a> {
    pub fn new(path: &'a ConverterPath) -> (renderer: Self)
        ensures
            renderer.path == path,
    {
        PathRenderer { path }
    }

    /// The path's source text: its prefix, then its segments joined by `::`.
    pub fn source(&self) -> (source: Result<String, ExpansionError>)
        ensures
            match source {
                Ok(text) => source_of(*self.path) == Some(text@),
                Err(error) => source_of(*self.path) is None && error@
                    == ExpansionErrorView::UnsupportedExpansion(
                    "unknown custom converter path root"@,
                ),
            },
    {
        let mut text = match self.prefix() {
            Ok(prefix) => prefix,
            Err(error) => return Err(error),
        };
        let segments = self.segments();
        text.append(segments.as_str());
        Ok(text)
    }

    /// What the path starts with.
    pub fn prefix(&self) -> (prefix: Result<String, ExpansionError>)
        ensures
            match prefix {
                Ok(text) => prefix_of(self.path.root) == Some(text@),
                Err(error) => prefix_of(self.path.root) is None && error@
                    == ExpansionErrorView::UnsupportedExpansion(
                    "unknown custom converter path root"@,
                ),
            },
    {
        proof {
            reveal_strlit("crate::");
            reveal_strlit("self::");
            reveal_strlit("super::");
            reveal_strlit("::");
        }
        match self.path.root {
            PathRoot::Relative => Ok(String::new()),
            PathRoot::Crate => Ok("crate::".to_owned()),
            PathRoot::SelfModule => Ok("self::".to_owned()),
            PathRoot::Super(levels) => {
                if levels == 0 {
                    return Ok("::".to_owned());
                }
                let mut text = String::new();
                let mut i: usize = 0;
                while i < levels
                    invariant
                        i <= levels,
                        text@ == supers(i as nat),
                    decreases levels - i,
                {
                    text.append("super::");
                    i = i + 1;
                }
                Ok(text)
            },
            PathRoot::Absolute => Ok("::".to_owned()),
            PathRoot::Other => Err(
                ExpansionError::UnsupportedExpansion("unknown custom converter path root"),
            ),
        }
    }

    /// The path's segments joined by `::`.
    pub fn segments(&self) -> (segments: String)
        ensures
            segments@ == join(views(self.path.segments@), "::"@),
    {
        join_strings(&self.path.segments, "::")
    }

    /// The path as a path expression, which it must parse as.
    pub fn render(&self) -> (rendered: Result<String, ExpansionError>)
        ensures
            checked_view(rendered) == match source_of(*self.path) {
                None => Err(unknown_root()),
                Some(text) => accepted(
                    text,
                    parses_as_expr_path(text),
                    "custom converter path is not Rust syntax"@,
                ),
            },
    {
        match self.source() {
            Ok(text) => checked_expr_path(text.as_str(), "custom converter path is not Rust syntax"),
            Err(error) => Err(error),
        }
    }

    /// The path as a type, which it must parse as.
    pub fn render_type(&self) -> (rendered: Result<String, ExpansionError>)
        ensures
            checked_view(rendered) == match source_of(*self.path) {
                None => Err(unknown_root()),
                Some(text) => accepted(
                    text,
                    parses_as_type(text),
                    "custom converter receiver is not Rust syntax"@,
                ),
            },
    {
        match self.source() {
            Ok(text) => checked_type(text.as_str(), "custom converter receiver is not Rust syntax"),
            Err(error) => Err(error),
        }
    }
}

/// The error for a path with an unknown root.
pub open spec fn unknown_root() -> ExpansionErrorView {
    ExpansionErrorView::UnsupportedExpansion("unknown custom converter path root"@)
}

/// How a custom type converts to or from its representation.
pub enum CustomTypeConverter {
    /// A function at a path.
    Path(ConverterPath),
    /// A method of the custom type's `CustomFfiConvertible` impl on
    /// `receiver`.
    TraitMethod { receiver: ConverterPath, method: String },
    /// A Rust expression.
    Expression(String),
    /// A converter this expansion does not know.
    Other,
}

/// The text a converter is called through, or why it has none.
pub open spec fn converter_text(converter: CustomTypeConverter) -> Result<Seq<char>, ExpansionErrorView> {
    match converter {
        CustomTypeConverter::Path(path) => match source_of(path) {
            None => Err(unknown_root()),
            Some(text) => accepted(
                text,
                parses_as_expr_path(text),
                "custom converter path is not Rust syntax"@,
            ),
        },
        CustomTypeConverter::TraitMethod { receiver, method } => match source_of(receiver) {
            None => Err(unknown_root()),
            Some(receiver) => if !parses_as_type(receiver) {
                Err(ExpansionErrorView::SourceSyntaxMismatch("custom converter receiver is not Rust syntax"@))
            } else if !parses_as_ident(method@) {
                Err(ExpansionErrorView::SourceSyntaxMismatch("custom converter method is not Rust syntax"@))
            } else {
                Ok("<"@ + receiver + " as ::boltffi::CustomFfiConvertible>::"@ + method@)
            },
        },
        CustomTypeConverter::Expression(source) => accepted(
            source@,
            parses_as_expr(source@),
            "custom converter is not Rust syntax"@,
        ),
        CustomTypeConverter::Other => Err(
            ExpansionErrorView::UnsupportedExpansion("unknown custom converter"@),
        ),
    }
}

/// Renders the converter of a custom type.
pub struct ConverterRenderer<'a> {
    pub converter: &'a CustomTypeConverter,
}

impl<'a> ConverterRenderer<'a> {
    pub fn new(converter: &'a CustomTypeConverter) -> (renderer: Self)
        ensures
            renderer.converter == converter,
    {
        ConverterRenderer { converter }
    }

    /// The text the converter is called through: its path, its trait
    /// method on the receiver type, or its expression, each of which must
    /// be Rust syntax.
    pub fn render(&self) -> (rendered: Result<String, ExpansionError>)
        ensures
            checked_view(rendered) == converter_text(*self.converter),
    {
        proof {
            reveal_strlit("<");
            reveal_strlit(" as ::boltffi::CustomFfiConvertible>::");
        }
        match self.converter {
            CustomTypeConverter::Path(path) => PathRenderer::new(path).render(),
            CustomTypeConverter::TraitMethod { receiver, method } => {
                let receiver = match PathRenderer::new(receiver).render_type() {
                    Ok(receiver) => receiver,
                    Err(error) => return Err(error),
                };
                let method = match checked_ident(
                    method.as_str(),
                    "custom converter method is not Rust syntax",
                ) {
                    Ok(method) => method,
                    Err(error) => return Err(error),
                };
                let mut text = "<".to_owned();
                text.append(receiver.as_str());
                text.append(" as ::boltffi::CustomFfiConvertible>::");
                text.append(method.as_str());
                Ok(text)
            },
            CustomTypeConverter::Expression(source) => checked_expr(
                source.as_str(),
                "custom converter is not Rust syntax",
            ),
            CustomTypeConverter::Other => Err(
                ExpansionError::UnsupportedExpansion("unknown custom converter"),
            ),
        }
    }
}

/// Whether a codec holds a custom type anywhere.
pub open spec fn contains_custom(codec: CodecNode) -> bool
    decreases codec, 0int,
{
    match codec {
        CodecNode::Custom { .. } => true,
        CodecNode::Optional(inner) => contains_custom(*inner),
        CodecNode::Sequence(element) => contains_custom(*element),
        CodecNode::Result { ok, err } => contains_custom(*ok) || contains_custom(*err),
        CodecNode::Tuple(elements) => any_custom(elements@),
        CodecNode::MapOf { key, value, .. } => contains_custom(*key) || contains_custom(*value),
        _ => false,
    }
}

/// Whether some codec of a list holds a custom type.
pub open spec fn any_custom(codecs: Seq<CodecNode>) -> bool
    decreases codecs, 1int,
{
    if codecs.len() == 0 {
        false
    } else {
        any_custom(codecs.drop_last()) || contains_custom(codecs.last())
    }
}

/// An unsupported representation type.
pub open spec fn no_representation(what: Seq<char>) -> Result<Seq<char>, ExpansionErrorView> {
    Err(ExpansionErrorView::UnsupportedExpansion(what))
}

/// The Rust type a codec's value is decoded as, a custom type standing as
/// its representation; records, enums and handles have none.
pub open spec fn representation_of(codec: CodecNode) -> Result<Seq<char>, ExpansionErrorView>
    decreases codec, 0int,
{
    match codec {
        CodecNode::Primitive(primitive) => Ok(primitive_spelling(primitive)),
        CodecNode::String => Ok("String"@),
        CodecNode::Bytes => Ok("Vec<u8>"@),
        CodecNode::DirectRecord(_) => no_representation("direct record representation type"@),
        CodecNode::EncodedRecord(_) => no_representation("encoded record representation type"@),
        CodecNode::CStyleEnum(_) => no_representation("c-style enum representation type"@),
        CodecNode::DataEnum(_) => no_representation("data enum representation type"@),
        CodecNode::ClassHandle(_) => no_representation("class handle representation type"@),
        CodecNode::CallbackHandle(_) => no_representation("callback handle representation type"@),
        CodecNode::Custom { representation, .. } => representation_of(*representation),
        CodecNode::Optional(inner) => match representation_of(*inner) {
            Ok(inner) => Ok("Option<"@ + inner + ">"@),
            Err(error) => Err(error),
        },
        CodecNode::Sequence(element) => match representation_of(*element) {
            Ok(element) => Ok("Vec<"@ + element + ">"@),
            Err(error) => Err(error),
        },
        CodecNode::Tuple(elements) => match representations_of(elements@) {
            Ok(parts) => Ok("("@ + parts + ")"@),
            Err(error) => Err(error),
        },
        CodecNode::Result { ok, err } => match representation_of(*ok) {
            Err(error) => Err(error),
            Ok(ok) => match representation_of(*err) {
                Err(error) => Err(error),
                Ok(err) => Ok("Result<"@ + ok + ", "@ + err + ">"@),
            },
        },
        CodecNode::MapOf { kind, key, value } => match representation_of(*key) {
            Err(error) => Err(error),
            Ok(key) => match representation_of(*value) {
                Err(error) => Err(error),
                Ok(value) => Ok(
                    match kind {
                        MapKind::Hash => "::std::collections::HashMap<"@,
                        MapKind::BTree => "::std::collections::BTreeMap<"@,
                    } + key + ", "@ + value + ">"@,
                ),
            },
        },
    }
}

/// The representations of a tuple's elements, each followed by `, `.
pub open spec fn representations_of(codecs: Seq<CodecNode>) -> Result<Seq<char>, ExpansionErrorView>
    decreases codecs, 1int,
{
    if codecs.len() == 0 {
        Ok(Seq::empty())
    } else {
        match representations_of(codecs.drop_last()) {
            Err(error) => Err(error),
            Ok(before) => match representation_of(codecs.last()) {
                Err(error) => Err(error),
                Ok(last) => Ok(before + last + ", "@),
            },
        }
    }
}

/// A text result taken by its view.
pub open spec fn text_view(result: Result<String, ExpansionError>) -> Result<Seq<char>, ExpansionErrorView> {
    match result {
        Ok(text) => Ok(text@),
        Err(error) => Err(error@),
    }
}

fn unsupported_text(reason: &'static str) -> (result: Result<String, ExpansionError>)
    ensures
        text_view(result) == no_representation(reason@),
{
    Err(ExpansionError::UnsupportedExpansion(reason))
}

/// The Rust type a codec's value is decoded as.
pub fn representation(codec: &CodecNode) -> (result: Result<String, ExpansionError>)
    ensures
        text_view(result) == representation_of(*codec),
    decreases codec, 0int,
{
    proof {
        reveal_strlit("String");
        reveal_strlit("Vec<u8>");
        reveal_strlit("Option<");
        reveal_strlit("Vec<");
        reveal_strlit("Result<");
        reveal_strlit("::std::collections::HashMap<");
        reveal_strlit("::std::collections::BTreeMap<");
        reveal_strlit(", ");
        reveal_strlit(">");
        reveal_strlit("(");
        reveal_strlit(")");
    }
    match codec {
        CodecNode::Primitive(primitive) => Ok(primitive_name(*primitive).to_owned()),
        CodecNode::String => Ok("String".to_owned()),
        CodecNode::Bytes => Ok("Vec<u8>".to_owned()),
        CodecNode::DirectRecord(_) => unsupported_text("direct record representation type"),
        CodecNode::EncodedRecord(_) => unsupported_text("encoded record representation type"),
        CodecNode::CStyleEnum(_) => unsupported_text("c-style enum representation type"),
        CodecNode::DataEnum(_) => unsupported_text("data enum representation type"),
        CodecNode::ClassHandle(_) => unsupported_text("class handle representation type"),
        CodecNode::CallbackHandle(_) => unsupported_text("callback handle representation type"),
        CodecNode::Custom { representation: inner, .. } => representation(inner),
        CodecNode::Optional(inner) => {
            let inner = match representation(inner) {
                Ok(inner) => inner,
                Err(error) => return Err(error),
            };
            let mut text = "Option<".to_owned();
            text.append(inner.as_str());
            text.append(">");
            Ok(text)
        },
        CodecNode::Sequence(element) => {
            let element = match representation(element) {
                Ok(element) => element,
                Err(error) => return Err(error),
            };
            let mut text = "Vec<".to_owned();
            text.append(element.as_str());
            text.append(">");
            Ok(text)
        },
        CodecNode::Tuple(elements) => {
            let parts = match representations(elements) {
                Ok(parts) => parts,
                Err(error) => return Err(error),
            };
            let mut text = "(".to_owned();
            text.append(parts.as_str());
            text.append(")");
            Ok(text)
        },
        CodecNode::Result { ok, err } => {
            let ok = match representation(ok) {
                Ok(ok) => ok,
                Err(error) => return Err(error),
            };
            let err = match representation(err) {
                Ok(err) => err,
                Err(error) => return Err(error),
            };
            let mut text = "Result<".to_owned();
            text.append(ok.as_str());
            text.append(", ");
            text.append(err.as_str());
            text.append(">");
            Ok(text)
        },
        CodecNode::MapOf { kind, key, value } => {
            let key = match representation(key) {
                Ok(key) => key,
                Err(error) => return Err(error),
            };
            let value = match representation(value) {
                Ok(value) => value,
                Err(error) => return Err(error),
            };
            let mut text = match kind {
                MapKind::Hash => "::std::collections::HashMap<".to_owned(),
                MapKind::BTree => "::std::collections::BTreeMap<".to_owned(),
            };
            text.append(key.as_str());
            text.append(", ");
            text.append(value.as_str());
            text.append(">");
            Ok(text)
        },
    }
}

/// The representations of a tuple's elements, each followed by `, `.
pub fn representations(codecs: &Vec<CodecNode>) -> (result: Result<String, ExpansionError>)
    ensures
        text_view(result) == representations_of(codecs@),
    decreases codecs, 1int,
{
    proof {
        reveal_strlit(", ");
    }
    let mut text = String::new();
    let mut i: usize = 0;
    while i < codecs.len()
        invariant
            i <= codecs.len(),
            representations_of(codecs@.take(i as int)) == Ok::<Seq<char>, ExpansionErrorView>(text@),
        decreases codecs.len() - i,
    {
        proof {
            assert(codecs@.take(i + 1).drop_last() =~= codecs@.take(i as int));
            assert(codecs@.take(i + 1).last() == codecs@[i as int]);
            assert(decreases_to!(codecs => codecs@[i as int]));
        }
        let part = match representation(&codecs[i]) {
            Ok(part) => part,
            Err(error) => {
                proof {
                    lemma_representation_error_sticks(codecs@, i + 1);
                }
                return Err(error);
            },
        };
        text.append(part.as_str());
        text.append(", ");
        i = i + 1;
    }
    proof {
        assert(codecs@.take(codecs.len() as int) =~= codecs@);
    }
    Ok(text)
}

/// Once a prefix of a tuple's elements has no representation, neither has
/// the tuple, for the same reason.
proof fn lemma_representation_error_sticks(codecs: Seq<CodecNode>, n: int)
    requires
        0 <= n <= codecs.len(),
        representations_of(codecs.take(n)) is Err,
    ensures
        representations_of(codecs) == representations_of(codecs.take(n)),
    decreases codecs.len() - n,
{
    if n < codecs.len() {
        assert(codecs.take(n + 1).drop_last() =~= codecs.take(n));
        lemma_representation_error_sticks(codecs, n + 1);
    } else {
        assert(codecs.take(n) =~= codecs);
    }
}

/// Whether a codec holds a custom type anywhere.
pub fn has_custom(codec: &CodecNode) -> (has: bool)
    ensures
        has == contains_custom(*codec),
    decreases codec, 0int,
{
    match codec {
        CodecNode::Custom { .. } => true,
        CodecNode::Optional(inner) => has_custom(inner),
        CodecNode::Sequence(element) => has_custom(element),
        CodecNode::Result { ok, err } => has_custom(ok) || has_custom(err),
        CodecNode::Tuple(elements) => any_has_custom(elements),
        CodecNode::MapOf { key, value, .. } => has_custom(key) || has_custom(value),
        _ => false,
    }
}

fn any_has_custom(codecs: &Vec<CodecNode>) -> (has: bool)
    ensures
        has == any_custom(codecs@),
    decreases codecs, 1int,
{
    let mut i: usize = 0;
    while i < codecs.len()
        invariant
            i <= codecs.len(),
            !any_custom(codecs@.take(i as int)),
        decreases codecs.len() - i,
    {
        proof {
            assert(codecs@.take(i + 1).drop_last() =~= codecs@.take(i as int));
            assert(decreases_to!(codecs => codecs@[i as int]));
        }
        if has_custom(&codecs[i]) {
            proof {
                lemma_any_custom_sticks(codecs@, i + 1);
            }
            return true;
        }
        i = i + 1;
    }
    proof {
        assert(codecs@.take(codecs.len() as int) =~= codecs@);
    }
    false
}

proof fn lemma_any_custom_sticks(codecs: Seq<CodecNode>, n: int)
    requires
        0 <= n <= codecs.len(),
        any_custom(codecs.take(n)),
    ensures
        any_custom(codecs),
    decreases codecs.len() - n,
{
    if n < codecs.len() {
        assert(codecs.take(n + 1).drop_last() =~= codecs.take(n));
        lemma_any_custom_sticks(codecs, n + 1);
    } else {
        assert(codecs.take(n) =~= codecs);
    }
}

/// The type an incoming value is decoded as before its custom converters
/// run: `None` when the codec holds no custom type and the value decodes
/// as its own Rust type.
pub fn decoded_type(codec: &CodecNode) -> (decoded: Result<Option<String>, ExpansionError>)
    ensures
        !contains_custom(*codec) ==> decoded matches Ok(None),
        contains_custom(*codec) ==> match decoded {
            Ok(Some(text)) => representation_of(*codec) == Ok::<Seq<char>, ExpansionErrorView>(text@),
            Ok(None) => false,
            Err(error) => representation_of(*codec) == Err::<Seq<char>, ExpansionErrorView>(error@),
        },
{
    if has_custom(codec) {
        match representation(codec) {
            Ok(text) => Ok(Some(text)),
            Err(error) => Err(error),
        }
    } else {
        Ok(None)
    }
}

/// A map keeps its kind in its representation type: a hash map is decoded
/// as `::std::collections::HashMap<K, V>` and a B-tree map as
/// `::std::collections::BTreeMap<K, V>`, with its key's and value's own
/// representations; so the two kinds never share a representation.
pub proof fn lemma_map_representation_keeps_its_kind(key: CodecNode, value: CodecNode, k: Seq<char>, v: Seq<char>)
    requires
        representation_of(key) == Ok::<Seq<char>, ExpansionErrorView>(k),
        representation_of(value) == Ok::<Seq<char>, ExpansionErrorView>(v),
    ensures
        representation_of(CodecNode::MapOf { kind: MapKind::Hash, key: Box::new(key), value: Box::new(value) })
            == Ok::<Seq<char>, ExpansionErrorView>(
            "::std::collections::HashMap<"@ + k + ", "@ + v + ">"@,
        ),
        representation_of(CodecNode::MapOf { kind: MapKind::BTree, key: Box::new(key), value: Box::new(value) })
            == Ok::<Seq<char>, ExpansionErrorView>(
            "::std::collections::BTreeMap<"@ + k + ", "@ + v + ">"@,
        ),
        representation_of(CodecNode::MapOf { kind: MapKind::Hash, key: Box::new(key), value: Box::new(value) })
            != representation_of(
            CodecNode::MapOf { kind: MapKind::BTree, key: Box::new(key), value: Box::new(value) },
        ),
{
    reveal_strlit("::std::collections::HashMap<");
    reveal_strlit("::std::collections::BTreeMap<");
    let hash = "::std::collections::HashMap<"@ + k + ", "@ + v + ">"@;
    let tree = "::std::collections::BTreeMap<"@ + k + ", "@ + v + ">"@;
    assert(hash[20] == 'H' && tree[20] == 'B');
    assert(hash != tree);
}

/// Containers keep their shape in their representation type: an option
/// is an `Option` of its content's representation, a sequence a `Vec`, a
/// result a `Result` of its two sides; a custom type is decoded as its
/// own representation, whatever its id.
pub proof fn lemma_containers_keep_their_shape(inner: CodecNode, other: CodecNode, k: Seq<char>, v: Seq<char>, id: String)
    requires
        representation_of(inner) == Ok::<Seq<char>, ExpansionErrorView>(k),
        representation_of(other) == Ok::<Seq<char>, ExpansionErrorView>(v),
    ensures
        representation_of(CodecNode::Optional(Box::new(inner))) == Ok::<Seq<char>, ExpansionErrorView>(
            "Option<"@ + k + ">"@,
        ),
        representation_of(CodecNode::Sequence(Box::new(inner))) == Ok::<Seq<char>, ExpansionErrorView>(
            "Vec<"@ + k + ">"@,
        ),
        representation_of(CodecNode::Result { ok: Box::new(inner), err: Box::new(other) }) == Ok::<
            Seq<char>,
            ExpansionErrorView,
        >("Result<"@ + k + ", "@ + v + ">"@),
        representation_of(CodecNode::Custom { id, representation: Box::new(inner) }) == Ok::<
            Seq<char>,
            ExpansionErrorView,
        >(k),
{
}

} // verus!
