//! Which codecs the runtime wire format can carry.
use vstd::prelude::*;

use crate::ast::Primitive;
use crate::expansion::{check_view, ExpansionError, ExpansionErrorView};

verus! {

/// Which standard map a map codec decodes into.
#[derive(Clone, Copy, Debug, Eq, PartialEq, Structural)]
pub enum MapKind {
    Hash,
    BTree,
}

/// How a value is encoded when it crosses the boundary.
#[derive(Debug, Eq, PartialEq)]
pub enum CodecNode {
    Primitive(Primitive),
    String,
    Bytes,
    /// A record passed by its memory layout, with its id.
    DirectRecord(String),
    /// A record passed field by field through the wire, with its id.
    EncodedRecord(String),
    CStyleEnum(String),
    DataEnum(String),
    /// A custom type with its id, carried as its representation.
    Custom { id: String, representation: Box<CodecNode> },
    Optional(Box<CodecNode>),
    Sequence(Box<CodecNode>),
    Result { ok: Box<CodecNode>, err: Box<CodecNode> },
    Tuple(Vec<CodecNode>),
    MapOf { kind: MapKind, key: Box<CodecNode>, value: Box<CodecNode> },
    ClassHandle(String),
    CallbackHandle(String),
}

/// The largest tuple the wire format carries.
pub const MAX_TUPLE_ARITY: usize = 12;

pub open spec fn unsupported(reason: Seq<char>) -> Result<(), ExpansionErrorView> {
    Err(ExpansionErrorView::UnsupportedExpansion(reason))
}

/// Whether the wire format carries a codec: scalars, strings, bytes,
/// records, enums and custom types do; containers do when their parts do,
/// tuples only up to twelve elements, and maps only with a supported key.
/// Handles never travel on the wire. The first unsupported part, in
/// order, is the one reported.
pub open spec fn spec_supported(codec: CodecNode) -> Result<(), ExpansionErrorView>
    decreases codec, 0int,
{
    match codec {
        CodecNode::Optional(inner) => spec_supported(*inner),
        CodecNode::Sequence(inner) => spec_supported(*inner),
        CodecNode::Result { ok, err } => match spec_supported(*ok) {
            Err(error) => Err(error),
            Ok(()) => spec_supported(*err),
        },
        CodecNode::Tuple(elements) => if elements.len() <= MAX_TUPLE_ARITY {
            spec_supported_all(elements@)
        } else {
            unsupported("encoded tuple arity"@)
        },
        CodecNode::MapOf { key, value, .. } => match spec_supported_key(*key) {
            Err(error) => Err(error),
            Ok(()) => spec_supported(*value),
        },
        CodecNode::ClassHandle(_) => unsupported("codec node"@),
        CodecNode::CallbackHandle(_) => unsupported("codec node"@),
        _ => Ok(()),
    }
}

/// Whether the wire format carries a codec as a map key: as a value, and
/// with no float, custom type or map inside.
pub open spec fn spec_supported_key(codec: CodecNode) -> Result<(), ExpansionErrorView>
    decreases codec, 1int,
{
    match codec {
        CodecNode::Primitive(Primitive::F32) => unsupported("floating-point encoded map key"@),
        CodecNode::Primitive(Primitive::F64) => unsupported("floating-point encoded map key"@),
        CodecNode::Custom { .. } => unsupported("custom encoded map key"@),
        CodecNode::MapOf { .. } => unsupported("nested encoded map key"@),
        CodecNode::Optional(inner) => spec_supported_key(*inner),
        CodecNode::Sequence(inner) => spec_supported_key(*inner),
        CodecNode::Result { ok, err } => match spec_supported_key(*ok) {
            Err(error) => Err(error),
            Ok(()) => spec_supported_key(*err),
        },
        CodecNode::Tuple(elements) => if elements.len() <= MAX_TUPLE_ARITY {
            spec_supported_keys(elements@)
        } else {
            unsupported("encoded tuple arity"@)
        },
        _ => spec_supported(codec),
    }
}

/// Whether every codec of a list is carried; the first failure is reported.
pub open spec fn spec_supported_all(codecs: Seq<CodecNode>) -> Result<(), ExpansionErrorView>
    decreases codecs, 0int,
{
    if codecs.len() == 0 {
        Ok(())
    } else {
        match spec_supported_all(codecs.drop_last()) {
            Err(error) => Err(error),
            Ok(()) => spec_supported(codecs.last()),
        }
    }
}

/// Whether every codec of a list is carried as a key.
pub open spec fn spec_supported_keys(codecs: Seq<CodecNode>) -> Result<(), ExpansionErrorView>
    decreases codecs, 0int,
{
    if codecs.len() == 0 {
        Ok(())
    } else {
        match spec_supported_keys(codecs.drop_last()) {
            Err(error) => Err(error),
            Ok(()) => spec_supported_key(codecs.last()),
        }
    }
}

/// A codec the wire carries as a map key, it carries as a value too.
pub proof fn lemma_key_is_value(codec: CodecNode)
    ensures
        spec_supported_key(codec) is Ok ==> spec_supported(codec) is Ok,
    decreases codec,
{
    match codec {
        CodecNode::Optional(inner) => lemma_key_is_value(*inner),
        CodecNode::Sequence(inner) => lemma_key_is_value(*inner),
        CodecNode::Result { ok, err } => {
            lemma_key_is_value(*ok);
            lemma_key_is_value(*err);
        },
        CodecNode::Tuple(elements) => lemma_keys_are_values(elements@),
        _ => {},
    }
}

/// Codecs the wire carries as map keys, it carries as values too.
pub proof fn lemma_keys_are_values(codecs: Seq<CodecNode>)
    ensures
        spec_supported_keys(codecs) is Ok ==> spec_supported_all(codecs) is Ok,
    decreases codecs,
{
    if codecs.len() > 0 {
        lemma_keys_are_values(codecs.drop_last());
        lemma_key_is_value(codecs.last());
    }
}

/// Checks that the runtime wire format carries `codec`.
pub fn require_runtime_wire(codec: &CodecNode) -> (checked: Result<(), ExpansionError>)
    ensures
        check_view(checked) == spec_supported(*codec),
{
    require_supported_codec(codec)
}

fn require_supported_codec(codec: &CodecNode) -> (checked: Result<(), ExpansionError>)
    ensures
        check_view(checked) == spec_supported(*codec),
    decreases codec, 0int,
{
    match codec {
        CodecNode::Optional(inner) => require_supported_codec(inner),
        CodecNode::Sequence(inner) => require_supported_codec(inner),
        CodecNode::Result { ok, err } => {
            match require_supported_codec(ok) {
                Err(error) => Err(error),
                Ok(()) => require_supported_codec(err),
            }
        },
        CodecNode::Tuple(elements) => {
            if elements.len() <= MAX_TUPLE_ARITY {
                require_supported_all(elements, false)
            } else {
                Err(ExpansionError::UnsupportedExpansion("encoded tuple arity"))
            }
        },
        CodecNode::MapOf { key, value, .. } => {
            match require_supported_map_key(key) {
                Err(error) => Err(error),
                Ok(()) => require_supported_codec(value),
            }
        },
        CodecNode::ClassHandle(_) | CodecNode::CallbackHandle(_) => Err(
            ExpansionError::UnsupportedExpansion("codec node"),
        ),
        _ => Ok(()),
    }
}

fn require_supported_map_key(codec: &CodecNode) -> (checked: Result<(), ExpansionError>)
    ensures
        check_view(checked) == spec_supported_key(*codec),
    decreases codec, 1int,
{
    match codec {
        CodecNode::Primitive(Primitive::F32) | CodecNode::Primitive(Primitive::F64) => Err(
            ExpansionError::UnsupportedExpansion("floating-point encoded map key"),
        ),
        CodecNode::Custom { .. } => Err(ExpansionError::UnsupportedExpansion("custom encoded map key")),
        CodecNode::MapOf { .. } => Err(ExpansionError::UnsupportedExpansion("nested encoded map key")),
        CodecNode::Optional(inner) => require_supported_map_key(inner),
        CodecNode::Sequence(inner) => require_supported_map_key(inner),
        CodecNode::Result { ok, err } => {
            match require_supported_map_key(ok) {
                Err(error) => Err(error),
                Ok(()) => require_supported_map_key(err),
            }
        },
        CodecNode::Tuple(elements) => {
            if elements.len() <= MAX_TUPLE_ARITY {
                require_supported_all(elements, true)
            } else {
                Err(ExpansionError::UnsupportedExpansion("encoded tuple arity"))
            }
        },
        _ => require_supported_codec(codec),
    }
}

/// Checks every codec of a list, as keys when `as_keys` holds.
fn require_supported_all(codecs: &Vec<CodecNode>, as_keys: bool) -> (checked: Result<(), ExpansionError>)
    ensures
        check_view(checked) == if as_keys {
            spec_supported_keys(codecs@)
        } else {
            spec_supported_all(codecs@)
        },
    decreases codecs, 0int,
{
    let mut i: usize = 0;
    while i < codecs.len()
        invariant
            i <= codecs.len(),
            (if as_keys {
                spec_supported_keys(codecs@.take(i as int))
            } else {
                spec_supported_all(codecs@.take(i as int))
            }) == Ok::<(), ExpansionErrorView>(()),
        decreases codecs.len() - i,
    {
        proof {
            assert(codecs@.take(i + 1).drop_last() =~= codecs@.take(i as int));
            assert(codecs@.take(i + 1).last() == codecs@[i as int]);
        }
        let checked = if as_keys {
            require_supported_map_key(&codecs[i])
        } else {
            require_supported_codec(&codecs[i])
        };
        match checked {
            Ok(()) => {},
            Err(error) => {
                proof {
                    lemma_first_failure(codecs@, i as int + 1, as_keys);
                }
                return Err(error);
            },
        }
        i = i + 1;
    }
    proof {
        assert(codecs@.take(codecs.len() as int) =~= codecs@);
    }
    Ok(())
}

/// Once a prefix of a list fails, the whole list fails with the same error.
proof fn lemma_first_failure(codecs: Seq<CodecNode>, n: int, as_keys: bool)
    requires
        0 <= n <= codecs.len(),
        (if as_keys {
            spec_supported_keys(codecs.take(n))
        } else {
            spec_supported_all(codecs.take(n))
        }) is Err,
    ensures
        (if as_keys {
            spec_supported_keys(codecs)
        } else {
            spec_supported_all(codecs)
        }) == (if as_keys {
            spec_supported_keys(codecs.take(n))
        } else {
            spec_supported_all(codecs.take(n))
        }),
    decreases codecs.len() - n,
{
    if n == codecs.len() {
        assert(codecs.take(n) =~= codecs);
    } else {
        assert(codecs.take(n + 1).drop_last() =~= codecs.take(n));
        lemma_first_failure(codecs, n + 1, as_keys);
    }
}

} // verus!
