//! How a value holding custom types is converted to the form the wire
//! carries: each custom type through its `into_ffi` converter, and every
//! container that holds one rebuilt around its converted parts.
use vstd::prelude::*;

use crate::custom::{
    ConverterRenderer, CustomTypeConverter, any_custom, contains_custom, converter_text, has_custom,
};
use crate::expansion::{ExpansionError, ExpansionErrorView};
use crate::text::{decimal, decimal_string, text_eq};
use crate::wire::{CodecNode, require_runtime_wire, spec_supported};

verus! {

/// The converters of one custom type.
pub struct CustomConverters {
    pub id: String,
    /// Turns the custom value into its representation.
    pub into_ffi: CustomTypeConverter,
    /// Turns the representation back into the custom value.
    pub try_from_ffi: CustomTypeConverter,
}

/// Whether the value being converted is owned or borrowed: an owned value
/// is taken apart, a borrowed one is read through references.
#[derive(Clone, Copy, Debug, Eq, PartialEq, Structural)]
pub enum ValueMode {
    Owned,
    Borrowed,
}

/// Whether entry `i` is the first of `table` for the custom type `id`.
pub open spec fn first_entry(table: Seq<CustomConverters>, id: Seq<char>, i: int) -> bool {
    &&& 0 <= i < table.len()
    &&& table[i].id@ == id
    &&& forall|j: int| 0 <= j < i ==> table[j].id@ != id
}

/// Whether `table` has converters for the custom type `id`.
pub open spec fn registered(table: Seq<CustomConverters>, id: Seq<char>) -> bool {
    exists|i: int| 0 <= i < table.len() && table[i].id@ == id
}

/// The converters of the custom type `id`: its first entry in `table`.
pub open spec fn converters_of(table: Seq<CustomConverters>, id: Seq<char>) -> CustomConverters {
    table[choose|i: int| first_entry(table, id, i)]
}

/// Whether every custom type in `codec` has converters in `table`.
pub open spec fn all_registered(codec: CodecNode, table: Seq<CustomConverters>) -> bool
    decreases codec, 0int,
{
    match codec {
        CodecNode::Custom { id, representation } => registered(table, id@) && all_registered(
            *representation,
            table,
        ),
        CodecNode::Optional(inner) => all_registered(*inner, table),
        CodecNode::Sequence(element) => all_registered(*element, table),
        CodecNode::Result { ok, err } => all_registered(*ok, table) && all_registered(*err, table),
        CodecNode::Tuple(elements) => all_registered_in(elements@, table),
        CodecNode::MapOf { key, value, .. } => all_registered(*key, table) && all_registered(
            *value,
            table,
        ),
        _ => true,
    }
}

/// Whether every custom type in `codecs` has converters in `table`.
pub open spec fn all_registered_in(codecs: Seq<CodecNode>, table: Seq<CustomConverters>) -> bool
    decreases codecs, 1int,
{
    if codecs.len() == 0 {
        true
    } else {
        all_registered_in(codecs.drop_last(), table) && all_registered(codecs.last(), table)
    }
}

/// The converted text where there is one, and otherwise the value itself.
pub open spec fn applied(converted: Option<Seq<char>>, value: Seq<char>) -> Seq<char> {
    match converted {
        Some(text) => text,
        None => value,
    }
}

/// Field `index` of the tuple `value`, by reference when it is borrowed.
pub open spec fn spec_field(value: Seq<char>, index: nat, mode: ValueMode) -> Seq<char> {
    (if mode == ValueMode::Borrowed {
        "&("@
    } else {
        "("@
    }) + value + ")."@ + decimal(index)
}

/// How a container's items are walked: by value or by reference.
pub open spec fn spec_walk(mode: ValueMode) -> Seq<char> {
    if mode == ValueMode::Borrowed {
        ".iter()"@
    } else {
        ".into_iter()"@
    }
}

/// The expression that converts `value`, of the codec `codec`, into what
/// the wire carries, or `None` where the codec holds no custom type and
/// the value crosses unchanged:
/// - a custom type calls its `into_ffi` converter, on a reference to an
///   owned value, and converts the representation it gets in turn;
/// - an option maps its content; a sequence and a map are walked and
///   collected into a `Vec`; a result converts either side; a tuple is
///   rebuilt from its converted fields.
/// The representation is converted before the converter is looked at,
/// and the parts of a container in order; the first failure is the result.
pub open spec fn outgoing_of(
    codec: CodecNode,
    table: Seq<CustomConverters>,
    mode: ValueMode,
    value: Seq<char>,
) -> Result<Option<Seq<char>>, ExpansionErrorView>
    decreases codec, 0int,
{
    match codec {
        CodecNode::Custom { id, representation } => match outgoing_of(
            *representation,
            table,
            mode,
            "__boltffi_representation"@,
        ) {
            Err(error) => Err(error),
            Ok(converted) => match converter_text(converters_of(table, id@).into_ffi) {
                Err(error) => Err(error),
                Ok(converter) => {
                    let custom = "("@ + converter + ")("@ + (if mode == ValueMode::Owned {
                        "&"@
                    } else {
                        Seq::empty()
                    }) + value + ")"@;
                    Ok(
                        Some(
                            match converted {
                                None => custom,
                                Some(text) => "{ let __boltffi_representation = "@ + custom
                                    + "; "@ + text + " }"@,
                            },
                        ),
                    )
                },
            },
        },
        CodecNode::Optional(inner) => match outgoing_of(*inner, table, mode, "value"@) {
            Err(error) => Err(error),
            Ok(None) => Ok(None),
            Ok(Some(text)) => Ok(
                Some(
                    value + (if mode == ValueMode::Borrowed {
                        ".as_ref()"@
                    } else {
                        Seq::empty()
                    }) + ".map(|value| "@ + text + ")"@,
                ),
            ),
        },
        CodecNode::Sequence(element) => match outgoing_of(*element, table, mode, "value"@) {
            Err(error) => Err(error),
            Ok(None) => Ok(None),
            Ok(Some(text)) => Ok(
                Some(
                    value + spec_walk(mode) + ".map(|value| "@ + text + ").collect::<Vec<_>>()"@,
                ),
            ),
        },
        CodecNode::Result { ok, err } => match outgoing_of(*ok, table, mode, "value"@) {
            Err(error) => Err(error),
            Ok(ok) => match outgoing_of(*err, table, mode, "error"@) {
                Err(error) => Err(error),
                Ok(err) => if ok is None && err is None {
                    Ok(None)
                } else {
                    Ok(
                        Some(
                            "match "@ + value + " { Ok(value) => Ok("@ + applied(ok, "value"@)
                                + "), Err(error) => Err("@ + applied(err, "error"@) + "), }"@,
                        ),
                    )
                },
            },
        },
        CodecNode::MapOf { key, value: item, .. } => match outgoing_of(*key, table, mode, "key"@) {
            Err(error) => Err(error),
            Ok(key) => match outgoing_of(*item, table, mode, "value"@) {
                Err(error) => Err(error),
                Ok(item) => if key is None && item is None {
                    Ok(None)
                } else {
                    Ok(
                        Some(
                            value + spec_walk(mode) + ".map(|(key, value)| ("@ + applied(
                                key,
                                "key"@,
                            ) + ", "@ + applied(item, "value"@) + ")).collect::<Vec<_>>()"@,
                        ),
                    )
                },
            },
        },
        CodecNode::Tuple(elements) => match outgoing_fields(elements@, table, mode, value) {
            Err(error) => Err(error),
            Ok((changed, fields)) => if changed {
                Ok(Some("("@ + fields + ")"@))
            } else {
                Ok(None)
            },
        },
        _ => Ok(None),
    }
}

/// The fields of the tuple `value` whose elements are `codecs`, each
/// converted and followed by `, `, and whether any of them changed.
pub open spec fn outgoing_fields(
    codecs: Seq<CodecNode>,
    table: Seq<CustomConverters>,
    mode: ValueMode,
    value: Seq<char>,
) -> Result<(bool, Seq<char>), ExpansionErrorView>
    decreases codecs, 1int,
{
    if codecs.len() == 0 {
        Ok((false, Seq::empty()))
    } else {
        match outgoing_fields(codecs.drop_last(), table, mode, value) {
            Err(error) => Err(error),
            Ok((changed, before)) => {
                let field = spec_field(value, (codecs.len() - 1) as nat, mode);
                match outgoing_of(codecs.last(), table, mode, field) {
                    Err(error) => Err(error),
                    Ok(converted) => Ok(
                        (changed || converted is Some, before + applied(converted, field) + ", "@),
                    ),
                }
            },
        }
    }
}

/// A converted text taken by its view.
pub open spec fn converted_view(result: Result<Option<String>, ExpansionError>) -> Result<Option<Seq<char>>, ExpansionErrorView> {
    match result {
        Ok(Some(text)) => Ok(Some(text@)),
        Ok(None) => Ok(None),
        Err(error) => Err(error@),
    }
}

fn converters_for<'a>(table: &'a Vec<CustomConverters>, id: &str) -> (found: &'a CustomConverters)
    requires
        registered(table@, id@),
    ensures
        *found == converters_of(table@, id@),
{
    let mut i: usize = 0;
    while i < table.len()
        invariant
            i <= table.len(),
            registered(table@, id@),
            forall|j: int| 0 <= j < i ==> table@[j].id@ != id@,
        decreases table.len() - i,
    {
        if text_eq(table[i].id.as_str(), id) {
            proof {
                assert(first_entry(table@, id@, i as int));
                let chosen = choose|k: int| first_entry(table@, id@, k);
                assert(first_entry(table@, id@, chosen));
                if chosen < i {
                    assert(table@[chosen].id@ != id@);
                } else if chosen > i {
                    assert(table@[i as int].id@ != id@);
                }
            }
            return &table[i];
        }
        i = i + 1;
    }
    proof {
        let k = choose|k: int| 0 <= k < table@.len() && table@[k].id@ == id@;
        assert(table@[k].id@ != id@);
    }
    &table[0]
}

fn converted_or(converted: &Option<String>, value: &str) -> (text: String)
    ensures
        text@ == applied(
            match converted {
                Some(t) => Some(t@),
                None => None,
            },
            value@,
        ),
{
    match converted {
        Some(text) => text.clone(),
        None => value.to_owned(),
    }
}

/// Writes the conversion of `value`, or `None` where it crosses unchanged;
/// see [`outgoing_of`].
fn outgoing_text(
    codec: &CodecNode,
    table: &Vec<CustomConverters>,
    mode: ValueMode,
    value: &str,
) -> (result: Result<Option<String>, ExpansionError>)
    requires
        all_registered(*codec, table@),
    ensures
        converted_view(result) == outgoing_of(*codec, table@, mode, value@),
    decreases codec, 0int,
{
    proof {
        reveal_strlit("");
        assert(""@ =~= Seq::<char>::empty());
    }
    match codec {
        CodecNode::Custom { id, representation } => {
            let converted = match outgoing_text(representation, table, mode, "__boltffi_representation") {
                Ok(converted) => converted,
                Err(error) => return Err(error),
            };
            let converters = converters_for(table, id.as_str());
            let converter = match ConverterRenderer::new(&converters.into_ffi).render() {
                Ok(converter) => converter,
                Err(error) => return Err(error),
            };
            let mut custom = "(".to_owned();
            custom.append(converter.as_str());
            custom.append(")(");
            if mode == ValueMode::Owned {
                custom.append("&");
            }
            custom.append(value);
            custom.append(")");
            match converted {
                None => Ok(Some(custom)),
                Some(text) => {
                    let mut block = "{ let __boltffi_representation = ".to_owned();
                    block.append(custom.as_str());
                    block.append("; ");
                    block.append(text.as_str());
                    block.append(" }");
                    Ok(Some(block))
                },
            }
        },
        CodecNode::Optional(inner) => match outgoing_text(inner, table, mode, "value") {
            Err(error) => Err(error),
            Ok(None) => Ok(None),
            Ok(Some(text)) => {
                let mut out = value.to_owned();
                if mode == ValueMode::Borrowed {
                    out.append(".as_ref()");
                }
                out.append(".map(|value| ");
                out.append(text.as_str());
                out.append(")");
                Ok(Some(out))
            },
        },
        CodecNode::Sequence(element) => match outgoing_text(element, table, mode, "value") {
            Err(error) => Err(error),
            Ok(None) => Ok(None),
            Ok(Some(text)) => {
                let mut out = value.to_owned();
                out.append(walk(mode).as_str());
                out.append(".map(|value| ");
                out.append(text.as_str());
                out.append(").collect::<Vec<_>>()");
                Ok(Some(out))
            },
        },
        CodecNode::Result { ok, err } => {
            let ok = match outgoing_text(ok, table, mode, "value") {
                Ok(ok) => ok,
                Err(error) => return Err(error),
            };
            let err = match outgoing_text(err, table, mode, "error") {
                Ok(err) => err,
                Err(error) => return Err(error),
            };
            if ok.is_none() && err.is_none() {
                return Ok(None);
            }
            let mut out = "match ".to_owned();
            out.append(value);
            out.append(" { Ok(value) => Ok(");
            out.append(converted_or(&ok, "value").as_str());
            out.append("), Err(error) => Err(");
            out.append(converted_or(&err, "error").as_str());
            out.append("), }");
            Ok(Some(out))
        },
        CodecNode::MapOf { key, value: item, .. } => {
            let key = match outgoing_text(key, table, mode, "key") {
                Ok(key) => key,
                Err(error) => return Err(error),
            };
            let item = match outgoing_text(item, table, mode, "value") {
                Ok(item) => item,
                Err(error) => return Err(error),
            };
            if key.is_none() && item.is_none() {
                return Ok(None);
            }
            let mut out = value.to_owned();
            out.append(walk(mode).as_str());
            out.append(".map(|(key, value)| (");
            out.append(converted_or(&key, "key").as_str());
            out.append(", ");
            out.append(converted_or(&item, "value").as_str());
            out.append(")).collect::<Vec<_>>()");
            Ok(Some(out))
        },
        CodecNode::Tuple(elements) => match fields_text(elements, table, mode, value) {
            Err(error) => Err(error),
            Ok((changed, fields)) => if changed {
                let mut out = "(".to_owned();
                out.append(fields.as_str());
                out.append(")");
                Ok(Some(out))
            } else {
                Ok(None)
            },
        },
        _ => Ok(None),
    }
}

fn walk(mode: ValueMode) -> (text: String)
    ensures
        text@ == spec_walk(mode),
{
    match mode {
        ValueMode::Borrowed => ".iter()".to_owned(),
        ValueMode::Owned => ".into_iter()".to_owned(),
    }
}

fn field(value: &str, index: usize, mode: ValueMode) -> (text: String)
    ensures
        text@ == spec_field(value@, index as nat, mode),
{
    let mut text = match mode {
        ValueMode::Borrowed => "&(".to_owned(),
        ValueMode::Owned => "(".to_owned(),
    };
    text.append(value);
    text.append(").");
    let digits = decimal_string(index);
    text.append(digits.as_str());
    text
}

/// Once converting a prefix of a tuple's fields fails, converting them all
/// fails the same way.
proof fn lemma_fields_error_sticks(
    codecs: Seq<CodecNode>,
    table: Seq<CustomConverters>,
    mode: ValueMode,
    value: Seq<char>,
    n: int,
)
    requires
        0 <= n <= codecs.len(),
        outgoing_fields(codecs.take(n), table, mode, value) is Err,
    ensures
        outgoing_fields(codecs, table, mode, value) == outgoing_fields(codecs.take(n), table, mode, value),
    decreases codecs.len() - n,
{
    if n < codecs.len() {
        assert(codecs.take(n + 1).drop_last() =~= codecs.take(n));
        lemma_fields_error_sticks(codecs, table, mode, value, n + 1);
    } else {
        assert(codecs.take(n) =~= codecs);
    }
}

/// What every custom type of a prefix of `codecs` needs in `table`.
proof fn lemma_registered_prefix(codecs: Seq<CodecNode>, table: Seq<CustomConverters>, n: int)
    requires
        0 <= n <= codecs.len(),
        all_registered_in(codecs, table),
    ensures
        all_registered_in(codecs.take(n), table),
        n < codecs.len() ==> all_registered(codecs[n], table),
    decreases codecs.len() - n,
{
    if n < codecs.len() {
        if n + 1 == codecs.len() {
            assert(codecs.take(n + 1) =~= codecs);
        }
        lemma_registered_prefix(codecs, table, n + 1);
        assert(codecs.take(n + 1).drop_last() =~= codecs.take(n));
        assert(codecs.take(n + 1).last() == codecs[n]);
    } else {
        assert(codecs.take(n) =~= codecs);
    }
}

fn fields_text(
    codecs: &Vec<CodecNode>,
    table: &Vec<CustomConverters>,
    mode: ValueMode,
    value: &str,
) -> (result: Result<(bool, String), ExpansionError>)
    requires
        all_registered_in(codecs@, table@),
    ensures
        match result {
            Ok((changed, text)) => outgoing_fields(codecs@, table@, mode, value@) == Ok::<
                (bool, Seq<char>),
                ExpansionErrorView,
            >((changed, text@)),
            Err(error) => outgoing_fields(codecs@, table@, mode, value@) == Err::<
                (bool, Seq<char>),
                ExpansionErrorView,
            >(error@),
        },
    decreases codecs, 1int,
{
    let mut changed = false;
    let mut text = String::new();
    let mut i: usize = 0;
    while i < codecs.len()
        invariant
            i <= codecs.len(),
            all_registered_in(codecs@, table@),
            outgoing_fields(codecs@.take(i as int), table@, mode, value@) == Ok::<
                (bool, Seq<char>),
                ExpansionErrorView,
            >((changed, text@)),
        decreases codecs.len() - i,
    {
        proof {
            assert(codecs@.take(i + 1).drop_last() =~= codecs@.take(i as int));
            assert(codecs@.take(i + 1).last() == codecs@[i as int]);
            assert(codecs@.take(i + 1).len() == i + 1);
            assert(decreases_to!(codecs => codecs@[i as int]));
            lemma_registered_prefix(codecs@, table@, i as int);
        }
        let place = field(value, i, mode);
        let converted = match outgoing_text(&codecs[i], table, mode, place.as_str()) {
            Ok(converted) => converted,
            Err(error) => {
                proof {
                    lemma_fields_error_sticks(codecs@, table@, mode, value@, i + 1);
                }
                return Err(error);
            },
        };
        if converted.is_some() {
            changed = true;
        }
        let part = converted_or(&converted, place.as_str());
        text.append(part.as_str());
        text.append(", ");
        i = i + 1;
    }
    proof {
        assert(codecs@.take(codecs.len() as int) =~= codecs@);
    }
    Ok((changed, text))
}

/// Converts `value`, of the codec `codec`, into what the wire carries:
/// the value itself where the codec holds no custom type; see
/// [`outgoing_of`].
pub fn outgoing(
    codec: &CodecNode,
    table: &Vec<CustomConverters>,
    mode: ValueMode,
    value: &str,
) -> (result: Result<String, ExpansionError>)
    requires
        all_registered(*codec, table@),
    ensures
        match outgoing_of(*codec, table@, mode, value@) {
            Ok(converted) => result matches Ok(text) && text@ == applied(converted, value@),
            Err(error) => result matches Err(e) && e@ == error,
        },
{
    match outgoing_text(codec, table, mode, value) {
        Ok(converted) => Ok(converted_or(&converted, value)),
        Err(error) => Err(error),
    }
}

/// An incoming transform applied to `value`: the call of the transform on
/// it and whether that call can fail, or the value itself, which cannot.
pub open spec fn spec_apply(transform: Option<(Seq<char>, bool)>, value: Seq<char>) -> (Seq<char>, bool) {
    match transform {
        Some((tokens, fallible)) => ("("@ + tokens + ")("@ + value + ")"@, fallible),
        None => (value, false),
    }
}

/// The transform applied to `value`, returning the error from the
/// enclosing closure where it fails.
pub open spec fn spec_or_return(transform: Option<(Seq<char>, bool)>, value: Seq<char>) -> Seq<char> {
    let (applied, fallible) = spec_apply(transform, value);
    if fallible {
        "match "@ + applied + " { Ok(value) => value, Err(error) => return Err(error), }"@
    } else {
        applied
    }
}

/// The closure that turns a decoded value of the codec `codec` into the
/// parameter's Rust value, with whether it can fail, or `None` where the
/// codec holds no custom type:
/// - a custom type calls its `try_from_ffi` converter, which can fail,
///   after converting its representation;
/// - an option maps its content; a sequence and a map are walked and
///   collected, into a `Result` when a part can fail; a result converts
///   either side; a tuple is rebuilt from its converted fields.
/// The parts are converted in order and the first failure is the result.
pub open spec fn incoming_of(codec: CodecNode, table: Seq<CustomConverters>) -> Result<
    Option<(Seq<char>, bool)>,
    ExpansionErrorView,
>
    decreases codec, 0int,
{
    match codec {
        CodecNode::Custom { id, representation } => match incoming_of(*representation, table) {
            Err(error) => Err(error),
            Ok(inner) => match converter_text(converters_of(table, id@).try_from_ffi) {
                Err(error) => Err(error),
                Ok(converter) => Ok(
                    Some(
                        (
                            match inner {
                                None => converter,
                                Some(_) => "|__boltffi_value| { let __boltffi_representation = "@
                                    + spec_or_return(inner, "__boltffi_value"@) + "; ("@
                                    + converter + ")(__boltffi_representation) }"@,
                            },
                            true,
                        ),
                    ),
                ),
            },
        },
        CodecNode::Optional(inner) => match incoming_of(*inner, table) {
            Err(error) => Err(error),
            Ok(None) => Ok(None),
            Ok(Some(transform)) => {
                let (applied, fallible) = spec_apply(Some(transform), "value"@);
                Ok(
                    Some(
                        if fallible {
                            (
                                "|__boltffi_value| { match __boltffi_value { Some(value) => "@
                                    + applied + ".map(Some), None => Ok(None), } }"@,
                                true,
                            )
                        } else {
                            (
                                "|__boltffi_value| { __boltffi_value.map(|value| "@ + applied
                                    + ") }"@,
                                false,
                            )
                        },
                    ),
                )
            },
        },
        CodecNode::Sequence(element) => match incoming_of(*element, table) {
            Err(error) => Err(error),
            Ok(None) => Ok(None),
            Ok(Some(transform)) => {
                let (applied, fallible) = spec_apply(Some(transform), "value"@);
                Ok(
                    Some(
                        (
                            "|__boltffi_value| { __boltffi_value.into_iter().map(|value| "@ + applied
                                + (if fallible {
                                ").collect::<Result<Vec<_>, _>>() }"@
                            } else {
                                ").collect::<Vec<_>>() }"@
                            }),
                            fallible,
                        ),
                    ),
                )
            },
        },
        CodecNode::Result { ok, err } => match incoming_of(*ok, table) {
            Err(error) => Err(error),
            Ok(ok) => match incoming_of(*err, table) {
                Err(error) => Err(error),
                Ok(err) => if ok is None && err is None {
                    Ok(None)
                } else {
                    let (ok_value, ok_fallible) = spec_apply(ok, "value"@);
                    let (err_value, err_fallible) = spec_apply(err, "error"@);
                    let fallible = ok_fallible || err_fallible;
                    let ok_arm = if ok_fallible {
                        ok_value + ".map(Ok)"@
                    } else if fallible {
                        "Ok(Ok("@ + ok_value + "))"@
                    } else {
                        "Ok("@ + ok_value + ")"@
                    };
                    let err_arm = if err_fallible {
                        err_value + ".map(Err)"@
                    } else if fallible {
                        "Ok(Err("@ + err_value + "))"@
                    } else {
                        "Err("@ + err_value + ")"@
                    };
                    Ok(
                        Some(
                            (
                                "|__boltffi_value| { match __boltffi_value { Ok(value) => "@ + ok_arm
                                    + ", Err(error) => "@ + err_arm + ", } }"@,
                                fallible,
                            ),
                        ),
                    )
                },
            },
        },
        CodecNode::MapOf { key, value, .. } => match incoming_of(*key, table) {
            Err(error) => Err(error),
            Ok(key) => match incoming_of(*value, table) {
                Err(error) => Err(error),
                Ok(item) => if key is None && item is None {
                    Ok(None)
                } else {
                    let fallible = spec_apply(key, "key"@).1 || spec_apply(item, "value"@).1;
                    let pair = spec_or_return(key, "key"@) + ", "@ + spec_or_return(item, "value"@);
                    Ok(
                        Some(
                            if fallible {
                                (
                                    "|__boltffi_value| { __boltffi_value.into_iter().map(|(key, value)| { Ok(("@
                                        + pair + ")) }).collect::<Result<_, _>>() }"@,
                                    true,
                                )
                            } else {
                                (
                                    "|__boltffi_value| { __boltffi_value.into_iter().map(|(key, value)| ("@
                                        + pair + ")).collect::<_>() }"@,
                                    false,
                                )
                            },
                        ),
                    )
                },
            },
        },
        CodecNode::Tuple(elements) => match incoming_fields(elements@, table) {
            Err(error) => Err(error),
            Ok((changed, fallible, values)) => if !changed {
                Ok(None)
            } else if fallible {
                Ok(Some(("|__boltffi_value| { Ok(("@ + values + ")) }"@, true)))
            } else {
                Ok(Some(("|__boltffi_value| { ("@ + values + ") }"@, false)))
            },
        },
        _ => Ok(None),
    }
}

/// The converted fields of a decoded tuple whose elements are `codecs`,
/// each followed by `, `, and whether any changed or can fail.
pub open spec fn incoming_fields(codecs: Seq<CodecNode>, table: Seq<CustomConverters>) -> Result<
    (bool, bool, Seq<char>),
    ExpansionErrorView,
>
    decreases codecs, 1int,
{
    if codecs.len() == 0 {
        Ok((false, false, Seq::empty()))
    } else {
        match incoming_fields(codecs.drop_last(), table) {
            Err(error) => Err(error),
            Ok((changed, fallible, before)) => match incoming_of(codecs.last(), table) {
                Err(error) => Err(error),
                Ok(transform) => Ok(
                    (
                        changed || transform is Some,
                        fallible || spec_apply(transform, Seq::empty()).1,
                        before + spec_or_return(
                            transform,
                            "(__boltffi_value)."@ + decimal((codecs.len() - 1) as nat),
                        ) + ", "@,
                    ),
                ),
            },
        }
    }
}

/// An incoming transform taken by its view.
pub open spec fn transform_view(result: Result<Option<(String, bool)>, ExpansionError>) -> Result<
    Option<(Seq<char>, bool)>,
    ExpansionErrorView,
> {
    match result {
        Ok(Some((tokens, fallible))) => Ok(Some((tokens@, fallible))),
        Ok(None) => Ok(None),
        Err(error) => Err(error@),
    }
}

fn apply_text(transform: &Option<(String, bool)>, value: &str) -> (applied: (String, bool))
    ensures
        (applied.0@, applied.1) == spec_apply(
            match transform {
                Some((t, f)) => Some((t@, *f)),
                None => None,
            },
            value@,
        ),
{
    match transform {
        Some((tokens, fallible)) => {
            let mut text = "(".to_owned();
            text.append(tokens.as_str());
            text.append(")(");
            text.append(value);
            text.append(")");
            (text, *fallible)
        },
        None => (value.to_owned(), false),
    }
}

fn or_return_text(transform: &Option<(String, bool)>, value: &str) -> (text: String)
    ensures
        text@ == spec_or_return(
            match transform {
                Some((t, f)) => Some((t@, *f)),
                None => None,
            },
            value@,
        ),
{
    let (applied, fallible) = apply_text(transform, value);
    if fallible {
        let mut text = "match ".to_owned();
        text.append(applied.as_str());
        text.append(" { Ok(value) => value, Err(error) => return Err(error), }");
        text
    } else {
        applied
    }
}

fn incoming_text(codec: &CodecNode, table: &Vec<CustomConverters>) -> (result: Result<Option<(String, bool)>, ExpansionError>)
    requires
        all_registered(*codec, table@),
    ensures
        transform_view(result) == incoming_of(*codec, table@),
    decreases codec, 0int,
{
    match codec {
        CodecNode::Custom { id, representation } => {
            let inner = match incoming_text(representation, table) {
                Ok(inner) => inner,
                Err(error) => return Err(error),
            };
            let converters = converters_for(table, id.as_str());
            let converter = match ConverterRenderer::new(&converters.try_from_ffi).render() {
                Ok(converter) => converter,
                Err(error) => return Err(error),
            };
            if inner.is_none() {
                return Ok(Some((converter, true)));
            }
            let mut text = "|__boltffi_value| { let __boltffi_representation = ".to_owned();
            text.append(or_return_text(&inner, "__boltffi_value").as_str());
            text.append("; (");
            text.append(converter.as_str());
            text.append(")(__boltffi_representation) }");
            Ok(Some((text, true)))
        },
        CodecNode::Optional(inner) => {
            let inner = match incoming_text(inner, table) {
                Ok(inner) => inner,
                Err(error) => return Err(error),
            };
            if inner.is_none() {
                return Ok(None);
            }
            let (applied, fallible) = apply_text(&inner, "value");
            if fallible {
                let mut text = "|__boltffi_value| { match __boltffi_value { Some(value) => ".to_owned();
                text.append(applied.as_str());
                text.append(".map(Some), None => Ok(None), } }");
                Ok(Some((text, true)))
            } else {
                let mut text = "|__boltffi_value| { __boltffi_value.map(|value| ".to_owned();
                text.append(applied.as_str());
                text.append(") }");
                Ok(Some((text, false)))
            }
        },
        CodecNode::Sequence(element) => {
            let element = match incoming_text(element, table) {
                Ok(element) => element,
                Err(error) => return Err(error),
            };
            if element.is_none() {
                return Ok(None);
            }
            let (applied, fallible) = apply_text(&element, "value");
            let mut text = "|__boltffi_value| { __boltffi_value.into_iter().map(|value| ".to_owned();
            text.append(applied.as_str());
            if fallible {
                text.append(").collect::<Result<Vec<_>, _>>() }");
            } else {
                text.append(").collect::<Vec<_>>() }");
            }
            Ok(Some((text, fallible)))
        },
        CodecNode::Result { ok, err } => {
            let ok = match incoming_text(ok, table) {
                Ok(ok) => ok,
                Err(error) => return Err(error),
            };
            let err = match incoming_text(err, table) {
                Ok(err) => err,
                Err(error) => return Err(error),
            };
            if ok.is_none() && err.is_none() {
                return Ok(None);
            }
            let (ok_value, ok_fallible) = apply_text(&ok, "value");
            let (err_value, err_fallible) = apply_text(&err, "error");
            let fallible = ok_fallible || err_fallible;
            let ok_arm = if ok_fallible {
                let mut arm = ok_value.clone();
                arm.append(".map(Ok)");
                arm
            } else if fallible {
                let mut arm = "Ok(Ok(".to_owned();
                arm.append(ok_value.as_str());
                arm.append("))");
                arm
            } else {
                let mut arm = "Ok(".to_owned();
                arm.append(ok_value.as_str());
                arm.append(")");
                arm
            };
            let err_arm = if err_fallible {
                let mut arm = err_value.clone();
                arm.append(".map(Err)");
                arm
            } else if fallible {
                let mut arm = "Ok(Err(".to_owned();
                arm.append(err_value.as_str());
                arm.append("))");
                arm
            } else {
                let mut arm = "Err(".to_owned();
                arm.append(err_value.as_str());
                arm.append(")");
                arm
            };
            let mut text = "|__boltffi_value| { match __boltffi_value { Ok(value) => ".to_owned();
            text.append(ok_arm.as_str());
            text.append(", Err(error) => ");
            text.append(err_arm.as_str());
            text.append(", } }");
            Ok(Some((text, fallible)))
        },
        CodecNode::MapOf { key, value, .. } => {
            let key = match incoming_text(key, table) {
                Ok(key) => key,
                Err(error) => return Err(error),
            };
            let item = match incoming_text(value, table) {
                Ok(item) => item,
                Err(error) => return Err(error),
            };
            if key.is_none() && item.is_none() {
                return Ok(None);
            }
            let (_, key_fallible) = apply_text(&key, "key");
            let (_, item_fallible) = apply_text(&item, "value");
            let fallible = key_fallible || item_fallible;
            let mut pair = or_return_text(&key, "key");
            pair.append(", ");
            pair.append(or_return_text(&item, "value").as_str());
            if fallible {
                let mut text = "|__boltffi_value| { __boltffi_value.into_iter().map(|(key, value)| { Ok((".to_owned();
                text.append(pair.as_str());
                text.append(")) }).collect::<Result<_, _>>() }");
                Ok(Some((text, true)))
            } else {
                let mut text = "|__boltffi_value| { __boltffi_value.into_iter().map(|(key, value)| (".to_owned();
                text.append(pair.as_str());
                text.append(")).collect::<_>() }");
                Ok(Some((text, false)))
            }
        },
        CodecNode::Tuple(elements) => match incoming_fields_text(elements, table) {
            Err(error) => Err(error),
            Ok((changed, fallible, values)) => if !changed {
                Ok(None)
            } else if fallible {
                let mut text = "|__boltffi_value| { Ok((".to_owned();
                text.append(values.as_str());
                text.append(")) }");
                Ok(Some((text, true)))
            } else {
                let mut text = "|__boltffi_value| { (".to_owned();
                text.append(values.as_str());
                text.append(") }");
                Ok(Some((text, false)))
            },
        },
        _ => Ok(None),
    }
}

proof fn lemma_incoming_error_sticks(codecs: Seq<CodecNode>, table: Seq<CustomConverters>, n: int)
    requires
        0 <= n <= codecs.len(),
        incoming_fields(codecs.take(n), table) is Err,
    ensures
        incoming_fields(codecs, table) == incoming_fields(codecs.take(n), table),
    decreases codecs.len() - n,
{
    if n < codecs.len() {
        assert(codecs.take(n + 1).drop_last() =~= codecs.take(n));
        lemma_incoming_error_sticks(codecs, table, n + 1);
    } else {
        assert(codecs.take(n) =~= codecs);
    }
}

fn incoming_fields_text(codecs: &Vec<CodecNode>, table: &Vec<CustomConverters>) -> (result: Result<(bool, bool, String), ExpansionError>)
    requires
        all_registered_in(codecs@, table@),
    ensures
        match result {
            Ok((changed, fallible, text)) => incoming_fields(codecs@, table@) == Ok::<
                (bool, bool, Seq<char>),
                ExpansionErrorView,
            >((changed, fallible, text@)),
            Err(error) => incoming_fields(codecs@, table@) == Err::<
                (bool, bool, Seq<char>),
                ExpansionErrorView,
            >(error@),
        },
    decreases codecs, 1int,
{
    let mut changed = false;
    let mut fallible = false;
    let mut text = String::new();
    let mut i: usize = 0;
    while i < codecs.len()
        invariant
            i <= codecs.len(),
            all_registered_in(codecs@, table@),
            incoming_fields(codecs@.take(i as int), table@) == Ok::<
                (bool, bool, Seq<char>),
                ExpansionErrorView,
            >((changed, fallible, text@)),
        decreases codecs.len() - i,
    {
        proof {
            assert(codecs@.take(i + 1).drop_last() =~= codecs@.take(i as int));
            assert(codecs@.take(i + 1).last() == codecs@[i as int]);
            assert(codecs@.take(i + 1).len() == i + 1);
            assert(decreases_to!(codecs => codecs@[i as int]));
            lemma_registered_prefix(codecs@, table@, i as int);
        }
        let transform = match incoming_text(&codecs[i], table) {
            Ok(transform) => transform,
            Err(error) => {
                proof {
                    lemma_incoming_error_sticks(codecs@, table@, i + 1);
                }
                return Err(error);
            },
        };
        let mut place = "(__boltffi_value).".to_owned();
        place.append(decimal_string(i).as_str());
        if transform.is_some() {
            changed = true;
        }
        let (_, can_fail) = apply_text(&transform, "");
        if can_fail {
            fallible = true;
        }
        text.append(or_return_text(&transform, place.as_str()).as_str());
        text.append(", ");
        proof {
            reveal_strlit("");
            assert(""@ =~= Seq::<char>::empty());
        }
        i = i + 1;
    }
    proof {
        assert(codecs@.take(codecs.len() as int) =~= codecs@);
    }
    Ok((changed, fallible, text))
}

/// A decoded value turned into the parameter's Rust value: the
/// expression, whether it can fail, and whether it differs from the
/// decoded value.
pub struct IncomingConversion {
    pub tokens: String,
    pub fallible: bool,
    pub changed: bool,
}

/// Converts the decoded `value`, of the codec `codec`, into the
/// parameter's Rust value: the transform of [`incoming_of`] applied to it,
/// or the value itself where the codec holds no custom type.
pub fn incoming(codec: &CodecNode, table: &Vec<CustomConverters>, value: &str) -> (result: Result<IncomingConversion, ExpansionError>)
    requires
        all_registered(*codec, table@),
    ensures
        match incoming_of(*codec, table@) {
            Ok(transform) => result matches Ok(conversion) && (conversion.tokens@, conversion.fallible)
                == spec_apply(transform, value@) && conversion.changed == transform is Some,
            Err(error) => result matches Err(e) && e@ == error,
        },
{
    match incoming_text(codec, table) {
        Ok(transform) => {
            let (tokens, fallible) = apply_text(&transform, value);
            Ok(IncomingConversion { tokens, fallible, changed: transform.is_some() })
        },
        Err(error) => Err(error),
    }
}

/// A value whose codec holds no custom type crosses unchanged, in both
/// directions and whatever the converters.
pub proof fn lemma_plain_codec_is_unchanged(
    codec: CodecNode,
    table: Seq<CustomConverters>,
    mode: ValueMode,
    value: Seq<char>,
)
    requires
        !contains_custom(codec),
    ensures
        outgoing_of(codec, table, mode, value) == Ok::<Option<Seq<char>>, ExpansionErrorView>(None),
        incoming_of(codec, table) == Ok::<Option<(Seq<char>, bool)>, ExpansionErrorView>(None),
    decreases codec, 0int,
{
    match codec {
        CodecNode::Optional(inner) => {
            lemma_plain_codec_is_unchanged(*inner, table, mode, "value"@);
        },
        CodecNode::Sequence(element) => {
            lemma_plain_codec_is_unchanged(*element, table, mode, "value"@);
        },
        CodecNode::Result { ok, err } => {
            lemma_plain_codec_is_unchanged(*ok, table, mode, "value"@);
            lemma_plain_codec_is_unchanged(*err, table, mode, "error"@);
        },
        CodecNode::MapOf { key, value: item, .. } => {
            lemma_plain_codec_is_unchanged(*key, table, mode, "key"@);
            lemma_plain_codec_is_unchanged(*item, table, mode, "value"@);
        },
        CodecNode::Tuple(elements) => {
            lemma_plain_fields_are_unchanged(elements@, table, mode, value);
        },
        _ => {},
    }
}

/// The fields of a tuple none of whose elements holds a custom type are
/// unchanged.
proof fn lemma_plain_fields_are_unchanged(
    codecs: Seq<CodecNode>,
    table: Seq<CustomConverters>,
    mode: ValueMode,
    value: Seq<char>,
)
    requires
        !any_custom(codecs),
    ensures
        outgoing_fields(codecs, table, mode, value) matches Ok((changed, _)) && !changed,
        incoming_fields(codecs, table) matches Ok((changed, _, _)) && !changed,
    decreases codecs, 1int,
{
    if codecs.len() > 0 {
        lemma_plain_fields_are_unchanged(codecs.drop_last(), table, mode, value);
        lemma_plain_codec_is_unchanged(
            codecs.last(),
            table,
            mode,
            spec_field(value, (codecs.len() - 1) as nat, mode),
        );
        lemma_plain_codec_is_unchanged(codecs.last(), table, mode, Seq::empty());
    }
}

/// The encoded buffer of `value`, of the codec `codec`: the value written
/// to the wire as it is, or first converted where the codec holds a
/// custom type; the wire format must carry the codec.
pub open spec fn spec_buffer(codec: CodecNode, table: Seq<CustomConverters>, value: Seq<char>) -> Result<Seq<char>, ExpansionErrorView> {
    match spec_supported(codec) {
        Err(error) => Err(error),
        Ok(()) => if !contains_custom(codec) {
            Ok("::boltffi::__private::FfiBuf::wire_encode(&"@ + value + ")"@)
        } else {
            match outgoing_of(codec, table, ValueMode::Owned, value) {
                Err(error) => Err(error),
                Ok(converted) => {
                    let converted = applied(converted, value);
                    Ok("{ let __boltffi_wire = "@ + converted + "; ::boltffi::__private::FfiBuf::wire_encode(&__boltffi_wire) }"@)
                },
            }
        },
    }
}

/// Writes the encoded buffer of `value`; see [`spec_buffer`].
pub fn buffer(codec: &CodecNode, table: &Vec<CustomConverters>, value: &str) -> (result: Result<String, ExpansionError>)
    requires
        all_registered(*codec, table@),
    ensures
        match spec_buffer(*codec, table@, value@) {
            Ok(text) => result matches Ok(t) && t@ == text,
            Err(error) => result matches Err(e) && e@ == error,
        },
{
    match require_runtime_wire(codec) {
        Ok(()) => {},
        Err(error) => return Err(error),
    }
    if !has_custom(codec) {
        let mut text = "::boltffi::__private::FfiBuf::wire_encode(&".to_owned();
        text.append(value);
        text.append(")");
        return Ok(text);
    }
    let converted = match outgoing(codec, table, ValueMode::Owned, value) {
        Ok(converted) => converted,
        Err(error) => return Err(error),
    };
    let mut text = "{ let __boltffi_wire = ".to_owned();
    text.append(converted.as_str());
    text.append("; ::boltffi::__private::FfiBuf::wire_encode(&__boltffi_wire) }");
    Ok(text)
}

} // verus!
