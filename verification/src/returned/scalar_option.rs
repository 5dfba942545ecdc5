//! Optional scalars returned in one slot.
use vstd::prelude::*;

use crate::ast::Primitive;
use crate::expansion::Target;
use crate::returned::FailureReturn;

verus! {

/// What an optional-scalar wrapper gives back when it fails.
pub struct Failure;

/// The failure return of an optional-scalar wrapper on `target`.
pub open spec fn failure_on(target: Target) -> FailureReturn {
    match target {
        Target::Native => FailureReturn::EmptyBuffer,
        Target::Wasm32 => FailureReturn::NotANumber,
    }
}

impl Failure {
    /// An empty encoded buffer on native targets; on WebAssembly an absent
    /// value travels as a NaN, so the wrapper returns NaN.
    pub fn render(self, target: Target) -> (failure: FailureReturn)
        ensures
            failure == failure_on(target),
    {
        match target {
            Target::Native => FailureReturn::EmptyBuffer,
            Target::Wasm32 => FailureReturn::NotANumber,
        }
    }
}

/// A present scalar read from `value` as the `f64` a WebAssembly optional
/// scalar travels in: a flag as one or zero, a double as it is, any other
/// number converted.
pub open spec fn spec_scalar(primitive: Primitive, value: Seq<char>) -> Seq<char> {
    match primitive {
        Primitive::Bool => "if "@ + value + " { 1.0 } else { 0.0 }"@,
        Primitive::F64 => value,
        _ => value + " as f64"@,
    }
}

/// Writes a present scalar as an `f64`; see [`spec_scalar`].
pub fn scalar(primitive: Primitive, value: &str) -> (text: String)
    ensures
        text@ == spec_scalar(primitive, value@),
{
    match primitive {
        Primitive::Bool => {
            let mut text = "if ".to_owned();
            text.append(value);
            text.append(" { 1.0 } else { 0.0 }");
            text
        },
        Primitive::F64 => value.to_owned(),
        _ => {
            let mut text = value.to_owned();
            text.append(" as f64");
            text
        },
    }
}

/// The return type and body that hand back the optional scalar held in
/// `value`: encoded in a buffer on native targets; on WebAssembly the
/// scalar as an `f64`, with NaN for none.
pub open spec fn spec_value(target: Target, primitive: Primitive, value: Seq<char>) -> (Seq<char>, Seq<char>) {
    match target {
        Target::Native => (
            "-> ::boltffi::__private::FfiBuf"@,
            "::boltffi::__private::FfiBuf::wire_encode(&"@ + value + ")"@,
        ),
        Target::Wasm32 => (
            "-> f64"@,
            "match "@ + value + " { Some(__boltffi_value) => "@ + spec_scalar(
                primitive,
                "__boltffi_value"@,
            ) + ", None => f64::NAN, }"@,
        ),
    }
}

/// The return type and body of an absent optional scalar.
pub open spec fn spec_empty(target: Target) -> (Seq<char>, Seq<char>) {
    match target {
        Target::Native => ("-> ::boltffi::__private::FfiBuf"@, "::boltffi::__private::FfiBuf::default()"@),
        Target::Wasm32 => ("-> f64"@, "f64::NAN"@),
    }
}

/// Writes the return of the optional scalar held in `value`; see
/// [`spec_value`].
pub fn value_tokens(target: Target, primitive: Primitive, value: &str) -> (tokens: (String, String))
    ensures
        (tokens.0@, tokens.1@) == spec_value(target, primitive, value@),
{
    match target {
        Target::Native => {
            let mut body = "::boltffi::__private::FfiBuf::wire_encode(&".to_owned();
            body.append(value);
            body.append(")");
            ("-> ::boltffi::__private::FfiBuf".to_owned(), body)
        },
        Target::Wasm32 => {
            let mut body = "match ".to_owned();
            body.append(value);
            body.append(" { Some(__boltffi_value) => ");
            let some = scalar(primitive, "__boltffi_value");
            body.append(some.as_str());
            body.append(", None => f64::NAN, }");
            ("-> f64".to_owned(), body)
        },
    }
}

/// Writes the return of an absent optional scalar; see [`spec_empty`].
pub fn empty_tokens(target: Target) -> (tokens: (String, String))
    ensures
        (tokens.0@, tokens.1@) == spec_empty(target),
{
    match target {
        Target::Native => (
            "-> ::boltffi::__private::FfiBuf".to_owned(),
            "::boltffi::__private::FfiBuf::default()".to_owned(),
        ),
        Target::Wasm32 => ("-> f64".to_owned(), "f64::NAN".to_owned()),
    }
}

/// The early return of an optional-scalar wrapper: the absent value.
pub fn failure_tokens(target: Target) -> (text: String)
    ensures
        text@ == "return "@ + spec_empty(target).1 + ";"@,
{
    let (_, body) = empty_tokens(target);
    let mut text = "return ".to_owned();
    text.append(body.as_str());
    text.append(";");
    text
}

} // verus!
