//! Reading an encoded parameter: the statement that checks the buffer,
//! decodes it and, for a custom type, converts the decoded value.
use vstd::prelude::*;

use crate::expansion::{ExpansionError, ExpansionErrorView};

verus! {

/// Where an encoded parameter's bytes are, and what the wrapper does when
/// they cannot be read.
pub struct Input {
    /// The pointer argument.
    pub pointer: String,
    /// The length argument.
    pub length: String,
    /// The statement that leaves the wrapper with its failure return.
    pub failure: String,
}

/// The texts of an [`Input`].
pub ghost struct InputView {
    pub pointer: Seq<char>,
    pub length: Seq<char>,
    pub failure: Seq<char>,
}

impl View for Input {
    type V = InputView;

    open spec fn view(&self) -> InputView {
        InputView { pointer: self.pointer@, length: self.length@, failure: self.failure@ }
    }
}

/// How the decoded value becomes the parameter's Rust type.
pub enum Conversion {
    /// The parameter's type is decoded directly.
    Unchanged,
    /// The value decoded as `decode_type` is converted by the expression
    /// `tokens`, which reads `__boltffi_decoded` and returns a `Result`
    /// when `fallible`. The decoded type is absent where the custom codec
    /// has no representation type.
    Converted { tokens: String, fallible: bool, decode_type: Option<String> },
}

/// What a [`Conversion`] says, its texts taken as they read.
pub ghost enum ConversionView {
    Unchanged,
    Converted { tokens: Seq<char>, fallible: bool, decode_type: Option<Seq<char>> },
}

impl View for Conversion {
    type V = ConversionView;

    open spec fn view(&self) -> ConversionView {
        match self {
            Conversion::Unchanged => ConversionView::Unchanged,
            Conversion::Converted { tokens, fallible, decode_type } => ConversionView::Converted {
                tokens: tokens@,
                fallible: *fallible,
                decode_type: match decode_type {
                    Some(ty) => Some(ty@),
                    None => None,
                },
            },
        }
    }
}

/// The check that a null pointer comes with no bytes.
pub open spec fn spec_null_check(input: InputView, binding: Seq<char>) -> Seq<char> {
    "if "@ + input.pointer + ".is_null() && "@ + input.length
        + " > 0 { ::boltffi::__private::set_last_error(format!(\"{}: null pointer with non-zero length (buf_len={})\", stringify!("@
        + binding + "), "@ + input.length + ")); "@ + input.failure + " } "@
}

/// The bytes of the buffer, empty for a zero length.
pub open spec fn spec_bytes(input: InputView) -> Seq<char> {
    "let __boltffi_bytes: &[u8] = if "@ + input.length
        + " == 0 { &[] } else { unsafe { ::core::slice::from_raw_parts("@ + input.pointer
        + ", "@ + input.length + ") } }; "@
}

/// The wire decoding of the bytes as `ty`, leaving with the failure return
/// when it fails.
pub open spec fn spec_decode(input: InputView, binding: Seq<char>, ty: Seq<char>) -> Seq<char> {
    "match ::boltffi::__private::wire::decode::<"@ + ty
        + ">(__boltffi_bytes) { Ok(value) => value, Err(error) => { ::boltffi::__private::set_last_error(format!(\"{}: wire decode failed: {} (buf_len={})\", stringify!("@
        + binding + "), error, "@ + input.length + ")); "@ + input.failure + " } }"@
}

/// The converted value, leaving with the failure return when a fallible
/// conversion fails.
pub open spec fn spec_converted(input: InputView, binding: Seq<char>, tokens: Seq<char>, fallible: bool) -> Seq<char> {
    if fallible {
        "match "@ + tokens
            + " { Ok(value) => value, Err(error) => { ::boltffi::__private::set_last_error(format!(\"{}: custom conversion failed: {:?} (buf_len={})\", stringify!("@
            + binding + "), error, "@ + input.length + ")); "@ + input.failure + " } }"@
    } else {
        tokens
    }
}

/// The statement that binds `binding`, of type `rust_type` and mutable
/// when asked, to the decoded parameter. A custom conversion without a
/// representation type cannot be decoded.
pub open spec fn spec_owned(
    input: InputView,
    conversion: ConversionView,
    rust_type: Seq<char>,
    binding: Seq<char>,
    mutable: bool,
) -> Result<Seq<char>, ExpansionErrorView> {
    let head = "let "@ + (if mutable {
        "mut "@
    } else {
        Seq::empty()
    }) + binding + ": "@ + rust_type + " = { "@ + spec_null_check(input, binding) + spec_bytes(
        input,
    );
    match conversion {
        ConversionView::Unchanged => Ok(head + spec_decode(input, binding, rust_type) + " };"@),
        ConversionView::Converted { tokens, fallible, decode_type } => match decode_type {
            Some(decoded) => Ok(
                head + "let __boltffi_decoded = "@ + spec_decode(input, binding, decoded) + "; "@
                    + spec_converted(input, binding, tokens, fallible) + " };"@,
            ),
            None => Err(
                ExpansionErrorView::UnsupportedExpansion("custom codec representation type"@),
            ),
        },
    }
}

fn null_check(input: &Input, binding: &str) -> (text: String)
    ensures
        text@ == spec_null_check(input@, binding@),
{
    let mut text = "if ".to_owned();
    text.append(input.pointer.as_str());
    text.append(".is_null() && ");
    text.append(input.length.as_str());
    text.append(" > 0 { ::boltffi::__private::set_last_error(format!(\"{}: null pointer with non-zero length (buf_len={})\", stringify!(");
    text.append(binding);
    text.append("), ");
    text.append(input.length.as_str());
    text.append(")); ");
    text.append(input.failure.as_str());
    text.append(" } ");
    text
}

fn bytes(input: &Input) -> (text: String)
    ensures
        text@ == spec_bytes(input@),
{
    let mut text = "let __boltffi_bytes: &[u8] = if ".to_owned();
    text.append(input.length.as_str());
    text.append(" == 0 { &[] } else { unsafe { ::core::slice::from_raw_parts(");
    text.append(input.pointer.as_str());
    text.append(", ");
    text.append(input.length.as_str());
    text.append(") } }; ");
    text
}

fn decode(input: &Input, binding: &str, ty: &str) -> (text: String)
    ensures
        text@ == spec_decode(input@, binding@, ty@),
{
    let mut text = "match ::boltffi::__private::wire::decode::<".to_owned();
    text.append(ty);
    text.append(">(__boltffi_bytes) { Ok(value) => value, Err(error) => { ::boltffi::__private::set_last_error(format!(\"{}: wire decode failed: {} (buf_len={})\", stringify!(");
    text.append(binding);
    text.append("), error, ");
    text.append(input.length.as_str());
    text.append(")); ");
    text.append(input.failure.as_str());
    text.append(" } }");
    text
}

fn converted(input: &Input, binding: &str, tokens: &str, fallible: bool) -> (text: String)
    ensures
        text@ == spec_converted(input@, binding@, tokens@, fallible),
{
    if fallible {
        let mut text = "match ".to_owned();
        text.append(tokens);
        text.append(" { Ok(value) => value, Err(error) => { ::boltffi::__private::set_last_error(format!(\"{}: custom conversion failed: {:?} (buf_len={})\", stringify!(");
        text.append(binding);
        text.append("), error, ");
        text.append(input.length.as_str());
        text.append(")); ");
        text.append(input.failure.as_str());
        text.append(" } }");
        text
    } else {
        tokens.to_owned()
    }
}

impl Input {
    /// Writes the statement that decodes the parameter into `binding`; see
    /// [`spec_owned`].
    pub fn owned(&self, conversion: &Conversion, rust_type: &str, binding: &str, mutable: bool) -> (result: Result<String, ExpansionError>)
        ensures
            match (result, spec_owned(self@, conversion@, rust_type@, binding@, mutable)) {
                (Ok(text), Ok(expected)) => text@ == expected,
                (Err(error), Err(expected)) => error@ == expected,
                _ => false,
            },
    {
        let mut head = "let ".to_owned();
        if mutable {
            head.append("mut ");
        } else {
            proof {
                assert("let "@ + Seq::<char>::empty() =~= "let "@);
            }
        }
        head.append(binding);
        head.append(": ");
        head.append(rust_type);
        head.append(" = { ");
        let check = null_check(self, binding);
        head.append(check.as_str());
        let buffer = bytes(self);
        head.append(buffer.as_str());
        match conversion {
            Conversion::Unchanged => {
                let value = decode(self, binding, rust_type);
                head.append(value.as_str());
                head.append(" };");
                Ok(head)
            },
            Conversion::Converted { tokens, fallible, decode_type } => match decode_type {
                Some(decoded) => {
                    head.append("let __boltffi_decoded = ");
                    let value = decode(self, binding, decoded.as_str());
                    head.append(value.as_str());
                    head.append("; ");
                    let finished = converted(self, binding, tokens.as_str(), *fallible);
                    head.append(finished.as_str());
                    head.append(" };");
                    Ok(head)
                },
                None => Err(ExpansionError::UnsupportedExpansion("custom codec representation type")),
            },
        }
    }
}

} // verus!
