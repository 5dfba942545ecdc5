//! Parameters passed as an encoded buffer: a pointer and a length that
//! are decoded into the Rust value, and for a mutable native parameter an
//! out buffer the changed value is written back to.
use vstd::prelude::*;

use crate::arguments::ParamTokens;
use crate::custom::{contains_custom, decoded_type, representation_of};
use crate::expansion::{ExpansionError, ExpansionErrorView};
use crate::incoming::{self, Conversion, ConversionView, InputView, spec_owned};
use crate::names::{Parameter, derived};
use crate::returned::encoded::{BufferShape, NativeBufferShape, WasmBufferShape};
use crate::text::views;
use crate::transform::{
    CustomConverters, all_registered, buffer, incoming, incoming_of, spec_apply, spec_buffer,
};
use crate::wire::{CodecNode, require_runtime_wire, spec_supported};

verus! {

/// How the Rust function takes the decoded value: owned, or borrowed from
/// a decoded local as a reference, a slice or a string slice, mutably or
/// not.
#[derive(Clone, Copy, Debug, Eq, PartialEq, Structural)]
pub enum DecodeBorrow {
    Owned,
    Value { mutable: bool },
    Slice { mutable: bool },
    Str { mutable: bool },
}

/// Whether the borrow is mutable.
pub open spec fn borrows_mutably(borrow: DecodeBorrow) -> bool {
    match borrow {
        DecodeBorrow::Owned => false,
        DecodeBorrow::Value { mutable } | DecodeBorrow::Slice { mutable } | DecodeBorrow::Str {
            mutable,
        } => mutable,
    }
}

/// The borrow of the decoded local `storage`.
pub open spec fn spec_borrow(storage: Seq<char>, borrow: DecodeBorrow) -> Result<Seq<char>, ExpansionErrorView> {
    match borrow {
        DecodeBorrow::Owned => Err(
            ExpansionErrorView::SourceSyntaxMismatch(
                "owned encoded parameter does not borrow decoded storage"@,
            ),
        ),
        DecodeBorrow::Value { mutable } => Ok(
            if mutable {
                "&mut "@ + storage
            } else {
                "&"@ + storage
            },
        ),
        DecodeBorrow::Slice { mutable } => Ok(
            storage + if mutable {
                ".as_mut_slice()"@
            } else {
                ".as_slice()"@
            },
        ),
        DecodeBorrow::Str { mutable } => Ok(
            storage + if mutable {
                ".as_mut_str()"@
            } else {
                ".as_str()"@
            },
        ),
    }
}

fn borrow_text(storage: &str, borrow: DecodeBorrow) -> (result: Result<String, ExpansionError>)
    ensures
        match spec_borrow(storage@, borrow) {
            Ok(text) => result matches Ok(t) && t@ == text,
            Err(error) => result matches Err(e) && e@ == error,
        },
{
    match borrow {
        DecodeBorrow::Owned => Err(
            ExpansionError::SourceSyntaxMismatch("owned encoded parameter does not borrow decoded storage"),
        ),
        DecodeBorrow::Value { mutable } => {
            let mut text = if mutable {
                "&mut ".to_owned()
            } else {
                "&".to_owned()
            };
            text.append(storage);
            Ok(text)
        },
        DecodeBorrow::Slice { mutable } => {
            let mut text = storage.to_owned();
            text.append(if mutable { ".as_mut_slice()" } else { ".as_slice()" });
            Ok(text)
        },
        DecodeBorrow::Str { mutable } => {
            let mut text = storage.to_owned();
            text.append(if mutable { ".as_mut_str()" } else { ".as_str()" });
            Ok(text)
        },
    }
}

/// How the decoded value of `codec` becomes the Rust value: unchanged, or
/// the incoming transform applied to `__boltffi_decoded`, decoded as the
/// representation where the codec holds a custom type.
pub open spec fn spec_conversion_of(codec: CodecNode, table: Seq<CustomConverters>) -> Result<
    ConversionView,
    ExpansionErrorView,
> {
    match incoming_of(codec, table) {
        Err(error) => Err(error),
        Ok(None) => Ok(ConversionView::Unchanged),
        Ok(Some(transform)) => {
            let (tokens, fallible) = spec_apply(Some(transform), "__boltffi_decoded"@);
            if contains_custom(codec) {
                match representation_of(codec) {
                    Err(error) => Err(error),
                    Ok(representation) => Ok(
                        ConversionView::Converted { tokens, fallible, decode_type: Some(representation) },
                    ),
                }
            } else {
                Ok(ConversionView::Converted { tokens, fallible, decode_type: None })
            }
        },
    }
}

/// Works out how the decoded value of `codec` becomes the Rust value; see
/// [`spec_conversion_of`].
pub fn conversion_for(codec: &CodecNode, table: &Vec<CustomConverters>) -> (result: Result<Conversion, ExpansionError>)
    requires
        all_registered(*codec, table@),
    ensures
        match spec_conversion_of(*codec, table@) {
            Ok(view) => result matches Ok(conversion) && conversion@ == view,
            Err(error) => result matches Err(e) && e@ == error,
        },
{
    let converted = match incoming(codec, table, "__boltffi_decoded") {
        Ok(converted) => converted,
        Err(error) => return Err(error),
    };
    if !converted.changed {
        return Ok(Conversion::Unchanged);
    }
    let decode_type = match decoded_type(codec) {
        Ok(decode_type) => decode_type,
        Err(error) => return Err(error),
    };
    Ok(Conversion::Converted { tokens: converted.tokens, fallible: converted.fallible, decode_type })
}

/// The statements that decode the buffer at `input` into `binding`: the
/// wire format must carry the codec; an owned value is decoded into the
/// binding itself, a borrowed one into its storage local, which the
/// binding then borrows.
pub open spec fn spec_decode_param(
    codec: CodecNode,
    table: Seq<CustomConverters>,
    input: InputView,
    rust_type: Seq<char>,
    binding: Seq<char>,
    borrow: DecodeBorrow,
) -> Result<Seq<char>, ExpansionErrorView> {
    match spec_supported(codec) {
        Err(error) => Err(error),
        Ok(()) => match spec_conversion_of(codec, table) {
            Err(error) => Err(error),
            Ok(conversion) => if borrow == DecodeBorrow::Owned {
                spec_owned(input, conversion, rust_type, binding, false)
            } else {
                let storage = derived(binding, "_storage"@);
                match spec_owned(input, conversion, rust_type, storage, borrows_mutably(borrow)) {
                    Err(error) => Err(error),
                    Ok(owned) => Ok(
                        owned + " let "@ + binding + " = "@ + spec_borrow(storage, borrow)->Ok_0
                            + ";"@,
                    ),
                }
            },
        },
    }
}

/// Writes the statements that decode the buffer at `input` into
/// `binding`; see [`spec_decode_param`].
pub fn decode_param(
    codec: &CodecNode,
    table: &Vec<CustomConverters>,
    input: &incoming::Input,
    rust_type: &str,
    binding: &str,
    borrow: DecodeBorrow,
) -> (result: Result<String, ExpansionError>)
    requires
        all_registered(*codec, table@),
    ensures
        match spec_decode_param(*codec, table@, input@, rust_type@, binding@, borrow) {
            Ok(text) => result matches Ok(t) && t@ == text,
            Err(error) => result matches Err(e) && e@ == error,
        },
{
    match require_runtime_wire(codec) {
        Ok(()) => {},
        Err(error) => return Err(error),
    }
    let conversion = match conversion_for(codec, table) {
        Ok(conversion) => conversion,
        Err(error) => return Err(error),
    };
    if borrow == DecodeBorrow::Owned {
        return input.owned(&conversion, rust_type, binding, false);
    }
    let storage = Parameter::new(binding).storage();
    let mutable = match borrow {
        DecodeBorrow::Owned => false,
        DecodeBorrow::Value { mutable } | DecodeBorrow::Slice { mutable } | DecodeBorrow::Str {
            mutable,
        } => mutable,
    };
    let mut text = match input.owned(&conversion, rust_type, storage.as_str(), mutable) {
        Ok(text) => text,
        Err(error) => return Err(error),
    };
    let borrowed = match borrow_text(storage.as_str(), borrow) {
        Ok(borrowed) => borrowed,
        Err(error) => return Err(error),
    };
    text.append(" let ");
    text.append(binding);
    text.append(" = ");
    text.append(borrowed.as_str());
    text.append(";");
    Ok(text)
}

/// An encoded parameter: the buffer shape, the codec, the Rust type it is
/// decoded as and how the function takes it, its name, the statement that
/// leaves on failure, and whether a changed value is written back.
pub struct EncodedParamInput {
    pub shape: BufferShape,
    pub codec: CodecNode,
    pub rust_type: String,
    pub borrow: DecodeBorrow,
    pub ident: String,
    pub failure: String,
    pub writeback: bool,
}

/// What an encoded parameter contributes to the wrapper.
pub ghost struct EncodedParamView {
    pub ffi_parameters: Seq<Seq<char>>,
    pub conversions: Seq<Seq<char>>,
    pub writebacks: Seq<Seq<char>>,
}

/// The check that the write-back pointer `out` is not null.
pub open spec fn spec_null_out(out: Seq<char>, failure: Seq<char>) -> Seq<char> {
    "if "@ + out + ".is_null() { ::boltffi::__private::set_last_error(format!(\"{}: writeback pointer is null\", stringify!("@ + out + "))); "@ + failure + " }"@
}

/// The write of the changed value's buffer through `out`.
pub open spec fn spec_write_out(out: Seq<char>, buffer: Seq<char>) -> Seq<char> {
    "unsafe { ::core::ptr::write("@ + out + ", "@ + buffer + "); }"@
}

/// What `input` contributes, or why it cannot be passed: only the slice
/// shape is rendered, and on WebAssembly nothing is written back; the
/// parameter arrives as a pointer and a length that are decoded, and a
/// written-back parameter also takes an out buffer, checked before the
/// call and written after it with the encoded storage.
pub open spec fn spec_encoded_param(input: EncodedParamInput, table: Seq<CustomConverters>) -> Result<
    EncodedParamView,
    ExpansionErrorView,
> {
    let ident = input.ident@;
    let pointer = derived(ident, "_ptr"@);
    let length = derived(ident, "_len"@);
    let out = derived(ident, "_out"@);
    let storage = derived(ident, "_storage"@);
    let shape_error: Option<Seq<char>> = match input.shape {
        BufferShape::Native(NativeBufferShape::Slice) | BufferShape::Wasm32(WasmBufferShape::Slice) => None,
        BufferShape::Native(NativeBufferShape::Other) => Some("unknown native encoded parameter shape"@),
        BufferShape::Native(_) => Some("native encoded parameter shape"@),
        BufferShape::Wasm32(WasmBufferShape::Packed) => Some("wasm encoded parameter shape"@),
        BufferShape::Wasm32(_) => Some("unknown wasm encoded parameter shape"@),
    };
    let writeback = input.writeback && input.shape is Native;
    match shape_error {
        Some(reason) => Err(ExpansionErrorView::UnsupportedExpansion(reason)),
        None => match spec_decode_param(
            input.codec,
            table,
            InputView { pointer, length, failure: input.failure@ },
            input.rust_type@,
            ident,
            input.borrow,
        ) {
            Err(error) => Err(error),
            Ok(decoded) => if !writeback {
                Ok(
                    EncodedParamView {
                        ffi_parameters: seq![pointer + ": *const u8"@, length + ": usize"@],
                        conversions: seq![decoded],
                        writebacks: Seq::empty(),
                    },
                )
            } else {
                match spec_buffer(input.codec, table, storage) {
                    Err(error) => Err(error),
                    Ok(buffer) => Ok(
                        EncodedParamView {
                            ffi_parameters: seq![
                                pointer + ": *const u8"@,
                                length + ": usize"@,
                                out + ": *mut ::boltffi::__private::FfiBuf"@,
                            ],
                            conversions: seq![decoded, spec_null_out(out, input.failure@)],
                            writebacks: seq![spec_write_out(out, buffer)],
                        },
                    ),
                }
            },
        },
    }
}

fn null_out(out: &String, failure: &str) -> (text: String)
    ensures
        text@ == spec_null_out(out@, failure@),
{
    let mut text = "if ".to_owned();
    text.append(out.as_str());
    text.append(".is_null() { ::boltffi::__private::set_last_error(format!(\"{}: writeback pointer is null\", stringify!(");
    text.append(out.as_str());
    text.append("))); ");
    text.append(failure);
    text.append(" }");
    text
}

fn write_out(out: &String, buffer: &String) -> (text: String)
    ensures
        text@ == spec_write_out(out@, buffer@),
{
    let mut text = "unsafe { ::core::ptr::write(".to_owned();
    text.append(out.as_str());
    text.append(", ");
    text.append(buffer.as_str());
    text.append("); }");
    text
}

/// Renders an encoded parameter; see [`spec_encoded_param`]. The Rust
/// function gets the parameter by its own name.
pub fn encoded_param(input: &EncodedParamInput, table: &Vec<CustomConverters>) -> (result: Result<ParamTokens, ExpansionError>)
    requires
        all_registered(input.codec, table@),
    ensures
        match spec_encoded_param(*input, table@) {
            Ok(expected) => result matches Ok(tokens) && tokens.items@.len() == 0 && views(
                tokens.ffi_parameters@,
            ) == expected.ffi_parameters && views(tokens.conversions@) == expected.conversions
                && views(tokens.writebacks@) == expected.writebacks && tokens.argument@ == input.ident@,
            Err(error) => result matches Err(e) && e@ == error,
        },
{
    let writeback = match input.shape {
        BufferShape::Native(NativeBufferShape::Slice) => input.writeback,
        BufferShape::Wasm32(WasmBufferShape::Slice) => false,
        BufferShape::Native(NativeBufferShape::Other) => {
            return Err(ExpansionError::UnsupportedExpansion("unknown native encoded parameter shape"));
        },
        BufferShape::Native(_) => {
            return Err(ExpansionError::UnsupportedExpansion("native encoded parameter shape"));
        },
        BufferShape::Wasm32(WasmBufferShape::Packed) => {
            return Err(ExpansionError::UnsupportedExpansion("wasm encoded parameter shape"));
        },
        BufferShape::Wasm32(_) => {
            return Err(ExpansionError::UnsupportedExpansion("unknown wasm encoded parameter shape"));
        },
    };
    let ident = input.ident.as_str();
    let names = Parameter::new(ident);
    let pointer = names.pointer();
    let length = names.length();
    let mut pointer_parameter = pointer.clone();
    pointer_parameter.append(": *const u8");
    let mut length_parameter = length.clone();
    length_parameter.append(": usize");
    let place = incoming::Input { pointer, length, failure: input.failure.clone() };
    let decoded = match decode_param(&input.codec, table, &place, input.rust_type.as_str(), ident, input.borrow) {
        Ok(decoded) => decoded,
        Err(error) => return Err(error),
    };
    let mut ffi_parameters: Vec<String> = Vec::new();
    ffi_parameters.push(pointer_parameter);
    ffi_parameters.push(length_parameter);
    let mut conversions: Vec<String> = Vec::new();
    conversions.push(decoded);
    let mut writebacks: Vec<String> = Vec::new();
    if writeback {
        let out = names.writeback();
        let storage = names.storage();
        let written = match buffer(&input.codec, table, storage.as_str()) {
            Ok(written) => written,
            Err(error) => return Err(error),
        };
        let mut out_parameter = out.clone();
        out_parameter.append(": *mut ::boltffi::__private::FfiBuf");
        ffi_parameters.push(out_parameter);
        conversions.push(null_out(&out, input.failure.as_str()));
        writebacks.push(write_out(&out, &written));
    }
    let tokens = ParamTokens { items: Vec::new(), ffi_parameters, conversions, writebacks, argument: ident.to_owned() };
    proof {
        let expected = spec_encoded_param(*input, table@)->Ok_0;
        assert(views(tokens.ffi_parameters@) =~= expected.ffi_parameters);
        assert(views(tokens.conversions@) =~= expected.conversions);
        assert(views(tokens.writebacks@) =~= expected.writebacks);
    }
    Ok(tokens)
}

} // verus!
