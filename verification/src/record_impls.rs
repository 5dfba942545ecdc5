//! The runtime trait implementations that make a scanned record usable by
//! generated wrappers: a record crossing by its layout is copied as it is,
//! an encoded record is written and read field by field.
use vstd::prelude::*;

use crate::custom::{contains_custom, decoded_type, has_custom, representation_of};
use crate::expansion::{ExpansionError, ExpansionErrorView, layout_size};
use crate::names::{RecordField, derived};
use crate::returned::{statements, write_statements};
use crate::source_names::{checked_ident, parses_as_ident};
use crate::text::{
    decimal, decimal_string, join, join_strings, lemma_occurs_in_middle, lemma_occurs_in_prefix,
    lemma_occurs_in_suffix, occurs_in, text_eq, views,
};
use crate::transform::{
    CustomConverters, ValueMode, all_registered, applied, incoming, incoming_of, outgoing,
    outgoing_of, spec_apply,
};
use crate::wire::{CodecNode, require_runtime_wire, spec_supported};

verus! {

/// How many of `names` are `name`.
pub open spec fn count_named(names: Seq<String>, name: Seq<char>) -> nat
    decreases names.len(),
{
    if names.len() == 0 {
        0
    } else {
        count_named(names.drop_last(), name) + if names.last()@ == name {
            1nat
        } else {
            0nat
        }
    }
}

/// The source method a binding method names: the one method of `methods`
/// with that name; none and several are both refused.
pub fn source_method(methods: &Vec<String>, binding: &str) -> (result: Result<usize, ExpansionError>)
    ensures
        count_named(methods@, binding@) == 0 ==> (result matches Err(error) && error@
            == ExpansionErrorView::SourceSyntaxMismatch(
            "source record method is missing for binding method"@,
        )),
        count_named(methods@, binding@) >= 2 ==> (result matches Err(error) && error@
            == ExpansionErrorView::SourceSyntaxMismatch("source record method name is ambiguous"@)),
        count_named(methods@, binding@) == 1 ==> (result matches Ok(index) && index < methods@.len()
            && methods@[index as int]@ == binding@),
{
    let mut count: usize = 0;
    let mut found: usize = 0;
    let mut i: usize = 0;
    while i < methods.len()
        invariant
            i <= methods.len(),
            count == count_named(methods@.take(i as int), binding@),
            count <= i,
            count > 0 ==> found < i && methods@[found as int]@ == binding@,
        decreases methods.len() - i,
    {
        proof {
            assert(methods@.take(i + 1).drop_last() =~= methods@.take(i as int));
            assert(methods@.take(i + 1).last() == methods@[i as int]);
        }
        if text_eq(methods[i].as_str(), binding) {
            if count == 0 {
                found = i;
            }
            count = count + 1;
        }
        i = i + 1;
    }
    proof {
        assert(methods@.take(methods.len() as int) =~= methods@);
    }
    if count == 0 {
        Err(ExpansionError::SourceSyntaxMismatch("source record method is missing for binding method"))
    } else if count == 1 {
        Ok(found)
    } else {
        Err(ExpansionError::SourceSyntaxMismatch("source record method name is ambiguous"))
    }
}

/// The error for a record name that is not an identifier.
pub open spec fn record_name_error() -> ExpansionErrorView {
    ExpansionErrorView::SourceSyntaxMismatch("source record name is not a Rust identifier"@)
}

/// The compile-time checks that the record type has `size` bytes and is
/// aligned to `alignment` bytes.
pub open spec fn spec_layout_checks(record: Seq<char>, size: usize, alignment: usize) -> Seq<char> {
    "const _: "@ + "[(); "@ + decimal(size as nat) + "usize] = [(); ::core::mem::size_of::<"@ + record + ">()]"@ + "; const _: "@ + "[(); "@ + decimal(alignment as nat) + "usize] = [(); ::core::mem::align_of::<"@ + record + ">()]"@ + "; "@
}

fn layout_checks(record: &str, size: usize, alignment: usize) -> (text: String)
    ensures
        text@ == spec_layout_checks(record@, size, alignment),
{
    let size_text = decimal_string(size);
    let alignment_text = decimal_string(alignment);
    let mut text = "const _: ".to_owned();
    text.append("[(); ");
    text.append(size_text.as_str());
    text.append("usize] = [(); ::core::mem::size_of::<");
    text.append(record);
    text.append(">()]");
    text.append("; const _: ");
    text.append("[(); ");
    text.append(alignment_text.as_str());
    text.append("usize] = [(); ::core::mem::align_of::<");
    text.append(record);
    text.append(">()]");
    text.append("; ");
    text
}

/// `Passable` as itself, and `Blittable`.
pub open spec fn spec_passable_impl(record: Seq<char>) -> Seq<char> {
    "unsafe impl ::boltffi::__private::Passable for "@ + record + " { type In = "@ + record + "; type Out = "@ + record + "; unsafe fn unpack(input: "@ + record + ") -> Self { input } fn pack(self) -> "@ + record + " { self } } unsafe impl ::boltffi::__private::wire::Blittable for "@ + record + " {} "@
}

fn passable_impl(record: &str) -> (text: String)
    ensures
        text@ == spec_passable_impl(record@),
{
    let mut text = "unsafe impl ::boltffi::__private::Passable for ".to_owned();
    text.append(record);
    text.append(" { type In = ");
    text.append(record);
    text.append("; type Out = ");
    text.append(record);
    text.append("; unsafe fn unpack(input: ");
    text.append(record);
    text.append(") -> Self { input } fn pack(self) -> ");
    text.append(record);
    text.append(" { self } } unsafe impl ::boltffi::__private::wire::Blittable for ");
    text.append(record);
    text.append(" {} ");
    text
}

/// The wire encoding by copy: fixed at `size_of::<Self>()` bytes.
pub open spec fn spec_copy_encode_impl(record: Seq<char>) -> Seq<char> {
    "impl ::boltffi::__private::wire::WireEncode for "@ + record + " { const ENCODING_KIND: ::boltffi::__private::wire::WireEncodingKind = ::boltffi::__private::wire::WireEncodingKind::Blittable; fn is_fixed_size() -> bool { true } fn fixed_size() -> Option<usize> { Some(::core::mem::size_of::<Self>()) } "@ + "fn wire_size(&self) -> usize { ::core::mem::size_of::<Self>() }"@ + " fn encode_to(&self, buffer: &mut [u8]) -> usize { <Self as ::boltffi::__private::wire::Blittable>::encode_value(self, buffer) } } "@
}

fn copy_encode_impl(record: &str) -> (text: String)
    ensures
        text@ == spec_copy_encode_impl(record@),
{
    let mut text = "impl ::boltffi::__private::wire::WireEncode for ".to_owned();
    text.append(record);
    text.append(" { const ENCODING_KIND: ::boltffi::__private::wire::WireEncodingKind = ::boltffi::__private::wire::WireEncodingKind::Blittable; fn is_fixed_size() -> bool { true } fn fixed_size() -> Option<usize> { Some(::core::mem::size_of::<Self>()) } ");
    text.append("fn wire_size(&self) -> usize { ::core::mem::size_of::<Self>() }");
    text.append(" fn encode_to(&self, buffer: &mut [u8]) -> usize { <Self as ::boltffi::__private::wire::Blittable>::encode_value(self, buffer) } } ");
    text
}

/// The wire decoding by copy, which consumes `size_of::<Self>()` bytes.
pub open spec fn spec_copy_decode_impl(record: Seq<char>) -> Seq<char> {
    "impl ::boltffi::__private::wire::WireDecode for "@ + record + " { fn decode_from(buffer: &[u8]) -> ::boltffi::__private::wire::DecodeResult<Self> { match <Self as ::boltffi::__private::wire::Blittable>::decode_value(buffer) { "@ + "Some(value) => Ok((value, ::core::mem::size_of::<Self>()))"@ + ", None => Err(::boltffi::__private::wire::DecodeError::BufferTooSmall), } } } "@
}

fn copy_decode_impl(record: &str) -> (text: String)
    ensures
        text@ == spec_copy_decode_impl(record@),
{
    let mut text = "impl ::boltffi::__private::wire::WireDecode for ".to_owned();
    text.append(record);
    text.append(" { fn decode_from(buffer: &[u8]) -> ::boltffi::__private::wire::DecodeResult<Self> { match <Self as ::boltffi::__private::wire::Blittable>::decode_value(buffer) { ");
    text.append("Some(value) => Ok((value, ::core::mem::size_of::<Self>()))");
    text.append(", None => Err(::boltffi::__private::wire::DecodeError::BufferTooSmall), } } } ");
    text
}

/// Vector transport as a copied slice.
pub open spec fn spec_copy_vec_transport(record: Seq<char>) -> Seq<char> {
    "impl ::boltffi::__private::VecTransport for "@ + record + " { fn pack_vec(values: Vec<"@ + record + ">) -> ::boltffi::__private::FfiBuf { ::boltffi::__private::FfiBuf::from_vec(values) } unsafe fn unpack_vec(pointer: *const u8, byte_len: usize) -> Vec<"@ + record + "> { if byte_len == 0 { return Vec::new(); } let element_count = byte_len / ::core::mem::size_of::<"@ + record + ">(); unsafe { ::core::slice::from_raw_parts(pointer as *const "@ + record + ", element_count) }.to_vec() } } "@
}

fn copy_vec_transport(record: &str) -> (text: String)
    ensures
        text@ == spec_copy_vec_transport(record@),
{
    let mut text = "impl ::boltffi::__private::VecTransport for ".to_owned();
    text.append(record);
    text.append(" { fn pack_vec(values: Vec<");
    text.append(record);
    text.append(">) -> ::boltffi::__private::FfiBuf { ::boltffi::__private::FfiBuf::from_vec(values) } unsafe fn unpack_vec(pointer: *const u8, byte_len: usize) -> Vec<");
    text.append(record);
    text.append("> { if byte_len == 0 { return Vec::new(); } let element_count = byte_len / ::core::mem::size_of::<");
    text.append(record);
    text.append(">(); unsafe { ::core::slice::from_raw_parts(pointer as *const ");
    text.append(record);
    text.append(", element_count) }.to_vec() } } ");
    text
}

/// The implementations of a record that crosses by its layout, of `size`
/// bytes aligned to `alignment`: compile-time checks of the layout, then
/// `Passable`, `Blittable`, the wire encoding and decoding by copy, and
/// vector transport, followed by the record's exports.
pub open spec fn spec_direct(record: Seq<char>, size: usize, alignment: usize, exports: Seq<char>) -> Seq<char> {
    spec_layout_checks(record, size, alignment) + spec_passable_impl(record) + spec_copy_encode_impl(
        record,
    ) + spec_copy_decode_impl(record) + spec_copy_vec_transport(record) + exports
}

/// Writes the implementations of a record that crosses by its layout;
/// see [`spec_direct`]. The record's name must be an identifier and its
/// layout must fit in a `usize`.
pub fn direct_record(record: &str, size: u64, alignment: u64, exports: &str) -> (result: Result<String, ExpansionError>)
    ensures
        !parses_as_ident(record@) ==> (result matches Err(error) && error@ == record_name_error()),
        parses_as_ident(record@) && (size > usize::MAX || alignment > usize::MAX) ==> (result matches Err(
            error,
        ) && error@ == ExpansionErrorView::SourceSyntaxMismatch("record layout is too large"@)),
        parses_as_ident(record@) && size <= usize::MAX && alignment <= usize::MAX ==> (result matches Ok(
            text,
        ) && text@ == spec_direct(record@, size as usize, alignment as usize, exports@)),
{
    match checked_ident(record, "source record name is not a Rust identifier") {
        Ok(_) => {},
        Err(error) => return Err(error),
    }
    let size = match layout_size(size) {
        Ok(size) => size,
        Err(error) => return Err(error),
    };
    let alignment = match layout_size(alignment) {
        Ok(alignment) => alignment,
        Err(error) => return Err(error),
    };
    let mut text = layout_checks(record, size, alignment);
    text.append(passable_impl(record).as_str());
    text.append(copy_encode_impl(record).as_str());
    text.append(copy_decode_impl(record).as_str());
    text.append(copy_vec_transport(record).as_str());
    text.append(exports);
    Ok(text)
}

/// One field of an encoded record: its source name, the binding's key for
/// it when the key is a name, its Rust type and its codec.
pub struct EncodedFieldInput {
    pub name: String,
    pub key: Option<String>,
    pub rust_type: String,
    pub codec: CodecNode,
}

/// What one field contributes to the record's encoding: its wire size, the
/// statement that writes it, the statements that read it, and its name in
/// the record's constructor.
pub struct EncodedFieldTokens {
    pub wire_size: String,
    pub encode_to: String,
    pub decode_from: String,
    pub initializer: String,
}

/// The texts of an [`EncodedFieldTokens`].
pub ghost struct FieldTokensView {
    pub wire_size: Seq<char>,
    pub encode_to: Seq<char>,
    pub decode_from: Seq<char>,
    pub initializer: Seq<char>,
}

impl View for EncodedFieldTokens {
    type V = FieldTokensView;

    open spec fn view(&self) -> FieldTokensView {
        FieldTokensView {
            wire_size: self.wire_size@,
            encode_to: self.encode_to@,
            decode_from: self.decode_from@,
            initializer: self.initializer@,
        }
    }
}

/// The wire size of `field`, its value converted to `converted` in the
/// local `wire` when the codec holds a custom type.
pub open spec fn spec_wire_size(field: Seq<char>, custom: bool, wire: Seq<char>, converted: Seq<char>) -> Seq<char> {
    if custom {
        "{ let "@ + wire + " = "@ + converted + "; ::boltffi::__private::wire::WireEncode::wire_size(&"@ + wire + ") }"@
    } else {
        "::boltffi::__private::wire::WireEncode::wire_size(&self."@ + field + ")"@
    }
}

/// The statement that writes `field` at the offset and moves the offset
/// past it.
pub open spec fn spec_encode_to(field: Seq<char>, custom: bool, wire: Seq<char>, converted: Seq<char>) -> Seq<char> {
    if custom {
        "{ let "@ + wire + " = "@ + converted + "; let __boltffi_written = ::boltffi::__private::wire::WireEncode::encode_to(&"@ + wire + ", &mut buffer[__boltffi_offset..]); __boltffi_offset += __boltffi_written; }"@
    } else {
        "{ let __boltffi_written = ::boltffi::__private::wire::WireEncode::encode_to(&self."@ + field + ", &mut buffer[__boltffi_offset..]); __boltffi_offset += __boltffi_written; }"@
    }
}

/// The statements that read `field` as `decoded_type` into `decoded`,
/// move the offset by the `used` bytes, and bind the field to `value`.
pub open spec fn spec_decode_from(
    field: Seq<char>,
    decoded: Seq<char>,
    used: Seq<char>,
    decoded_type: Seq<char>,
    rust_type: Seq<char>,
    value: Seq<char>,
) -> Seq<char> {
    "let ("@ + decoded + ", "@ + used + ") = <"@ + decoded_type + " as ::boltffi::__private::wire::WireDecode>::decode_from(&buffer[__boltffi_offset..])?; __boltffi_offset += "@ + used + "; let "@ + field + ": "@ + rust_type + " = "@ + value + ";"@
}

/// The decoded value turned into the field's value: unchanged, converted,
/// or converted with a failed conversion reported as an invalid value.
pub open spec fn spec_field_value(transform: Option<(Seq<char>, bool)>, decoded: Seq<char>) -> Seq<char> {
    match transform {
        None => decoded,
        Some(_) => {
            let (tokens, fallible) = spec_apply(transform, decoded);
            if fallible {
                "match "@ + tokens + " { Ok(value) => value, Err(_) => { return Err(::boltffi::__private::wire::DecodeError::InvalidValue(::boltffi::__private::wire::InvalidWireValue::CustomConversion)); } }"@
            } else {
                tokens
            }
        },
    }
}

/// What `input` contributes to its record, or why it cannot be encoded:
/// the binding's key must name the field, the name must be an identifier,
/// and the wire format must carry the codec; a codec holding custom types
/// is converted on the way out and back, from the representation it is
/// decoded as.
pub open spec fn spec_field_tokens(input: EncodedFieldInput, table: Seq<CustomConverters>) -> Result<
    FieldTokensView,
    ExpansionErrorView,
> {
    let field = input.name@;
    let wire = derived(field, "_wire"@);
    let decoded = derived(field, "_decoded"@);
    let used = derived(field, "_used"@);
    let custom = contains_custom(input.codec);
    if !(input.key matches Some(key) && key@ == field) {
        Err(ExpansionErrorView::SourceSyntaxMismatch("source and binding record field keys differ"@))
    } else if !parses_as_ident(field) {
        Err(ExpansionErrorView::SourceSyntaxMismatch("source field name is not a Rust identifier"@))
    } else if spec_supported(input.codec) is Err {
        Err(spec_supported(input.codec)->Err_0)
    } else {
        let converted = outgoing_of(input.codec, table, ValueMode::Borrowed, "&self."@ + field);
        let representation = representation_of(input.codec);
        if custom && converted is Err {
            Err(converted->Err_0)
        } else if custom && representation is Err {
            Err(representation->Err_0)
        } else {
            let converted_text = applied(converted->Ok_0, "&self."@ + field);
            let decoded_type = if custom {
                representation->Ok_0
            } else {
                input.rust_type@
            };
            match incoming_of(input.codec, table) {
                Err(error) => Err(error),
                Ok(transform) => Ok(
                    FieldTokensView {
                        wire_size: spec_wire_size(field, custom, wire, converted_text),
                        encode_to: spec_encode_to(field, custom, wire, converted_text),
                        decode_from: spec_decode_from(
                            field,
                            decoded,
                            used,
                            decoded_type,
                            input.rust_type@,
                            spec_field_value(transform, decoded),
                        ),
                        initializer: field,
                    },
                ),
            }
        }
    }
}

/// Writes what `input` contributes to its record; see
/// [`spec_field_tokens`].
pub fn field_tokens(input: &EncodedFieldInput, table: &Vec<CustomConverters>) -> (result: Result<EncodedFieldTokens, ExpansionError>)
    requires
        all_registered(input.codec, table@),
    ensures
        match spec_field_tokens(*input, table@) {
            Ok(expected) => result matches Ok(tokens) && tokens@ == expected,
            Err(error) => result matches Err(e) && e@ == error,
        },
{
    let named = match &input.key {
        Some(key) => text_eq(key.as_str(), input.name.as_str()),
        None => false,
    };
    if !named {
        return Err(ExpansionError::SourceSyntaxMismatch("source and binding record field keys differ"));
    }
    let field = match checked_ident(input.name.as_str(), "source field name is not a Rust identifier") {
        Ok(field) => field,
        Err(error) => return Err(error),
    };
    let field = field.as_str();
    let rust_type = input.rust_type.as_str();
    match require_runtime_wire(&input.codec) {
        Ok(()) => {},
        Err(error) => return Err(error),
    }
    let names = RecordField::new(field);
    let wire = names.wire();
    let decoded = names.decoded();
    let used = names.used();
    let custom = has_custom(&input.codec);
    let mut place = "&self.".to_owned();
    place.append(field);
    let (wire_size, encode_to) = if custom {
        let converted = match outgoing(&input.codec, table, ValueMode::Borrowed, place.as_str()) {
            Ok(converted) => converted,
            Err(error) => return Err(error),
        };
        let mut text = "{ let ".to_owned();
        text.append(wire.as_str());
        text.append(" = ");
        text.append(converted.as_str());
        text.append("; ::boltffi::__private::wire::WireEncode::wire_size(&");
        text.append(wire.as_str());
        text.append(") }");
        let size_text = text;
        let mut text = "{ let ".to_owned();
        text.append(wire.as_str());
        text.append(" = ");
        text.append(converted.as_str());
        text.append("; let __boltffi_written = ::boltffi::__private::wire::WireEncode::encode_to(&");
        text.append(wire.as_str());
        text.append(", &mut buffer[__boltffi_offset..]); __boltffi_offset += __boltffi_written; }");
        (size_text, text)
    } else {
        let mut text = "::boltffi::__private::wire::WireEncode::wire_size(&self.".to_owned();
        text.append(field);
        text.append(")");
        let size_text = text;
        let mut text = "{ let __boltffi_written = ::boltffi::__private::wire::WireEncode::encode_to(&self.".to_owned();
        text.append(field);
        text.append(", &mut buffer[__boltffi_offset..]); __boltffi_offset += __boltffi_written; }");
        (size_text, text)
    };
    let decoded_type = match decoded_type(&input.codec) {
        Ok(Some(representation)) => representation,
        Ok(None) => rust_type.to_owned(),
        Err(error) => return Err(error),
    };
    let conversion = match incoming(&input.codec, table, decoded.as_str()) {
        Ok(conversion) => conversion,
        Err(error) => return Err(error),
    };
    let value = if conversion.changed && conversion.fallible {
        let tokens = conversion.tokens;
        let mut text = "match ".to_owned();
        text.append(tokens.as_str());
        text.append(" { Ok(value) => value, Err(_) => { return Err(::boltffi::__private::wire::DecodeError::InvalidValue(::boltffi::__private::wire::InvalidWireValue::CustomConversion)); } }");
        text
    } else if conversion.changed {
        conversion.tokens
    } else {
        decoded.clone()
    };
    let mut text = "let (".to_owned();
    text.append(decoded.as_str());
    text.append(", ");
    text.append(used.as_str());
    text.append(") = <");
    text.append(decoded_type.as_str());
    text.append(" as ::boltffi::__private::wire::WireDecode>::decode_from(&buffer[__boltffi_offset..])?; __boltffi_offset += ");
    text.append(used.as_str());
    text.append("; let ");
    text.append(field);
    text.append(": ");
    text.append(rust_type);
    text.append(" = ");
    text.append(value.as_str());
    text.append(";");
    proof {
        if custom {
            assert(outgoing_of(input.codec, table@, ValueMode::Borrowed, "&self."@ + field@) is Ok);
        } else {
            crate::transform::lemma_plain_codec_is_unchanged(
                input.codec,
                table@,
                ValueMode::Borrowed,
                "&self."@ + field@,
            );
        }
    }
    Ok(EncodedFieldTokens { wire_size, encode_to, decode_from: text, initializer: field.to_owned() })
}

/// The fields of an encoded record, each rendered in order; the first
/// failure is the result.
pub open spec fn spec_fields(inputs: Seq<EncodedFieldInput>, table: Seq<CustomConverters>) -> Result<
    Seq<FieldTokensView>,
    ExpansionErrorView,
>
    decreases inputs.len(),
{
    if inputs.len() == 0 {
        Ok(Seq::empty())
    } else {
        match spec_fields(inputs.drop_last(), table) {
            Err(error) => Err(error),
            Ok(before) => match spec_field_tokens(inputs.last(), table) {
                Err(error) => Err(error),
                Ok(last) => Ok(before.push(last)),
            },
        }
    }
}

/// Wire sizes, each added with ` + `.
pub open spec fn spec_sizes(sizes: Seq<Seq<char>>) -> Seq<char>
    decreases sizes.len(),
{
    if sizes.len() == 0 {
        Seq::empty()
    } else {
        spec_sizes(sizes.drop_last()) + " + "@ + sizes.last()
    }
}

/// The implementations of an encoded record: `WirePassable`, the wire
/// size as the sum of the fields', encoding the fields in order, decoding
/// them in order and building the record from them, and vector transport
/// through the wire, followed by the record's exports.
pub open spec fn spec_encoded(record: Seq<char>, fields: Seq<FieldTokensView>, exports: Seq<char>) -> Seq<char> {
    let sizes = fields.map_values(|f: FieldTokensView| f.wire_size);
    let encoders = fields.map_values(|f: FieldTokensView| f.encode_to);
    let decoders = fields.map_values(|f: FieldTokensView| f.decode_from);
    let initializers = fields.map_values(|f: FieldTokensView| f.initializer);
    "unsafe impl ::boltffi::__private::WirePassable for "@ + record + " {} impl ::boltffi::__private::wire::WireEncode for "@ + record + " { fn wire_size(&self) -> usize { 0"@ + spec_sizes(sizes) + " } fn encode_to(&self, buffer: &mut [u8]) -> usize { let mut __boltffi_offset = 0usize; "@ + statements(encoders) + "__boltffi_offset } } impl ::boltffi::__private::wire::WireDecode for "@ + record + " { fn decode_from(buffer: &[u8]) -> ::boltffi::__private::wire::DecodeResult<Self> { let mut __boltffi_offset = 0usize; "@ + statements(decoders) + "Ok((Self { "@ + join(initializers, ", "@) + " }, __boltffi_offset)) } } impl ::boltffi::__private::VecTransport for "@ + record + " { fn pack_vec(values: Vec<"@ + record + ">) -> ::boltffi::__private::FfiBuf { ::boltffi::__private::FfiBuf::wire_encode(&values) } unsafe fn unpack_vec(pointer: *const u8, byte_len: usize) -> Vec<"@ + record + "> { let bytes = if byte_len == 0 { &[] } else { unsafe { ::core::slice::from_raw_parts(pointer, byte_len) } }; ::boltffi::__private::wire::decode(bytes).expect(\"wire decode failed in VecTransport::unpack_vec\") } } "@ + exports
}

/// Whether every field's custom types have converters in `table`.
pub open spec fn fields_registered(inputs: Seq<EncodedFieldInput>, table: Seq<CustomConverters>) -> bool {
    forall|i: int| 0 <= i < inputs.len() ==> all_registered(#[trigger] inputs[i].codec, table)
}

proof fn lemma_fields_error_sticks(inputs: Seq<EncodedFieldInput>, table: Seq<CustomConverters>, n: int)
    requires
        0 <= n <= inputs.len(),
        spec_fields(inputs.take(n), table) is Err,
    ensures
        spec_fields(inputs, table) == spec_fields(inputs.take(n), table),
    decreases inputs.len() - n,
{
    if n < inputs.len() {
        assert(inputs.take(n + 1).drop_last() =~= inputs.take(n));
        lemma_fields_error_sticks(inputs, table, n + 1);
    } else {
        assert(inputs.take(n) =~= inputs);
    }
}

/// Writes the implementations of an encoded record; see [`spec_encoded`].
/// The record's name must be an identifier, the source and the binding
/// must have as many fields, and every field must render.
pub fn encoded_record(
    record: &str,
    binding_fields: usize,
    fields: &Vec<EncodedFieldInput>,
    table: &Vec<CustomConverters>,
    exports: &str,
) -> (result: Result<String, ExpansionError>)
    requires
        fields_registered(fields@, table@),
    ensures
        !parses_as_ident(record@) ==> (result matches Err(error) && error@ == record_name_error()),
        parses_as_ident(record@) && fields@.len() != binding_fields ==> (result matches Err(error)
            && error@ == ExpansionErrorView::SourceSyntaxMismatch(
            "source and binding record field counts differ"@,
        )),
        parses_as_ident(record@) && fields@.len() == binding_fields ==> match spec_fields(
            fields@,
            table@,
        ) {
            Ok(tokens) => result matches Ok(text) && text@ == spec_encoded(record@, tokens, exports@),
            Err(error) => result matches Err(e) && e@ == error,
        },
{
    match checked_ident(record, "source record name is not a Rust identifier") {
        Ok(_) => {},
        Err(error) => return Err(error),
    }
    if fields.len() != binding_fields {
        return Err(ExpansionError::SourceSyntaxMismatch("source and binding record field counts differ"));
    }
    let ghost written: Seq<FieldTokensView> = Seq::empty();
    let mut sizes_text = String::new();
    let mut encoders: Vec<String> = Vec::new();
    let mut decoders: Vec<String> = Vec::new();
    let mut initializers: Vec<String> = Vec::new();
    let mut i: usize = 0;
    while i < fields.len()
        invariant
            i <= fields.len(),
            fields@.len() == binding_fields,
            parses_as_ident(record@),
            fields_registered(fields@, table@),
            spec_fields(fields@.take(i as int), table@) == Ok::<Seq<FieldTokensView>, ExpansionErrorView>(
                written,
            ),
            sizes_text@ == spec_sizes(written.map_values(|f: FieldTokensView| f.wire_size)),
            views(encoders@) == written.map_values(|f: FieldTokensView| f.encode_to),
            views(decoders@) == written.map_values(|f: FieldTokensView| f.decode_from),
            views(initializers@) == written.map_values(|f: FieldTokensView| f.initializer),
        decreases fields.len() - i,
    {
        proof {
            assert(fields@.take(i + 1).drop_last() =~= fields@.take(i as int));
            assert(fields@.take(i + 1).last() == fields@[i as int]);
            assert(fields@.take(i + 1).len() == i + 1);
            assert(all_registered(fields@[i as int].codec, table@));
        }
        let tokens = match field_tokens(&fields[i], table) {
            Ok(tokens) => tokens,
            Err(error) => {
                proof {
                    lemma_fields_error_sticks(fields@, table@, i + 1);
                }
                return Err(error);
            },
        };
        let ghost before = written;
        proof {
            written = written.push(tokens@);
            assert(written.drop_last() =~= before);
            assert(written.map_values(|f: FieldTokensView| f.wire_size).drop_last() =~= before.map_values(
                |f: FieldTokensView| f.wire_size,
            ));
        }
        sizes_text.append(" + ");
        sizes_text.append(tokens.wire_size.as_str());
        let ghost old_encoders = encoders@;
        let ghost old_decoders = decoders@;
        let ghost old_initializers = initializers@;
        let ghost encoder = tokens.encode_to;
        let ghost decoder = tokens.decode_from;
        let ghost initializer = tokens.initializer;
        encoders.push(tokens.encode_to);
        decoders.push(tokens.decode_from);
        initializers.push(tokens.initializer);
        proof {
            assert(encoders@ == old_encoders.push(encoder));
            assert(decoders@ == old_decoders.push(decoder));
            assert(initializers@ == old_initializers.push(initializer));
            assert(views(old_encoders.push(encoder)) =~= views(old_encoders).push(encoder@));
            assert(views(old_decoders.push(decoder)) =~= views(old_decoders).push(decoder@));
            assert(views(old_initializers.push(initializer)) =~= views(old_initializers).push(initializer@));
            assert(views(encoders@) =~= written.map_values(|f: FieldTokensView| f.encode_to));
            assert(views(decoders@) =~= written.map_values(|f: FieldTokensView| f.decode_from));
            assert(views(initializers@) =~= written.map_values(|f: FieldTokensView| f.initializer));
        }
        i = i + 1;
    }
    proof {
        assert(fields@.take(fields.len() as int) =~= fields@);
    }
    let encoders_text = write_statements(&encoders);
    let decoders_text = write_statements(&decoders);
    let initializers_text = join_strings(&initializers, ", ");
    let mut text = "unsafe impl ::boltffi::__private::WirePassable for ".to_owned();
    text.append(record);
    text.append(" {} impl ::boltffi::__private::wire::WireEncode for ");
    text.append(record);
    text.append(" { fn wire_size(&self) -> usize { 0");
    text.append(sizes_text.as_str());
    text.append(" } fn encode_to(&self, buffer: &mut [u8]) -> usize { let mut __boltffi_offset = 0usize; ");
    text.append(encoders_text.as_str());
    text.append("__boltffi_offset } } impl ::boltffi::__private::wire::WireDecode for ");
    text.append(record);
    text.append(" { fn decode_from(buffer: &[u8]) -> ::boltffi::__private::wire::DecodeResult<Self> { let mut __boltffi_offset = 0usize; ");
    text.append(decoders_text.as_str());
    text.append("Ok((Self { ");
    text.append(initializers_text.as_str());
    text.append(" }, __boltffi_offset)) } } impl ::boltffi::__private::VecTransport for ");
    text.append(record);
    text.append(" { fn pack_vec(values: Vec<");
    text.append(record);
    text.append(">) -> ::boltffi::__private::FfiBuf { ::boltffi::__private::FfiBuf::wire_encode(&values) } unsafe fn unpack_vec(pointer: *const u8, byte_len: usize) -> Vec<");
    text.append(record);
    text.append("> { let bytes = if byte_len == 0 { &[] } else { unsafe { ::core::slice::from_raw_parts(pointer, byte_len) } }; ::boltffi::__private::wire::decode(bytes).expect(\"wire decode failed in VecTransport::unpack_vec\") } } ");
    text.append(exports);
    Ok(text)
}

/// A record copied by its layout reads back exactly what it writes: its
/// wire size is `size_of::<Self>()` and its decoding reports that same
/// `size_of::<Self>()` bytes as consumed, whatever the record, its layout
/// and its exports.
pub proof fn lemma_direct_decode_consumes_its_wire_size(
    record: Seq<char>,
    size: usize,
    alignment: usize,
    exports: Seq<char>,
)
    ensures
        occurs_in(
            "fn wire_size(&self) -> usize { ::core::mem::size_of::<Self>() }"@,
            spec_direct(record, size, alignment, exports),
        ),
        occurs_in(
            "Some(value) => Ok((value, ::core::mem::size_of::<Self>()))"@,
            spec_direct(record, size, alignment, exports),
        ),
{
    let layout = spec_layout_checks(record, size, alignment);
    let passable = spec_passable_impl(record);
    let encode = spec_copy_encode_impl(record);
    let decode = spec_copy_decode_impl(record);
    let vec = spec_copy_vec_transport(record);
    let wire_size = "fn wire_size(&self) -> usize { ::core::mem::size_of::<Self>() }"@;
    let decoded = "Some(value) => Ok((value, ::core::mem::size_of::<Self>()))"@;
    let encode_before = "impl ::boltffi::__private::wire::WireEncode for "@ + record
        + " { const ENCODING_KIND: ::boltffi::__private::wire::WireEncodingKind = ::boltffi::__private::wire::WireEncodingKind::Blittable; fn is_fixed_size() -> bool { true } fn fixed_size() -> Option<usize> { Some(::core::mem::size_of::<Self>()) } "@;
    let encode_after = encode.subrange((encode_before.len() + wire_size.len()) as int, encode.len() as int);
    assert(encode =~= encode_before + wire_size + encode_after);
    lemma_occurs_in_middle(encode_before, wire_size, encode_after);
    let decode_before = "impl ::boltffi::__private::wire::WireDecode for "@ + record
        + " { fn decode_from(buffer: &[u8]) -> ::boltffi::__private::wire::DecodeResult<Self> { match <Self as ::boltffi::__private::wire::Blittable>::decode_value(buffer) { "@;
    let decode_after = decode.subrange((decode_before.len() + decoded.len()) as int, decode.len() as int);
    assert(decode =~= decode_before + decoded + decode_after);
    lemma_occurs_in_middle(decode_before, decoded, decode_after);
    lemma_occurs_in_suffix(wire_size, layout + passable, encode);
    lemma_occurs_in_prefix(wire_size, layout + passable + encode, decode);
    lemma_occurs_in_prefix(wire_size, layout + passable + encode + decode, vec);
    lemma_occurs_in_prefix(wire_size, layout + passable + encode + decode + vec, exports);
    lemma_occurs_in_suffix(decoded, layout + passable + encode, decode);
    lemma_occurs_in_prefix(decoded, layout + passable + encode + decode, vec);
    lemma_occurs_in_prefix(decoded, layout + passable + encode + decode + vec, exports);
}

/// A record copied by its layout checks at compile time that its size is
/// `size` bytes and its alignment `alignment` bytes, each against the
/// record type itself.
pub proof fn lemma_direct_checks_its_layout(record: Seq<char>, size: usize, alignment: usize, exports: Seq<char>)
    ensures
        occurs_in(
            "[(); "@ + decimal(size as nat) + "usize] = [(); ::core::mem::size_of::<"@ + record + ">()]"@,
            spec_direct(record, size, alignment, exports),
        ),
        occurs_in(
            "[(); "@ + decimal(alignment as nat) + "usize] = [(); ::core::mem::align_of::<"@ + record
                + ">()]"@,
            spec_direct(record, size, alignment, exports),
        ),
{
    let layout = spec_layout_checks(record, size, alignment);
    let rest = spec_passable_impl(record) + spec_copy_encode_impl(record) + spec_copy_decode_impl(record)
        + spec_copy_vec_transport(record) + exports;
    let size_check = "[(); "@ + decimal(size as nat) + "usize] = [(); ::core::mem::size_of::<"@ + record + ">()]"@;
    let align_check = "[(); "@ + decimal(alignment as nat) + "usize] = [(); ::core::mem::align_of::<"@ + record
        + ">()]"@;
    assert(layout =~= "const _: "@ + size_check + ("; const _: "@ + align_check + "; "@));
    lemma_occurs_in_middle("const _: "@, size_check, "; const _: "@ + align_check + "; "@);
    assert(layout =~= ("const _: "@ + size_check + "; const _: "@) + align_check + "; "@);
    lemma_occurs_in_middle("const _: "@ + size_check + "; const _: "@, align_check, "; "@);
    assert(spec_direct(record, size, alignment, exports) =~= layout + rest);
    lemma_occurs_in_prefix(size_check, layout, rest);
    lemma_occurs_in_prefix(align_check, layout, rest);
}

} // verus!
