use boltffi_scan::custom::CustomTypeConverter;
use boltffi_scan::expansion::ExpansionError;
use boltffi_scan::incoming::Conversion;
use boltffi_scan::param::encoded::{conversion_for, encoded_param, DecodeBorrow, EncodedParamInput};
use boltffi_scan::returned::encoded::{BufferShape, NativeBufferShape, WasmBufferShape};
use boltffi_scan::transform::CustomConverters;
use boltffi_scan::wire::CodecNode;

fn table() -> Vec<CustomConverters> {
    vec![CustomConverters {
        id: "demo::Email".to_string(),
        into_ffi: CustomTypeConverter::Expression("Email::into_ffi".to_string()),
        try_from_ffi: CustomTypeConverter::Expression("Email::try_from_ffi".to_string()),
    }]
}

fn input(shape: BufferShape, borrow: DecodeBorrow, writeback: bool) -> EncodedParamInput {
    EncodedParamInput {
        shape,
        codec: CodecNode::String,
        rust_type: "String".to_string(),
        borrow,
        ident: "name".to_string(),
        failure: "return 0;".to_string(),
        writeback,
    }
}

#[test]
fn encoded_parameters_arrive_as_pointer_and_length() {
    let tokens = encoded_param(&input(BufferShape::Native(NativeBufferShape::Slice), DecodeBorrow::Owned, false), &table())
        .unwrap();
    assert_eq!(tokens.ffi_parameters, vec!["__boltffi_name_ptr: *const u8".to_string(), "__boltffi_name_len: usize".to_string()]);
    assert_eq!(tokens.conversions.len(), 1);
    assert!(tokens.conversions[0].starts_with("let name: String = { if __boltffi_name_ptr.is_null() && __boltffi_name_len > 0 {"));
    assert!(tokens.conversions[0].contains("::boltffi::__private::wire::decode::<String>(__boltffi_bytes)"));
    assert!(tokens.writebacks.is_empty());
    assert_eq!(tokens.argument, "name");
}

#[test]
fn borrowed_encoded_parameters_borrow_their_storage() {
    let tokens = encoded_param(
        &input(BufferShape::Wasm32(WasmBufferShape::Slice), DecodeBorrow::Str { mutable: false }, true),
        &table(),
    )
    .unwrap();
    assert!(tokens.conversions[0].starts_with("let __boltffi_name_storage: String = {"));
    assert!(tokens.conversions[0].ends_with(" let name = __boltffi_name_storage.as_str();"));
    assert_eq!(tokens.ffi_parameters.len(), 2);
    assert!(tokens.writebacks.is_empty());
}

#[test]
fn mutable_native_encoded_parameters_are_written_back() {
    let tokens = encoded_param(
        &input(BufferShape::Native(NativeBufferShape::Slice), DecodeBorrow::Value { mutable: true }, true),
        &table(),
    )
    .unwrap();
    assert_eq!(tokens.ffi_parameters[2], "__boltffi_name_out: *mut ::boltffi::__private::FfiBuf");
    assert!(tokens.conversions[0].starts_with("let mut __boltffi_name_storage: String = {"));
    assert!(tokens.conversions[0].ends_with(" let name = &mut __boltffi_name_storage;"));
    assert_eq!(
        tokens.conversions[1],
        "if __boltffi_name_out.is_null() { ::boltffi::__private::set_last_error(format!(\"{}: writeback pointer is null\", stringify!(__boltffi_name_out))); return 0; }"
    );
    assert_eq!(
        tokens.writebacks,
        vec!["unsafe { ::core::ptr::write(__boltffi_name_out, ::boltffi::__private::FfiBuf::wire_encode(&__boltffi_name_storage)); }".to_string()]
    );
}

#[test]
fn encoded_parameters_refuse_other_shapes() {
    assert_eq!(
        encoded_param(&input(BufferShape::Native(NativeBufferShape::Buffer), DecodeBorrow::Owned, false), &table()).err(),
        Some(ExpansionError::UnsupportedExpansion("native encoded parameter shape"))
    );
    assert_eq!(
        encoded_param(&input(BufferShape::Wasm32(WasmBufferShape::Packed), DecodeBorrow::Owned, false), &table()).err(),
        Some(ExpansionError::UnsupportedExpansion("wasm encoded parameter shape"))
    );
}

#[test]
fn custom_codecs_decode_their_representation() {
    let email = CodecNode::Custom { id: "demo::Email".to_string(), representation: Box::new(CodecNode::String) };
    match conversion_for(&email, &table()).unwrap() {
        Conversion::Converted { tokens, fallible, decode_type } => {
            assert_eq!(tokens, "(Email::try_from_ffi)(__boltffi_decoded)");
            assert!(fallible);
            assert_eq!(decode_type, Some("String".to_string()));
        }
        Conversion::Unchanged => panic!("a custom codec is converted"),
    }
    assert!(matches!(conversion_for(&CodecNode::String, &table()), Ok(Conversion::Unchanged)));
}
