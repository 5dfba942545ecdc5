use boltffi_scan::ast::Primitive;
use boltffi_scan::custom::CustomTypeConverter;
use boltffi_scan::expansion::ExpansionError;
use boltffi_scan::record_impls::{direct_record, encoded_record, field_tokens, source_method, EncodedFieldInput};
use boltffi_scan::transform::CustomConverters;
use boltffi_scan::wire::CodecNode;

fn names(items: &[&str]) -> Vec<String> {
    items.iter().map(|item| item.to_string()).collect()
}

fn mismatch(reason: &'static str) -> ExpansionError {
    ExpansionError::SourceSyntaxMismatch(reason)
}

fn field(name: &str, rust_type: &str, codec: CodecNode) -> EncodedFieldInput {
    EncodedFieldInput {
        name: name.to_string(),
        key: Some(name.to_string()),
        rust_type: rust_type.to_string(),
        codec,
    }
}

fn table() -> Vec<CustomConverters> {
    vec![CustomConverters {
        id: "demo::Email".to_string(),
        into_ffi: CustomTypeConverter::Expression("Email::into_ffi".to_string()),
        try_from_ffi: CustomTypeConverter::Expression("Email::try_from_ffi".to_string()),
    }]
}

#[test]
fn binding_methods_find_their_one_source_method() {
    let methods = names(&["new", "scale", "length", "scale"]);
    assert_eq!(source_method(&methods, "length"), Ok(2));
    assert_eq!(source_method(&methods, "area"), Err(mismatch("source record method is missing for binding method")));
    assert_eq!(source_method(&methods, "scale"), Err(mismatch("source record method name is ambiguous")));
}

#[test]
fn direct_records_check_their_layout_and_copy_themselves() {
    let text = direct_record("Point", 16, 8, "EXPORTS").unwrap();
    assert!(text.starts_with(
        "const _: [(); 16usize] = [(); ::core::mem::size_of::<Point>()]; const _: [(); 8usize] = [(); ::core::mem::align_of::<Point>()]; unsafe impl ::boltffi::__private::Passable for Point { type In = Point; type Out = Point;"
    ));
    assert!(text.contains("unsafe impl ::boltffi::__private::wire::Blittable for Point {}"));
    assert!(text.ends_with("}.to_vec() } } EXPORTS"));
    assert_eq!(direct_record("not a name", 16, 8, ""), Err(mismatch("source record name is not a Rust identifier")));
}

#[test]
fn plain_fields_are_written_and_read_as_they_are() {
    let tokens = field_tokens(&field("x", "f64", CodecNode::Primitive(Primitive::F64)), &table()).unwrap();
    assert_eq!(tokens.wire_size, "::boltffi::__private::wire::WireEncode::wire_size(&self.x)");
    assert_eq!(
        tokens.encode_to,
        "{ let __boltffi_written = ::boltffi::__private::wire::WireEncode::encode_to(&self.x, &mut buffer[__boltffi_offset..]); __boltffi_offset += __boltffi_written; }"
    );
    assert_eq!(
        tokens.decode_from,
        "let (__boltffi_x_decoded, __boltffi_x_used) = <f64 as ::boltffi::__private::wire::WireDecode>::decode_from(&buffer[__boltffi_offset..])?; __boltffi_offset += __boltffi_x_used; let x: f64 = __boltffi_x_decoded;"
    );
    assert_eq!(tokens.initializer, "x");
}

#[test]
fn custom_fields_are_converted_both_ways() {
    let email = CodecNode::Custom { id: "demo::Email".to_string(), representation: Box::new(CodecNode::String) };
    let tokens = field_tokens(&field("contact", "Email", email), &table()).unwrap();
    assert_eq!(
        tokens.wire_size,
        "{ let __boltffi_contact_wire = (Email::into_ffi)(&self.contact); ::boltffi::__private::wire::WireEncode::wire_size(&__boltffi_contact_wire) }"
    );
    assert_eq!(
        tokens.decode_from,
        "let (__boltffi_contact_decoded, __boltffi_contact_used) = <String as ::boltffi::__private::wire::WireDecode>::decode_from(&buffer[__boltffi_offset..])?; __boltffi_offset += __boltffi_contact_used; let contact: Email = match (Email::try_from_ffi)(__boltffi_contact_decoded) { Ok(value) => value, Err(_) => { return Err(::boltffi::__private::wire::DecodeError::InvalidValue(::boltffi::__private::wire::InvalidWireValue::CustomConversion)); } };"
    );
}

#[test]
fn fields_must_match_their_binding_key() {
    let mut renamed = field("x", "f64", CodecNode::Primitive(Primitive::F64));
    renamed.key = Some("y".to_string());
    assert!(matches!(field_tokens(&renamed, &table()), Err(ExpansionError::SourceSyntaxMismatch("source and binding record field keys differ"))));
    renamed.key = None;
    assert!(matches!(field_tokens(&renamed, &table()), Err(ExpansionError::SourceSyntaxMismatch("source and binding record field keys differ"))));
}

#[test]
fn encoded_records_sum_encode_and_decode_their_fields_in_order() {
    let fields = vec![
        field("x", "f64", CodecNode::Primitive(Primitive::F64)),
        field("name", "String", CodecNode::String),
    ];
    let text = encoded_record("Label", 2, &fields, &table(), "").unwrap();
    assert!(text.starts_with(
        "unsafe impl ::boltffi::__private::WirePassable for Label {} impl ::boltffi::__private::wire::WireEncode for Label { fn wire_size(&self) -> usize { 0 + ::boltffi::__private::wire::WireEncode::wire_size(&self.x) + ::boltffi::__private::wire::WireEncode::wire_size(&self.name) }"
    ));
    assert!(text.contains("Ok((Self { x, name }, __boltffi_offset))"));
    assert!(matches!(
        encoded_record("Label", 3, &fields, &table(), ""),
        Err(ExpansionError::SourceSyntaxMismatch("source and binding record field counts differ"))
    ));
}
