use boltffi_scan::ast::Primitive;
use boltffi_scan::custom::CustomTypeConverter;
use boltffi_scan::expansion::ExpansionError;
use boltffi_scan::transform::{incoming, outgoing, CustomConverters, ValueMode};
use boltffi_scan::wire::CodecNode;

fn email_table() -> Vec<CustomConverters> {
    vec![
        CustomConverters {
            id: "demo::Email".to_string(),
            into_ffi: CustomTypeConverter::Expression("Email::into_ffi".to_string()),
            try_from_ffi: CustomTypeConverter::Expression("Email::try_from_ffi".to_string()),
        },
        CustomConverters {
            id: "demo::Wrapped".to_string(),
            into_ffi: CustomTypeConverter::Expression("Wrapped::into_ffi".to_string()),
            try_from_ffi: CustomTypeConverter::Expression("1 +".to_string()),
        },
    ]
}

fn email() -> CodecNode {
    CodecNode::Custom { id: "demo::Email".to_string(), representation: Box::new(CodecNode::String) }
}

#[test]
fn outgoing_custom_values_call_their_converter() {
    let table = email_table();
    assert_eq!(outgoing(&email(), &table, ValueMode::Owned, "email"), Ok("(Email::into_ffi)(&email)".to_string()));
    assert_eq!(outgoing(&email(), &table, ValueMode::Borrowed, "email"), Ok("(Email::into_ffi)(email)".to_string()));
    let optional = CodecNode::Optional(Box::new(email()));
    assert_eq!(
        outgoing(&optional, &table, ValueMode::Owned, "email"),
        Ok("email.map(|value| (Email::into_ffi)(&value))".to_string())
    );
    assert_eq!(
        outgoing(&optional, &table, ValueMode::Borrowed, "email"),
        Ok("email.as_ref().map(|value| (Email::into_ffi)(value))".to_string())
    );
    let sequence = CodecNode::Sequence(Box::new(email()));
    assert_eq!(
        outgoing(&sequence, &table, ValueMode::Borrowed, "emails"),
        Ok("emails.iter().map(|value| (Email::into_ffi)(value)).collect::<Vec<_>>()".to_string())
    );
    let pair = CodecNode::Tuple(vec![CodecNode::Primitive(Primitive::I32), email()]);
    assert_eq!(
        outgoing(&pair, &table, ValueMode::Owned, "pair"),
        Ok("((pair).0, (Email::into_ffi)(&(pair).1), )".to_string())
    );
    let result = CodecNode::Result { ok: Box::new(email()), err: Box::new(CodecNode::String) };
    assert_eq!(
        outgoing(&result, &table, ValueMode::Owned, "r"),
        Ok("match r { Ok(value) => Ok((Email::into_ffi)(&value)), Err(error) => Err(error), }".to_string())
    );
}

#[test]
fn outgoing_nested_custom_converts_its_representation() {
    let nested = CodecNode::Custom { id: "demo::Wrapped".to_string(), representation: Box::new(email()) };
    assert_eq!(
        outgoing(&nested, &email_table(), ValueMode::Owned, "w"),
        Ok("{ let __boltffi_representation = (Wrapped::into_ffi)(&w); (Email::into_ffi)(&__boltffi_representation) }".to_string())
    );
}

#[test]
fn plain_values_cross_unchanged() {
    let table = email_table();
    let plain = CodecNode::Sequence(Box::new(CodecNode::Tuple(vec![CodecNode::String, CodecNode::Bytes])));
    assert_eq!(outgoing(&plain, &table, ValueMode::Owned, "items"), Ok("items".to_string()));
    let conversion = incoming(&plain, &table, "decoded").unwrap();
    assert_eq!(conversion.tokens, "decoded");
    assert!(!conversion.fallible && !conversion.changed);
}

#[test]
fn incoming_custom_values_try_their_converter() {
    let table = email_table();
    let conversion = incoming(&email(), &table, "decoded").unwrap();
    assert_eq!(conversion.tokens, "(Email::try_from_ffi)(decoded)");
    assert!(conversion.fallible && conversion.changed);
    let optional = CodecNode::Optional(Box::new(email()));
    let conversion = incoming(&optional, &table, "decoded").unwrap();
    assert_eq!(
        conversion.tokens,
        "(|__boltffi_value| { match __boltffi_value { Some(value) => (Email::try_from_ffi)(value).map(Some), None => Ok(None), } })(decoded)"
    );
    assert!(conversion.fallible);
    let pair = CodecNode::Tuple(vec![CodecNode::String, email()]);
    let conversion = incoming(&pair, &table, "decoded").unwrap();
    assert_eq!(
        conversion.tokens,
        "(|__boltffi_value| { Ok(((__boltffi_value).0, match (Email::try_from_ffi)((__boltffi_value).1) { Ok(value) => value, Err(error) => return Err(error), }, )) })(decoded)"
    );
}

#[test]
fn converters_that_are_not_rust_are_refused() {
    let nested = CodecNode::Custom { id: "demo::Wrapped".to_string(), representation: Box::new(CodecNode::String) };
    assert!(matches!(
        incoming(&nested, &email_table(), "decoded"),
        Err(ExpansionError::SourceSyntaxMismatch("custom converter is not Rust syntax"))
    ));
}
