use boltffi_scan::returned::closure_invoke::{invoke_parameters, InvokeParameterInput, InvokeParameterPlan};
use boltffi_scan::enum_receiver::EnumReceiver;
use boltffi_scan::param::foreign_return::{
    ForeignClosureReturnRenderer, ForeignClosureReturnTokens, ForeignErrorPlan, ForeignReturnPlan,
};
use boltffi_scan::returned::closure_return::{
    ClosureErrorPlan, ClosureReturnPlan, ClosureReturnRenderer, ClosureReturnTokens, EncodedError,
    FallibleSuccess,
};
use boltffi_scan::returned::encoded::{BufferShape, NativeBufferShape, WasmBufferShape};

use boltffi_scan::ast::Primitive;
use boltffi_scan::async_call::{CompletionValues, PlainComplete};
use boltffi_scan::expansion::{ExpansionError, Target};
use boltffi_scan::incoming::{Conversion, Input};
use boltffi_scan::param::direct::{Argument, Conversion as DirectConversion, FfiType};
use boltffi_scan::param::Receive;
use boltffi_scan::record_receiver::{ReceiverKind, ReceiverPlan};
use boltffi_scan::export::RustCallTarget;
use boltffi_scan::returned::closure_write::{native_tokens, wasm_tokens, InvokeParameters, InvokeReturn};
use boltffi_scan::returned::handle::HandleTarget;
use boltffi_scan::returned::returned_closure::{ClosureForm, ReturnedClosure, ReturnedClosureKind};
use boltffi_scan::returned::{Invocation, ReturnPlan, ReturnShape, ValueTokens};
use boltffi_scan::standard::StandardType;
use boltffi_scan::stream::{pop_batch, subscribe, StreamItemPlan, SubscribeExport};
use boltffi_scan::type_ref::TypeRef;

fn strings(parts: &[&str]) -> Vec<String> {
    parts.iter().map(|part| part.to_string()).collect()
}

// Stream batches.

#[test]
fn pop_batch_copies_direct_records_in_one_batch() {
    let text = pop_batch(
        &StreamItemPlan::Direct { ty: TypeRef::Primitive(Primitive::I32) },
        "demo_pop",
        "i32",
        "u64",
        "0",
        "items",
        "slots",
    );
    assert_eq!(
        text,
        "demo_pop(subscription_handle: u64, output_ptr: *mut <i32 as ::boltffi::__private::Passable>::Out, output_capacity: usize) -> usize { if subscription_handle == 0 || output_ptr.is_null() || output_capacity == 0 { return 0; } let subscription = unsafe { &*(subscription_handle as usize as *const ::boltffi::__private::EventSubscription<i32>) }; fn __boltffi_pop_direct_stream_batch<StreamItem>(subscription: &::boltffi::__private::EventSubscription<StreamItem>, output_ptr: *mut <StreamItem as ::boltffi::__private::Passable>::Out, output_capacity: usize) -> usize where StreamItem: ::boltffi::__private::Passable<Out = StreamItem> + Send + 'static { let slots = unsafe { ::core::slice::from_raw_parts_mut(output_ptr.cast::<::core::mem::MaybeUninit<StreamItem>>(), output_capacity) }; subscription.pop_batch_into(slots) } __boltffi_pop_direct_stream_batch::<i32>(subscription, output_ptr, output_capacity) }"
    );
}

#[test]
fn pop_batch_packs_other_direct_items_one_at_a_time() {
    let text = pop_batch(&StreamItemPlan::Direct { ty: TypeRef::String }, "pop", "String", "u64", "0", "items", "slots");
    assert!(text.contains("slots.iter_mut().map_while(|slot| { let item = subscription.pop_event()?; slot.write(<String as ::boltffi::__private::Passable>::pack(item)); Some(()) }).count() }"));
    assert!(!text.contains("pop_batch_into"));
}

#[test]
fn pop_batch_answers_an_encoded_batch() {
    let plan = StreamItemPlan::Encoded {
        return_type: "-> FfiBuf".to_string(),
        empty_value: "FfiBuf::empty()".to_string(),
        batch_value: "encode(items)".to_string(),
    };
    let text = pop_batch(&plan, "pop", "Event", "u64", "0", "items", "slots");
    assert_eq!(
        text,
        "pop(subscription_handle: u64, max_count: usize) -> FfiBuf { if subscription_handle == 0 || max_count == 0 { return FfiBuf::empty(); } let subscription = unsafe { &*(subscription_handle as usize as *const ::boltffi::__private::EventSubscription<Event>) }; let items: Vec<Event> = ::core::iter::from_fn(|| subscription.pop_event()).take(max_count).collect(); if items.is_empty() { FfiBuf::empty() } else { encode(items) } }"
    );
}

// Wrapper returns.

fn invocation(writebacks: &[&str]) -> Invocation {
    Invocation {
        conversions: strings(&["let a = 1;"]),
        call: "demo(a)".to_string(),
        writebacks: strings(writebacks),
    }
}

fn no_value() -> ValueTokens {
    ValueTokens { return_type: String::new(), value: String::new() }
}

#[test]
fn void_return_answers_ok_status() {
    let tokens = ReturnShape::Status.tokens(&invocation(&["w();"]), "()", "__boltffi_result", &no_value()).expect("tokens");
    assert_eq!(tokens.return_type, "-> ::boltffi::__private::FfiStatus");
    assert_eq!(tokens.body, "let a = 1; demo(a); w(); ::boltffi::__private::FfiStatus::OK");
}

#[test]
fn primitive_return_binds_the_result_only_for_writebacks() {
    let plain = ReturnShape::Primitive { ty: "i32".to_string(), binds_result: false }
        .tokens(&invocation(&[]), "i32", "__boltffi_result", &no_value())
        .expect("tokens");
    assert_eq!(plain.return_type, "-> i32");
    assert_eq!(plain.body, "let a = 1; demo(a)");
    let bound = ReturnShape::Primitive { ty: "i32".to_string(), binds_result: true }
        .tokens(&invocation(&["w();"]), "i32", "__boltffi_result", &no_value())
        .expect("tokens");
    assert_eq!(bound.body, "let a = 1; let __boltffi_result = demo(a); w(); __boltffi_result");
}

#[test]
fn packed_return_packs_the_call() {
    let tokens = ReturnShape::Packed { binds_result: false }
        .tokens(&invocation(&[]), "Point", "__boltffi_result", &no_value())
        .expect("tokens");
    assert_eq!(tokens.return_type, "-> <Point as ::boltffi::__private::Passable>::Out");
    assert_eq!(tokens.body, "let a = 1; ::boltffi::__private::Passable::pack(demo(a))");
}

#[test]
fn handle_return_types_the_result_and_answers_the_handle() {
    let value = ValueTokens { return_type: "u64".to_string(), value: "handle(__boltffi_result)".to_string() };
    let tokens = ReturnShape::Handle.tokens(&invocation(&[]), "Arc<Counter>", "__boltffi_result", &value).expect("tokens");
    assert_eq!(tokens.return_type, "-> u64");
    assert_eq!(tokens.body, "let a = 1; let __boltffi_result: Arc<Counter> = demo(a); handle(__boltffi_result)");
}

#[test]
fn fallible_and_closure_returns_render_elsewhere() {
    assert!(ReturnShape::Fallible.tokens(&invocation(&[]), "T", "r", &no_value()).is_none());
    assert!(ReturnShape::Closure.tokens(&invocation(&[]), "T", "r", &no_value()).is_none());
}

// Record receivers.

#[test]
fn initializer_is_called_on_the_type() {
    let rendered = ReceiverKind::NoReceiver
        .render(None, Target::Native, "Point", "receiver", "new")
        .unwrap_or_else(|_| panic!("renders"));
    assert!(matches!(rendered.plan, ReceiverPlan::Absent));
    assert!(!rendered.requires_failure_return);
    assert!(matches!(
        rendered.call.target,
        RustCallTarget::Associated { ref owner, ref method } if owner == "Point" && method == "new"
    ));
}

#[test]
fn initializer_with_a_receiver_is_refused() {
    assert!(matches!(
        ReceiverKind::NoReceiver.render(Some(Receive::ByRef), Target::Native, "Point", "r", "new"),
        Err(ExpansionError::SourceSyntaxMismatch("initializer binding unexpectedly has a receiver"))
    ));
}

#[test]
fn mutable_direct_receiver_needs_a_writeback() {
    assert!(matches!(
        ReceiverKind::Direct.render(Some(Receive::ByMutRef), Target::Native, "Point", "r", "scale"),
        Err(ExpansionError::UnsupportedExpansion("mutable direct record receiver without writeback"))
    ));
}

#[test]
fn direct_receiver_on_wasm_is_read_through_a_pointer() {
    let rendered = ReceiverKind::Direct
        .render(Some(Receive::ByMutRef), Target::Wasm32, "Point", "receiver", "scale")
        .unwrap_or_else(|_| panic!("renders"));
    assert!(rendered.requires_failure_return);
    match rendered.plan {
        ReceiverPlan::Direct(plan) => {
            assert!(matches!(plan.ffi_type, FfiType::MutBytes));
            assert_eq!(plan.conversion, Some(DirectConversion::ReadRecord { through_out: true }));
            assert!(plan.writes_back);
            assert_eq!(plan.argument, Argument::MutRef);
        }
        _ => panic!("expected a direct plan"),
    }
    assert!(matches!(
        rendered.call.target,
        RustCallTarget::Method { ref receiver, ref method } if receiver == "receiver" && method == "scale"
    ));
}

#[test]
fn direct_receiver_needs_a_record_type_name() {
    assert!(matches!(
        ReceiverKind::Direct.render(Some(Receive::ByRef), Target::Native, "not a type!", "r", "m"),
        Err(ExpansionError::SourceSyntaxMismatch("source record name is not a Rust type"))
    ));
}

#[test]
fn encoded_receiver_is_decoded_and_can_fail() {
    let rendered = ReceiverKind::Encoded
        .render(Some(Receive::ByRef), Target::Native, "Point", "receiver", "length")
        .unwrap_or_else(|_| panic!("renders"));
    assert!(matches!(rendered.plan, ReceiverPlan::Encoded(Receive::ByRef)));
    assert!(rendered.requires_failure_return);
    assert!(matches!(
        ReceiverKind::Encoded.render(Some(Receive::ByMutRef), Target::Native, "Point", "r", "m"),
        Err(ExpansionError::UnsupportedExpansion("mutable encoded record receiver without writeback"))
    ));
}

// Encoded parameters.

fn decode_input() -> Input {
    Input { pointer: "ptr".to_string(), length: "len".to_string(), failure: "return FAIL;".to_string() }
}

#[test]
fn owned_decodes_the_parameter_type_directly() {
    let text = decode_input().owned(&Conversion::Unchanged, "Point", "point", false).expect("renders");
    assert_eq!(
        text,
        "let point: Point = { if ptr.is_null() && len > 0 { ::boltffi::__private::set_last_error(format!(\"{}: null pointer with non-zero length (buf_len={})\", stringify!(point), len)); return FAIL; } let __boltffi_bytes: &[u8] = if len == 0 { &[] } else { unsafe { ::core::slice::from_raw_parts(ptr, len) } }; match ::boltffi::__private::wire::decode::<Point>(__boltffi_bytes) { Ok(value) => value, Err(error) => { ::boltffi::__private::set_last_error(format!(\"{}: wire decode failed: {} (buf_len={})\", stringify!(point), error, len)); return FAIL; } } };"
    );
}

#[test]
fn owned_converts_a_custom_type_after_decoding() {
    let conversion = Conversion::Converted {
        tokens: "Email::try_from(__boltffi_decoded)".to_string(),
        fallible: true,
        decode_type: Some("String".to_string()),
    };
    let text = decode_input().owned(&conversion, "Email", "email", true).expect("renders");
    assert!(text.starts_with("let mut email: Email = { "));
    assert!(text.contains("let __boltffi_decoded = match ::boltffi::__private::wire::decode::<String>(__boltffi_bytes)"));
    assert!(text.ends_with("match Email::try_from(__boltffi_decoded) { Ok(value) => value, Err(error) => { ::boltffi::__private::set_last_error(format!(\"{}: custom conversion failed: {:?} (buf_len={})\", stringify!(email), error, len)); return FAIL; } } };"));
}

#[test]
fn owned_needs_a_representation_type_to_convert() {
    let conversion = Conversion::Converted { tokens: "x".to_string(), fallible: false, decode_type: None };
    assert_eq!(
        decode_input().owned(&conversion, "Email", "email", false),
        Err(ExpansionError::UnsupportedExpansion("custom codec representation type"))
    );
}

// Async completions.

fn values() -> CompletionValues {
    CompletionValues { return_type: "u64".to_string(), value: "handle".to_string(), empty: "0".to_string() }
}

#[test]
fn void_async_completion_answers_nothing() {
    let complete = PlainComplete::new(&ReturnPlan::Void, "()", &values()).unwrap_or_else(|_| panic!("completes"));
    assert_eq!(complete.return_type, "");
    assert_eq!(complete.ok_pattern, "_");
    assert_eq!(complete.ok_body, "");
    assert_eq!(complete.err_body, "");
}

#[test]
fn primitive_async_completion_defaults_on_error() {
    let complete = PlainComplete::new(&ReturnPlan::DirectPrimitive(Primitive::U8), "u8", &values())
        .unwrap_or_else(|_| panic!("completes"));
    assert_eq!(complete.return_type, "-> u8");
    assert_eq!(complete.ok_pattern, "result");
    assert_eq!(complete.ok_body, "result");
    assert_eq!(complete.err_body, "Default::default()");
}

#[test]
fn handle_async_completion_answers_the_carrier() {
    let complete = PlainComplete::new(&ReturnPlan::Handle { target: HandleTarget::Class }, "Arc<C>", &values())
        .unwrap_or_else(|_| panic!("completes"));
    assert_eq!(complete.return_type, "-> u64");
    assert_eq!(complete.ok_pattern, "__boltffi_result");
    assert_eq!(complete.ok_body, "handle");
    assert_eq!(complete.err_body, "0");
}

#[test]
fn out_pointer_returns_have_no_async_form() {
    assert!(matches!(
        PlainComplete::new(&ReturnPlan::DirectViaOutPointer, "T", &values()),
        Err(ExpansionError::UnsupportedExpansion("async return shape"))
    ));
}

// Returned closures.

fn closure(kind: ReturnedClosureKind, form: ClosureForm) -> ReturnedClosure {
    ReturnedClosure { kind, form, parameters: strings(&["i32"]), return_type: Some("bool".to_string()) }
}

#[test]
fn returned_closure_types_and_values() {
    let once = closure(ReturnedClosureKind::ImplTrait, ClosureForm::FnOnce);
    assert_eq!(once.trait_object(), "Box<dyn FnOnce(i32) -> bool + 'static>");
    assert_eq!(once.context_type(), "Option<Box<dyn FnOnce(i32) -> bool + 'static>>");
    assert_eq!(once.context_value("f").unwrap(), "Some(Box::new(f) as Box<dyn FnOnce(i32) -> bool + 'static>)");
    assert_eq!(once.context_binding("ctx"), "(&mut *(ctx)).take().expect(\"closure already invoked\")");
    let boxed = closure(ReturnedClosureKind::Boxed, ClosureForm::FnMut);
    assert_eq!(boxed.context_value("f").unwrap(), "f");
    assert_eq!(boxed.context_binding("ctx"), "&mut *(ctx)");
    assert_eq!(
        closure(ReturnedClosureKind::FunctionPointer, ClosureForm::Fn).context_value("f"),
        Err(ExpansionError::UnsupportedExpansion("closure return form"))
    );
}

#[test]
fn nullable_closure_writes_present_or_absent() {
    let nullable = closure(ReturnedClosureKind::NullableBoxed, ClosureForm::Fn);
    assert_eq!(
        nullable.write_body("f", "P;", "A;").unwrap(),
        "match f { Some(f) => { let f: Box<dyn Fn(i32) -> bool + 'static> = f; P; } None => { A; } }"
    );
    assert_eq!(closure(ReturnedClosureKind::Boxed, ClosureForm::Fn).write_body("f", "P;", "A;").unwrap(), "P;");
}

fn invoke() -> (InvokeParameters, InvokeReturn) {
    (
        InvokeParameters {
            items: strings(&["struct Helper;"]),
            ffi_parameters: strings(&["a: i32"]),
            ffi_parameter_types: strings(&["i32"]),
            conversions: strings(&["let a = a;"]),
            arguments: strings(&["a"]),
        },
        InvokeReturn {
            return_type: "-> bool".to_string(),
            ffi_parameters: Vec::new(),
            ffi_parameter_types: Vec::new(),
            before_call: String::new(),
            after_call: String::new(),
        },
    )
}

#[test]
fn native_closure_is_written_as_invoke_context_release() {
    let (parameters, outcome) = invoke();
    let tokens = native_tokens(
        &closure(ReturnedClosureKind::Boxed, ClosureForm::Fn),
        "f",
        "__BoltffiClosureReturnf",
        "__boltffi_make_closure_call",
        "__boltffi_make_closure_release",
        &parameters,
        &outcome,
    )
    .unwrap_or_else(|_| panic!("writes"));
    assert_eq!(tokens.items.len(), 2);
    assert_eq!(tokens.items[0], "struct Helper;");
    assert!(tokens.items[1].starts_with("#[cfg(not(target_arch = \"wasm32\"))] unsafe extern \"C\" fn __boltffi_make_closure_call(__boltffi_context: *mut ::core::ffi::c_void, a: i32) -> bool { let mut __boltffi_closure = unsafe { &*(__boltffi_context as *mut Box<dyn Fn(i32) -> bool + 'static>) }; let a = a; __boltffi_closure(a) }"));
    assert_eq!(tokens.ffi_parameter, "__boltffi_return_out: *mut ::core::ffi::c_void");
    assert!(tokens.body.starts_with("#[repr(C)] struct __BoltffiClosureReturnf { invoke: Option<unsafe extern \"C\" fn(*mut ::core::ffi::c_void, i32) -> bool>,"));
    assert!(tokens.body.ends_with("let __boltffi_closure_context = Box::into_raw(Box::new(f)) as *mut ::core::ffi::c_void; unsafe { *__boltffi_return_out = __BoltffiClosureReturnf { invoke: Some(__boltffi_make_closure_call), context: __boltffi_closure_context, release: Some(__boltffi_make_closure_release) }; }"));
}

#[test]
fn wasm_closure_is_written_as_an_address() {
    let (parameters, outcome) = invoke();
    let tokens = wasm_tokens(
        &closure(ReturnedClosureKind::NullableBoxed, ClosureForm::FnOnce),
        "f",
        "demo_call",
        "demo_free",
        &parameters,
        &outcome,
    )
    .unwrap_or_else(|_| panic!("writes"));
    assert_eq!(tokens.ffi_parameter, "__boltffi_return_out: *mut u32");
    assert!(tokens.items[1].contains("pub unsafe extern \"C\" fn demo_free(__boltffi_context: u32) { if __boltffi_context != 0 {"));
    assert!(tokens.body.ends_with("None => { unsafe { *__boltffi_return_out = 0; } } }"));
    assert!(tokens.body.contains("let f: Option<Box<dyn FnOnce(i32) -> bool + 'static>> = Some(f);"));
}

#[test]
fn every_standard_path_ends_in_its_own_leaf() {
    let all = [
        StandardType::String,
        StandardType::Vec,
        StandardType::Option,
        StandardType::Result,
        StandardType::HashMap,
        StandardType::BTreeMap,
        StandardType::Box,
        StandardType::Arc,
    ];
    for standard in all {
        for path in standard.paths() {
            let leaf = path.rsplit(':').next().unwrap_or(path);
            assert_eq!(StandardType::from_leaf(leaf), Some(standard), "{path}");
        }
    }
}

// Returns of closures.

fn encoded_error() -> EncodedError {
    EncodedError {
        return_type: "-> FfiBuf".to_string(),
        value: "encode(__boltffi_error)".to_string(),
        empty_value: "FfiBuf::empty()".to_string(),
    }
}

#[test]
fn rust_closure_return_texts() {
    let passable = ClosureReturnTokens::DirectPassable { rust_type: "Point".to_string() };
    assert_eq!(passable.return_type(), "-> <Point as ::boltffi::__private::Passable>::Out");
    assert_eq!(passable.body("f(a)"), "::boltffi::__private::Passable::pack(f(a))");
    assert_eq!(passable.failure(), "return unsafe { ::core::mem::MaybeUninit::zeroed().assume_init() };");
    assert!(passable.ffi_parameter_types().is_empty());
    assert_eq!(ClosureReturnTokens::Void.body("f()"), "f();");
    assert_eq!(ClosureReturnTokens::WasmEncoded.return_type(), "-> u64");
    let fallible = ClosureReturnTokens::Fallible {
        error: encoded_error(),
        success: FallibleSuccess::DirectPrimitive { ffi_type: "i32".to_string() },
    };
    assert_eq!(fallible.return_type(), "-> FfiBuf");
    assert_eq!(fallible.ffi_parameter_types(), vec!["*mut i32".to_string()]);
    assert_eq!(
        fallible.body("f()"),
        "match f() { Ok(__boltffi_success) => { if !__boltffi_success_out.is_null() { unsafe { *__boltffi_success_out = __boltffi_success; } } FfiBuf::empty() } Err(__boltffi_error) => { encode(__boltffi_error) } }"
    );
    assert_eq!(
        fallible.failure(),
        "{ let __boltffi_error = ::boltffi::__private::take_last_error().unwrap_or_else(|| \"closure invoke argument conversion failed\".to_string()); return encode(__boltffi_error); }"
    );
}

#[test]
fn rust_closure_return_choices() {
    let buffer = BufferShape::Native(NativeBufferShape::Buffer);
    assert!(matches!(
        ClosureReturnRenderer.render(&ClosureReturnPlan::Encoded(buffer), &ClosureErrorPlan::Infallible, Target::Native, true, None, Ok("T")),
        Ok(ClosureReturnTokens::NativeEncoded)
    ));
    assert!(matches!(
        ClosureReturnRenderer.render(&ClosureReturnPlan::Encoded(buffer), &ClosureErrorPlan::Infallible, Target::Wasm32, true, None, Ok("T")),
        Err(ExpansionError::UnsupportedExpansion("wasm closure return invoke encoded return shape"))
    ));
    assert!(matches!(
        ClosureReturnRenderer.render(&ClosureReturnPlan::Void, &ClosureErrorPlan::Infallible, Target::Native, true, None, Ok("T")),
        Err(ExpansionError::SourceSyntaxMismatch("source closure invoke return does not match binding return plan"))
    ));
    assert!(matches!(
        ClosureReturnRenderer.render(&ClosureReturnPlan::Direct, &ClosureErrorPlan::Infallible, Target::Native, true, None, Ok("T")),
        Err(ExpansionError::SourceSyntaxMismatch("closure return invoke direct return requires source return type"))
    ));
    let error = ClosureErrorPlan::Encoded { shape: buffer, error: encoded_error() };
    match ClosureReturnRenderer.render(&ClosureReturnPlan::DirectOut, &error, Target::Native, true, None, Ok("Point")) {
        Ok(ClosureReturnTokens::Fallible { success: FallibleSuccess::DirectPassable { rust_type }, .. }) => {
            assert_eq!(rust_type, "Point")
        }
        _ => panic!("expected a fallible passable return"),
    }
    assert!(matches!(
        ClosureReturnRenderer.render(&ClosureReturnPlan::Other, &error, Target::Native, true, None, Ok("T")),
        Err(ExpansionError::UnsupportedExpansion("closure return invoke return shape"))
    ));
}

#[test]
fn foreign_closure_return_bodies() {
    assert_eq!(ForeignClosureReturnTokens::Void.body("f()"), "unsafe { f(); }");
    assert_eq!(
        ForeignClosureReturnTokens::DirectPassable { rust_type: "Point".to_string() }.body("f()"),
        "unsafe { <Point as ::boltffi::__private::Passable>::unpack(f()) }"
    );
    assert_eq!(
        ForeignClosureReturnTokens::NativeFallibleVoid { error: "decode(__boltffi_error_bytes)".to_string() }.body("f()"),
        "{ let __boltffi_error_buf = unsafe { f() }; if __boltffi_error_buf.is_empty() { Ok(()) } else { let __boltffi_error_bytes = unsafe { __boltffi_error_buf.as_byte_slice() }; Err(decode(__boltffi_error_bytes)) } }"
    );
    assert_eq!(
        ForeignClosureReturnTokens::WasmFallibleDirectPrimitive { ffi_type: "u8".to_string() }.body("f()"),
        "let mut __boltffi_success = ::core::mem::MaybeUninit::<u8>::uninit(); let __boltffi_error_packed = unsafe { f() }; if __boltffi_error_packed == 0 { Ok(unsafe { __boltffi_success.assume_init() }) } else { Err(unsafe { ::boltffi::__private::take_packed_utf8_string(__boltffi_error_packed) }) }"
    );
    assert_eq!(ForeignClosureReturnTokens::WasmPackedString.setup(), "");
}

#[test]
fn foreign_closure_return_choices() {
    let packed = BufferShape::Wasm32(WasmBufferShape::Packed);
    let string_error = ForeignErrorPlan::Encoded { shape: packed, string: true, error: String::new() };
    assert!(matches!(
        ForeignClosureReturnRenderer.render(&ForeignReturnPlan::Void, &string_error, Target::Wasm32, false, None, Ok("T")),
        Ok(ForeignClosureReturnTokens::WasmFallibleVoidString)
    ));
    let bytes_error = ForeignErrorPlan::Encoded { shape: packed, string: false, error: String::new() };
    assert!(matches!(
        ForeignClosureReturnRenderer.render(&ForeignReturnPlan::Void, &bytes_error, Target::Wasm32, false, None, Ok("T")),
        Err(ExpansionError::UnsupportedExpansion("closure invoke return shape"))
    ));
    let value = ForeignReturnPlan::Encoded { shape: packed, string: false, value: String::new() };
    assert!(matches!(
        ForeignClosureReturnRenderer.render(&value, &ForeignErrorPlan::Infallible, Target::Wasm32, true, None, Ok("T")),
        Err(ExpansionError::UnsupportedExpansion("wasm closure invoke encoded return"))
    ));
    let buffer = ForeignReturnPlan::Encoded {
        shape: BufferShape::Native(NativeBufferShape::Buffer),
        string: false,
        value: "decode(__boltffi_result_bytes)".to_string(),
    };
    match ForeignClosureReturnRenderer.render(&buffer, &ForeignErrorPlan::Infallible, Target::Native, true, Some("Point"), Ok("T")) {
        Ok(ForeignClosureReturnTokens::NativeEncoded { value }) => assert_eq!(value, "decode(__boltffi_result_bytes)"),
        _ => panic!("expected a native encoded return"),
    }
    assert!(matches!(
        ForeignClosureReturnRenderer.render(&buffer, &ForeignErrorPlan::Infallible, Target::Native, true, None, Ok("T")),
        Err(ExpansionError::SourceSyntaxMismatch("closure invoke encoded return requires source return type"))
    ));
}

#[test]
fn subscribe_hands_out_the_subscription() {
    let export = SubscribeExport {
        class: "Feed".to_string(),
        method: "events".to_string(),
        handle_type: "FeedHandle".to_string(),
        receiver: "receiver".to_string(),
        receiver_handle: "receiver_handle".to_string(),
        stream_handle_type: "u64".to_string(),
        stream_handle_zero: "0".to_string(),
    };
    assert_eq!(
        subscribe("feed_subscribe", "u64", "0", &export),
        "feed_subscribe(receiver: u64) -> u64 { if receiver == 0 { return 0; } let receiver_handle = receiver as usize as *mut FeedHandle; let receiver: &Feed = unsafe { FeedHandle::shared(receiver_handle) }; let subscription = receiver.events(); ::std::sync::Arc::into_raw(subscription) as usize as u64 }"
    );
}

#[test]
fn closure_success_out_parameters() {
    let fallible = ClosureReturnTokens::Fallible {
        error: encoded_error(),
        success: FallibleSuccess::Encoded { out_type: "FfiBuf".to_string(), value: "v".to_string() },
    };
    assert_eq!(fallible.ffi_parameters(), vec!["__boltffi_success_out: *mut FfiBuf".to_string()]);
    assert!(ClosureReturnTokens::Void.ffi_parameters().is_empty());
}

#[test]
fn foreign_success_slot_is_passed_to_the_call() {
    let slot = ForeignClosureReturnTokens::WasmFalliblePackedString { ok_type: "String".to_string() };
    assert_eq!(slot.call_arguments(), vec!["__boltffi_success.as_mut_ptr()".to_string()]);
    assert!(ForeignClosureReturnTokens::WasmFallibleVoidString.call_arguments().is_empty());
}

#[test]
fn foreign_closure_ffi_signature_types() {
    assert_eq!(ForeignClosureReturnTokens::Void.ffi_return_type(), "");
    assert_eq!(
        ForeignClosureReturnTokens::DirectPrimitive { ffi_type: "i32".to_string() }.ffi_return_type(),
        "-> i32"
    );
    assert_eq!(
        ForeignClosureReturnTokens::DirectPassable { rust_type: "Point".to_string() }.ffi_return_type(),
        "-> <Point as ::boltffi::__private::Passable>::In"
    );
    let encoded = ForeignClosureReturnTokens::NativeFallibleEncoded {
        ok_type: "Vec<u8>".to_string(),
        ok: "ok".to_string(),
        error: "err".to_string(),
    };
    assert_eq!(encoded.ffi_return_type(), "-> ::boltffi::__private::FfiBuf");
    assert_eq!(encoded.ffi_parameter_types(), vec!["*mut ::boltffi::__private::FfiBuf".to_string()]);
    assert_eq!(ForeignClosureReturnTokens::WasmPackedString.ffi_return_type(), "-> u64");
    assert_eq!(ForeignClosureReturnTokens::WasmPackedString.ffi_parameter_types(), Vec::<String>::new());
    assert_eq!(
        ForeignClosureReturnTokens::WasmFallibleDirectPassable { ok_type: "Point".to_string() }
            .ffi_parameter_types(),
        vec!["*mut <Point as ::boltffi::__private::Passable>::In".to_string()]
    );
}

#[test]
fn direct_parameters_are_written_from_their_plan() {
    let input = boltffi_scan::param::direct::Input {
        ty: TypeRef::Primitive(Primitive::I32),
        receive: Receive::ByMutRef,
        target: Target::Native,
    };
    let tokens = boltffi_scan::param::direct::Renderer.tokens(input, "count", "i32", "return;").unwrap();
    assert!(tokens.items.is_empty());
    assert_eq!(tokens.ffi_parameters, vec!["count: i32".to_string()]);
    assert_eq!(tokens.conversions, vec!["let mut count = count;".to_string()]);
    assert!(tokens.writebacks.is_empty());
    assert_eq!(tokens.argument, "&mut count");
    let record = boltffi_scan::param::direct::Input {
        ty: TypeRef::Other,
        receive: Receive::ByRef,
        target: Target::Native,
    };
    let tokens = boltffi_scan::param::direct::Renderer.tokens(record, "p", "Point", "return;").unwrap();
    assert_eq!(tokens.ffi_parameters, vec!["p: <Point as ::boltffi::__private::Passable>::In".to_string()]);
    assert_eq!(
        tokens.conversions,
        vec!["let p: Point = unsafe { <Point as ::boltffi::__private::Passable>::unpack(p) };".to_string()]
    );
    assert_eq!(tokens.argument, "&p");
    let unknown = boltffi_scan::param::direct::Input {
        ty: TypeRef::Other,
        receive: Receive::Other,
        target: Target::Native,
    };
    assert!(matches!(
        boltffi_scan::param::direct::Renderer.tokens(unknown, "p", "Point", "return;"),
        Err(ExpansionError::UnsupportedExpansion("unknown direct parameter receive mode"))
    ));
}

#[test]
fn receivers_contribute_their_parameters_and_reads() {
    let absent = ReceiverKind::NoReceiver
        .render(None, Target::Native, "Point", "receiver", "new")
        .unwrap_or_else(|_| panic!("renders"));
    let tokens = absent.tokens("Point", "receiver", "return;");
    assert!(tokens.ffi_parameters.is_empty() && tokens.conversions.is_empty() && tokens.writebacks.is_empty());
    assert!(!tokens.requires_failure_return);

    let direct = ReceiverKind::Direct
        .render(Some(Receive::ByMutRef), Target::Wasm32, "Point", "receiver", "scale")
        .unwrap_or_else(|_| panic!("renders"));
    let tokens = direct.tokens("Point", "receiver", "return 0;");
    assert_eq!(tokens.ffi_parameters, vec!["receiver: *mut u8".to_string()]);
    assert_eq!(
        tokens.conversions,
        vec!["let __boltffi_receiver_out = receiver; if __boltffi_receiver_out.is_null() { ::boltffi::__private::set_last_error(format!(\"{}: null direct record pointer\", stringify!(receiver))); return 0; } let mut receiver: Point = unsafe { let __boltffi_value = ::core::ptr::read_unaligned(__boltffi_receiver_out as *const <Point as ::boltffi::__private::Passable>::In); <Point as ::boltffi::__private::Passable>::unpack(__boltffi_value) };".to_string()]
    );
    assert_eq!(
        tokens.writebacks,
        vec!["unsafe { ::core::ptr::write_unaligned(__boltffi_receiver_out as *mut <Point as ::boltffi::__private::Passable>::In, ::boltffi::__private::Passable::pack(receiver)); }".to_string()]
    );
    assert!(tokens.requires_failure_return);

    let encoded = ReceiverKind::Encoded
        .render(Some(Receive::ByRef), Target::Native, "Point", "receiver", "length")
        .unwrap_or_else(|_| panic!("renders"));
    let tokens = encoded.tokens("Point", "receiver", "return 0;");
    assert_eq!(
        tokens.ffi_parameters,
        vec!["__boltffi_receiver_ptr: *const u8".to_string(), "__boltffi_receiver_len: usize".to_string()]
    );
    assert_eq!(tokens.conversions.len(), 1);
    assert!(tokens.conversions[0].starts_with("let receiver: Point = { if __boltffi_receiver_ptr.is_null() && __boltffi_receiver_len > 0 {"));
    assert!(tokens.conversions[0].contains("::boltffi::__private::wire::decode::<Point>(__boltffi_bytes)"));
    assert!(tokens.writebacks.is_empty());
    assert!(tokens.requires_failure_return);
}

#[test]
fn closure_invoke_parameters_arrive_by_plan() {
    let inputs = vec![
        InvokeParameterInput {
            plan: InvokeParameterPlan::Direct(TypeRef::Primitive(Primitive::U32)),
            rust_type: "u32".to_string(),
        },
        InvokeParameterInput {
            plan: InvokeParameterPlan::Direct(TypeRef::Record(boltffi_scan::ast::RecordId("demo::Point".to_string()))),
            rust_type: "Point".to_string(),
        },
        InvokeParameterInput {
            plan: InvokeParameterPlan::Encoded {
                shape: BufferShape::Native(NativeBufferShape::Slice),
                conversion: Conversion::Unchanged,
            },
            rust_type: "String".to_string(),
        },
        InvokeParameterInput {
            plan: InvokeParameterPlan::Closure {
                tokens: boltffi_scan::arguments::ParamTokens {
                    items: strings(&["struct Helper;"]),
                    ffi_parameters: strings(&["cb: u64"]),
                    conversions: strings(&["let a = 1;", "let b = 2;"]),
                    writebacks: Vec::new(),
                    argument: "callback".to_string(),
                },
                ffi_parameter_types: strings(&["u64"]),
            },
            rust_type: "Box<dyn Fn()>".to_string(),
        },
    ];
    let parameters = invoke_parameters(4, 4, &inputs, "return 0;").unwrap_or_else(|_| panic!("renders"));
    assert_eq!(parameters.items, strings(&["struct Helper;"]));
    assert_eq!(
        parameters.ffi_parameters,
        strings(&[
            "__boltffi_arg0: u32",
            "__boltffi_arg1: <Point as ::boltffi::__private::Passable>::In",
            "__boltffi_arg2_ptr: *const u8",
            "__boltffi_arg2_len: usize",
            "cb: u64",
        ])
    );
    assert_eq!(
        parameters.ffi_parameter_types,
        strings(&["u32", "<Point as ::boltffi::__private::Passable>::In", "*const u8", "usize", "u64"])
    );
    assert_eq!(parameters.arguments, strings(&["__boltffi_arg0", "__boltffi_arg1", "__boltffi_arg2", "callback"]));
    assert_eq!(parameters.conversions.len(), 4);
    assert_eq!(parameters.conversions[0], "");
    assert_eq!(
        parameters.conversions[1],
        "let __boltffi_arg1: Point = unsafe { <Point as ::boltffi::__private::Passable>::unpack(__boltffi_arg1) };"
    );
    assert!(parameters.conversions[2].starts_with("let __boltffi_arg2: String = { if __boltffi_arg2_ptr.is_null()"));
    assert_eq!(parameters.conversions[3], "let a = 1; let b = 2; ");
}

#[test]
fn closure_invoke_parameters_refuse_mismatches_and_other_shapes() {
    let other = vec![InvokeParameterInput { plan: InvokeParameterPlan::Other, rust_type: "u8".to_string() }];
    assert!(matches!(
        invoke_parameters(1, 1, &other, "return;"),
        Err(ExpansionError::UnsupportedExpansion("closure return invoke parameter shape"))
    ));
    assert!(matches!(
        invoke_parameters(1, 2, &other, "return;"),
        Err(ExpansionError::SourceSyntaxMismatch(
            "source closure parameter count does not match binding invoke parameter count"
        ))
    ));
    let packed = vec![InvokeParameterInput {
        plan: InvokeParameterPlan::Encoded {
            shape: BufferShape::Wasm32(WasmBufferShape::Packed),
            conversion: Conversion::Unchanged,
        },
        rust_type: "String".to_string(),
    }];
    assert!(matches!(
        invoke_parameters(1, 1, &packed, "return;"),
        Err(ExpansionError::UnsupportedExpansion("wasm closure return invoke encoded parameter shape"))
    ));
}

#[test]
fn closure_invoke_return_wraps_the_call_like_the_body() {
    let fallible = ClosureReturnTokens::Fallible {
        error: encoded_error(),
        success: FallibleSuccess::DirectPrimitive { ffi_type: "i32".to_string() },
    };
    let outcome = fallible.invoke_return();
    assert_eq!(outcome.return_type, "-> FfiBuf");
    assert_eq!(outcome.ffi_parameters, vec!["__boltffi_success_out: *mut i32".to_string()]);
    assert_eq!(outcome.ffi_parameter_types, vec!["*mut i32".to_string()]);
    assert_eq!(format!("{}f()", outcome.before_call) + &outcome.after_call, fallible.body("f()"));
    let encoded = ClosureReturnTokens::NativeEncoded.invoke_return();
    assert_eq!(encoded.before_call, "{ let __boltffi_result = ");
    assert_eq!(
        format!("{}g(x){}", encoded.before_call, encoded.after_call),
        ClosureReturnTokens::NativeEncoded.body("g(x)")
    );
    let void = ClosureReturnTokens::Void.invoke_return();
    assert_eq!((void.before_call.as_str(), void.after_call.as_str()), ("", ";"));
}

#[test]
fn enum_receivers_are_read_directly_or_decoded() {
    let table: Vec<boltffi_scan::transform::CustomConverters> = Vec::new();
    let direct = || EnumReceiver::Direct { ty: TypeRef::Other };
    let none = direct().render(None, Target::Native, "Mode", "receiver", "parse", "", &table).unwrap_or_else(|_| panic!("renders"));
    assert!(none.tokens.ffi_parameters.is_empty() && !none.tokens.requires_failure_return);
    assert!(matches!(
        none.call.target,
        RustCallTarget::Associated { ref owner, ref method } if owner == "Mode" && method == "parse"
    ));
    let read = direct()
        .render(Some(Receive::ByRef), Target::Native, "Mode", "receiver", "label", "", &table)
        .unwrap_or_else(|_| panic!("renders"));
    assert_eq!(read.tokens.ffi_parameters, vec!["receiver: <Mode as ::boltffi::__private::Passable>::In".to_string()]);
    assert_eq!(
        read.tokens.conversions,
        vec!["let receiver: Mode = unsafe { <Mode as ::boltffi::__private::Passable>::unpack(receiver) };".to_string()]
    );
    assert!(!read.tokens.requires_failure_return);
    assert!(matches!(
        read.call.target,
        RustCallTarget::Method { ref receiver, ref method } if receiver == "receiver" && method == "label"
    ));
    assert!(matches!(
        direct().render(Some(Receive::ByMutRef), Target::Native, "Mode", "r", "m", "", &table),
        Err(ExpansionError::UnsupportedExpansion("mutable enum receiver without writeback"))
    ));
    assert!(matches!(
        direct().render(Some(Receive::ByRef), Target::Native, "not a type!", "r", "m", "", &table),
        Err(ExpansionError::SourceSyntaxMismatch("source enum name is not a Rust type"))
    ));
    let encoded = EnumReceiver::Encoded {
        codec: boltffi_scan::wire::CodecNode::DataEnum("demo::Mode".to_string()),
        shape: BufferShape::Native(NativeBufferShape::Slice),
        borrow: boltffi_scan::param::encoded::DecodeBorrow::Value { mutable: false },
    };
    let decoded = encoded
        .render(Some(Receive::ByRef), Target::Native, "Mode", "receiver", "label", "return 0;", &table)
        .unwrap_or_else(|_| panic!("renders"));
    assert_eq!(
        decoded.tokens.ffi_parameters,
        vec!["__boltffi_receiver_ptr: *const u8".to_string(), "__boltffi_receiver_len: usize".to_string()]
    );
    assert!(decoded.tokens.conversions[0].ends_with(" let receiver = &__boltffi_receiver_storage;"));
    assert!(decoded.tokens.requires_failure_return);
}
