use boltffi_scan::arguments::{self, Execution, ParamTokens};
use boltffi_scan::ast::{SourceVisibility, ClassId, ClosureKind, HandlePresence, Primitive, RecordId, ReturnDef, TypeExpr};
use boltffi_scan::async_call::AsyncParameters;
use boltffi_scan::custom::{ConverterRenderer, CustomTypeConverter, PathRenderer, PathRoot};
use boltffi_scan::expansion::{layout_size, ExpansionError, Target};
use boltffi_scan::names::{ClosureArgument, Parameter, Wrapper};
use boltffi_scan::param::direct::{self, Argument, Conversion, FfiType, RecordInput};
use boltffi_scan::param::{requires_failure_return, IncomingParam, ParamPlan, Receive};
use boltffi_scan::returned::closure::{ClosureSymbols, Registration, ReturnLane, Write, WriteInput};
use boltffi_scan::returned::encoded::{self, BufferShape, Carrier, NativeBufferShape, WasmBufferShape};
use boltffi_scan::returned::handle::{self, HandleTarget};
use boltffi_scan::returned::{direct_vec, scalar_option};
use boltffi_scan::returned::{self as ret, ErrorDecl, Failure, FailureInput, FailureReturn, ReturnPlan, ReturnShape};
use boltffi_scan::stream::{self, StreamItemType};
use boltffi_scan::type_ref::{self, TypeRef};
use boltffi_scan::wire::{require_runtime_wire, CodecNode, MapKind};

fn strings(items: &[&str]) -> Vec<String> {
    items.iter().map(|item| item.to_string()).collect()
}

fn param(name: &str) -> ParamTokens {
    ParamTokens {
        items: strings(&[&format!("item_{name}")]),
        ffi_parameters: strings(&[&format!("{name}: i32")]),
        conversions: strings(&[&format!("let {name} = {name};")]),
        writebacks: Vec::new(),
        argument: name.to_string(),
    }
}

fn unsupported(reason: &'static str) -> ExpansionError {
    ExpansionError::UnsupportedExpansion(reason)
}

#[test]
fn type_ref_spells_primitives_and_containers() {
    let renderer = || type_ref::Renderer;
    assert_eq!(renderer().render(&TypeRef::Primitive(Primitive::F64)), Ok("f64".to_string()));
    assert_eq!(renderer().render(&TypeRef::Bytes), Ok("Vec<u8>".to_string()));
    let nested = TypeRef::Optional(Box::new(TypeRef::Sequence(Box::new(TypeRef::String))));
    assert_eq!(renderer().render(&nested), Ok("Option<Vec<String>>".to_string()));
    let result = TypeRef::Result {
        ok: Box::new(TypeRef::Primitive(Primitive::U32)),
        err: Box::new(TypeRef::String),
    };
    assert_eq!(renderer().render(&result), Ok("Result<u32, String>".to_string()));
}

#[test]
fn type_ref_refuses_records_anywhere_inside() {
    let record = TypeRef::Record(RecordId("demo::Point".to_string()));
    assert_eq!(type_ref::Renderer.render(&record), Err(unsupported("type reference")));
    let inside = TypeRef::Sequence(Box::new(TypeRef::Other));
    assert_eq!(type_ref::Renderer.render(&inside), Err(unsupported("type reference")));
}

#[test]
fn sync_arguments_gather_every_parameter_in_order() {
    let input = arguments::Input::new(Execution::Synchronous, 2, 2, vec![Ok(param("a")), Ok(param("b"))]);
    let tokens = match arguments::SyncRenderer.render(input) {
        Ok(tokens) => tokens,
        Err(error) => panic!("unexpected error {error:?}"),
    };
    assert_eq!(tokens.items(), &strings(&["item_a", "item_b"])[..]);
    assert_eq!(tokens.ffi_parameters(), &strings(&["a: i32", "b: i32"])[..]);
    assert_eq!(tokens.conversions(), &strings(&["let a = a;", "let b = b;"])[..]);
    assert!(tokens.writebacks().is_empty());
    assert_eq!(tokens.rust_arguments(), &strings(&["a", "b"])[..]);
}

#[test]
fn arguments_refuse_the_other_execution_model() {
    let sync = arguments::Input::new(Execution::Synchronous, 0, 0, Vec::new());
    assert!(matches!(
        arguments::AsyncRenderer.render(sync),
        Err(ExpansionError::UnsupportedExpansion("sync function"))
    ));
    let asynchronous = arguments::Input::new(Execution::Asynchronous, 0, 0, Vec::new());
    assert!(matches!(
        arguments::SyncRenderer.render(asynchronous),
        Err(ExpansionError::UnsupportedExpansion("async function"))
    ));
    let unknown = arguments::Input::new(Execution::Other, 0, 0, Vec::new());
    assert!(matches!(
        arguments::SyncRenderer.render(unknown),
        Err(ExpansionError::UnsupportedExpansion("unknown execution"))
    ));
}

#[test]
fn arguments_check_the_parameter_count_before_anything_else() {
    let input = arguments::Input::new(Execution::Asynchronous, 2, 1, vec![Err(unsupported("first"))]);
    assert!(matches!(
        arguments::AsyncRenderer.render(input),
        Err(ExpansionError::SourceSyntaxMismatch(
            "source parameter count does not match binding parameter count"
        ))
    ));
}

#[test]
fn arguments_report_the_first_failing_parameter() {
    let input = arguments::Input::new(
        Execution::Synchronous,
        3,
        3,
        vec![Ok(param("a")), Err(unsupported("second")), Err(unsupported("third"))],
    );
    assert!(matches!(
        arguments::SyncRenderer.render(input),
        Err(ExpansionError::UnsupportedExpansion("second"))
    ));
}

fn failure(error: ErrorDecl, plan: ReturnPlan, target: Target) -> Result<FailureReturn, ExpansionError> {
    Failure.render(&FailureInput::new(error, plan, target))
}

#[test]
fn failure_returns_follow_the_return_plan() {
    let none = || ErrorDecl::Infallible;
    assert_eq!(failure(none(), ReturnPlan::Void, Target::Native), Ok(FailureReturn::InvalidArgStatus));
    assert_eq!(failure(none(), ReturnPlan::DirectPrimitive(Primitive::U16), Target::Native), Ok(FailureReturn::DefaultValue));
    assert_eq!(failure(none(), ReturnPlan::Direct, Target::Wasm32), Ok(FailureReturn::ZeroedValue));
    assert_eq!(
        failure(none(), ReturnPlan::Encoded { codec: CodecNode::String, shape: BufferShape::Wasm32(WasmBufferShape::Packed) }, Target::Wasm32),
        Ok(FailureReturn::EmptyPackedBuffer)
    );
    assert_eq!(
        failure(none(), ReturnPlan::Encoded { codec: CodecNode::String, shape: BufferShape::Native(NativeBufferShape::Slice) }, Target::Native),
        Err(unsupported("native encoded return shape"))
    );
    assert_eq!(failure(none(), ReturnPlan::ScalarOption, Target::Wasm32), Ok(FailureReturn::NotANumber));
    assert_eq!(failure(none(), ReturnPlan::DirectVec, Target::Wasm32), Ok(FailureReturn::Nothing));
    assert_eq!(failure(none(), ReturnPlan::DirectVec, Target::Native), Ok(FailureReturn::EmptyBuffer));
    assert_eq!(
        failure(none(), ReturnPlan::Handle { target: HandleTarget::Callback }, Target::Native),
        Ok(FailureReturn::NullHandle)
    );
    assert_eq!(
        failure(none(), ReturnPlan::Handle { target: HandleTarget::Other }, Target::Native),
        Err(unsupported("unknown handle return failure"))
    );
    assert_eq!(failure(none(), ReturnPlan::ClosureViaOutPointer, Target::Native), Ok(FailureReturn::InvalidArgStatus));
    assert_eq!(failure(none(), ReturnPlan::HandleViaOutPointer, Target::Native), Err(unsupported("return failure")));
}

#[test]
fn failure_returns_prefer_the_error_form() {
    let string_error = ErrorDecl::Encoded {
        root: CodecNode::String,
        shape: BufferShape::Native(NativeBufferShape::Buffer),
    };
    assert_eq!(
        failure(string_error, ReturnPlan::Void, Target::Native),
        Ok(FailureReturn::InvalidArgumentMessage(Carrier::Buffer))
    );
    let record_error = ErrorDecl::Encoded {
        root: CodecNode::EncodedRecord("demo::Problem".to_string()),
        shape: BufferShape::Native(NativeBufferShape::Buffer),
    };
    assert_eq!(failure(record_error, ReturnPlan::Void, Target::Native), Err(unsupported("non-string encoded error failure")));
    assert_eq!(failure(ErrorDecl::Status, ReturnPlan::Void, Target::Native), Err(unsupported("status error failure")));
    assert_eq!(failure(ErrorDecl::Other, ReturnPlan::Void, Target::Native), Err(unsupported("error failure")));
}

#[test]
fn encoded_carriers_by_shape() {
    assert_eq!(encoded::carrier(BufferShape::Native(NativeBufferShape::Buffer)), Ok(Carrier::Buffer));
    assert_eq!(
        encoded::Renderer.empty(BufferShape::Native(NativeBufferShape::BufferPointer)),
        Err(unsupported("native encoded return shape"))
    );
    assert_eq!(
        encoded::carrier(BufferShape::Native(NativeBufferShape::Other)),
        Err(unsupported("unknown native encoded return shape"))
    );
    assert_eq!(
        encoded::carrier(BufferShape::Wasm32(WasmBufferShape::Slice)),
        Err(unsupported("wasm encoded return shape"))
    );
    assert_eq!(
        encoded::carrier(BufferShape::Wasm32(WasmBufferShape::Other)),
        Err(unsupported("unknown wasm encoded return shape"))
    );
}

#[test]
fn platform_failures_of_optional_scalars_vectors_and_handles() {
    assert_eq!(scalar_option::Failure.render(Target::Native), FailureReturn::EmptyBuffer);
    assert_eq!(direct_vec::Failure.render(Target::Wasm32), FailureReturn::Nothing);
    assert_eq!(
        handle::Failure.render(handle::FailureInput::new(HandleTarget::Class)),
        Ok(FailureReturn::NullHandle)
    );
}

#[test]
fn native_closures_are_named_after_owner_and_lane() {
    let input = WriteInput::success(
        Registration::NativeInvokeContextRelease,
        "__boltffi_closure".to_string(),
        "make_counter".to_string(),
    );
    match Write.render(input) {
        Ok(ClosureSymbols::Native { storage, call, release }) => {
            assert_eq!(storage, "__BoltffiClosureReturn__boltffi_closure");
            assert_eq!(call, "__boltffi_make_counter_success_closure_call");
            assert_eq!(release, "__boltffi_make_counter_success_closure_release");
        }
        _ => panic!("expected native symbols"),
    }
}

#[test]
fn wasm_closures_use_the_exported_symbols_and_unknown_registrations_fail() {
    let registration = Registration::Wasm32 {
        call: "boltffi_counter_call".to_string(),
        free: "boltffi_counter_free".to_string(),
    };
    let input = WriteInput::returned(registration, "value".to_string(), "owner".to_string());
    match Write.render(input) {
        Ok(ClosureSymbols::Wasm32 { call, release }) => {
            assert_eq!(call, "boltffi_counter_call");
            assert_eq!(release, "boltffi_counter_free");
        }
        _ => panic!("expected wasm symbols"),
    }
    let other = WriteInput::returned(Registration::NativeOther, "value".to_string(), "owner".to_string());
    assert!(matches!(
        Write.render(other),
        Err(ExpansionError::UnsupportedExpansion("unknown native closure return registration"))
    ));
}

#[test]
fn return_lanes_have_distinct_suffixes() {
    assert_eq!(ReturnLane::Return.suffix(), "closure");
    assert_eq!(ReturnLane::Success.suffix(), "success_closure");
}

fn direct(ty: TypeRef, receive: Receive, target: Target) -> Result<direct::Plan, ExpansionError> {
    direct::Renderer.render(direct::Input { ty, receive, target })
}

#[test]
fn primitive_parameters_pass_as_themselves() {
    let plan = direct(TypeRef::Primitive(Primitive::I32), Receive::ByMutRef, Target::Native).ok().unwrap();
    assert!(matches!(&plan.ffi_type, FfiType::Rust(name) if name == "i32"));
    assert_eq!(plan.conversion, Some(Conversion::Rebind));
    assert_eq!(plan.argument, Argument::MutRef);
    assert!(!plan.writes_back);
    let plan = direct(TypeRef::Primitive(Primitive::Bool), Receive::ByValue, Target::Wasm32).ok().unwrap();
    assert_eq!(plan.conversion, None);
    assert_eq!(plan.argument, Argument::Value);
}

#[test]
fn records_cross_by_pointer_only_on_wasm() {
    let record = || TypeRef::Record(RecordId("demo::Point".to_string()));
    let native = direct(record(), Receive::ByRef, Target::Native).ok().unwrap();
    assert!(matches!(native.ffi_type, FfiType::Passable));
    assert_eq!(native.conversion, Some(Conversion::Unpack { mutable: false }));
    assert_eq!(native.argument, Argument::Ref);
    let wasm = direct(record(), Receive::ByMutRef, Target::Wasm32).ok().unwrap();
    assert!(matches!(wasm.ffi_type, FfiType::MutBytes));
    assert_eq!(wasm.conversion, Some(Conversion::ReadRecord { through_out: true }));
    assert!(wasm.writes_back);
    let read_only = direct::Record
        .render(RecordInput { receive: Receive::ByValue, target: Target::Wasm32 })
        .ok()
        .unwrap();
    assert!(matches!(read_only.ffi_type, FfiType::ConstBytes));
    assert!(!read_only.writes_back);
}

#[test]
fn unknown_receive_modes_fail_per_parameter_kind() {
    let record = TypeRef::Record(RecordId("demo::Point".to_string()));
    assert!(matches!(
        direct(record, Receive::Other, Target::Wasm32),
        Err(ExpansionError::UnsupportedExpansion("unknown direct record receive mode"))
    ));
    assert!(matches!(
        direct(TypeRef::String, Receive::Other, Target::Wasm32),
        Err(ExpansionError::UnsupportedExpansion("unknown direct parameter receive mode"))
    ));
}

#[test]
fn failure_returns_are_needed_where_reading_can_fail() {
    let record = || TypeRef::Record(RecordId("demo::Point".to_string()));
    let direct_record = IncomingParam::Value(ParamPlan::Direct { ty: record(), receive: Receive::ByValue });
    assert!(requires_failure_return(&direct_record, Target::Wasm32));
    assert!(!requires_failure_return(&direct_record, Target::Native));
    let primitive = IncomingParam::Value(ParamPlan::Direct {
        ty: TypeRef::Primitive(Primitive::U8),
        receive: Receive::ByValue,
    });
    assert!(!requires_failure_return(&primitive, Target::Wasm32));
    assert!(requires_failure_return(&IncomingParam::Closure, Target::Native));
    assert!(requires_failure_return(
        &IncomingParam::Value(ParamPlan::Encoded { receive: Receive::ByValue }),
        Target::Native
    ));
}

#[test]
fn failure_return_matches_a_pointer_read_for_direct_parameters() {
    for target in [Target::Native, Target::Wasm32] {
        for receive in [Receive::ByValue, Receive::ByRef, Receive::ByMutRef] {
            for ty in [TypeRef::Record(RecordId("r".to_string())), TypeRef::Primitive(Primitive::I64), TypeRef::String] {
                let plan = direct::Renderer
                    .render(direct::Input { ty: copy_ref(&ty), receive, target })
                    .ok()
                    .unwrap();
                let param = IncomingParam::Value(ParamPlan::Direct { ty, receive });
                assert_eq!(
                    requires_failure_return(&param, target),
                    matches!(plan.conversion, Some(Conversion::ReadRecord { .. }))
                );
            }
        }
    }
}

fn copy_ref(ty: &TypeRef) -> TypeRef {
    match ty {
        TypeRef::Record(id) => TypeRef::Record(RecordId(id.0.clone())),
        TypeRef::Primitive(p) => TypeRef::Primitive(*p),
        TypeRef::String => TypeRef::String,
        _ => TypeRef::Other,
    }
}

#[test]
fn async_parameters_must_be_owned_values() {
    let by_value = IncomingParam::Value(ParamPlan::Encoded { receive: Receive::ByValue });
    let by_ref = IncomingParam::Value(ParamPlan::Direct {
        ty: TypeRef::String,
        receive: Receive::ByRef,
    });
    let callback = IncomingParam::Value(ParamPlan::Handle {
        target: HandleTarget::Callback,
        receive: Receive::ByValue,
    });
    assert_eq!(AsyncParameters::new(vec![by_value]).validate(), Ok(()));
    let parameters = AsyncParameters::new(vec![
        IncomingParam::Value(ParamPlan::ScalarOption),
        by_ref,
        callback,
    ]);
    assert_eq!(parameters.validate(), Err(unsupported("async reference parameter")));
}

#[test]
fn async_parameters_refuse_closures_callbacks_and_unknown_shapes() {
    let parameters = AsyncParameters::new(Vec::new());
    assert_eq!(parameters.validate_param(&IncomingParam::Closure), Err(unsupported("async closure parameter")));
    let callback = IncomingParam::Value(ParamPlan::Handle {
        target: HandleTarget::Callback,
        receive: Receive::ByValue,
    });
    assert_eq!(parameters.validate_param(&callback), Err(unsupported("async callback handle parameter")));
    let class_by_ref = IncomingParam::Value(ParamPlan::Handle {
        target: HandleTarget::Class,
        receive: Receive::ByMutRef,
    });
    assert_eq!(parameters.validate_param(&class_by_ref), Err(unsupported("async reference parameter")));
    assert_eq!(
        parameters.validate_param(&IncomingParam::Value(ParamPlan::Other)),
        Err(unsupported("async parameter shape"))
    );
    assert_eq!(parameters.validate_receive(Receive::Other), Err(unsupported("async receive mode")));
}

#[test]
fn stream_items_are_batched_as_owned_types() {
    let borrowed = TypeExpr::tuple(vec![
        TypeExpr::Str,
        TypeExpr::option(TypeExpr::Slice(Box::new(TypeExpr::Str))),
        TypeExpr::Primitive(Primitive::U8),
    ]);
    let owned = StreamItemType::owned(&borrowed);
    assert_eq!(
        owned,
        TypeExpr::tuple(vec![
            TypeExpr::String,
            TypeExpr::option(TypeExpr::vec(TypeExpr::String)),
            TypeExpr::Primitive(Primitive::U8),
        ])
    );
    assert_eq!(StreamItemType::owned(&owned), owned);
}

#[test]
fn stream_items_keep_closure_signatures() {
    let closure = TypeExpr::closure(boltffi_scan::ast::ClosureType::new(
        ClosureKind::Fn,
        vec![TypeExpr::Str],
        ReturnDef::Value(TypeExpr::Str),
    ));
    let owned = StreamItemType::owned(&closure);
    assert_eq!(owned, closure);
    assert!(matches!(owned, TypeExpr::Closure { presence: HandlePresence::Required, .. }));
    assert_eq!(stream::copy_type(&closure), closure);
}

#[test]
fn stream_owner_must_match_in_source_and_binding() {
    let class = || ClassId("demo::Engine".to_string());
    let matching = stream::Renderer {
        source_owner: Some(class()),
        source_class: class(),
        lowered_owner: Some(class()),
        lowered_class: class(),
    };
    assert_eq!(matching.validate_owner(), Ok(()));
    let foreign = stream::Renderer {
        source_owner: Some(ClassId("demo::Other".to_string())),
        source_class: class(),
        lowered_owner: None,
        lowered_class: class(),
    };
    assert!(matches!(
        foreign.validate_owner(),
        Err(ExpansionError::SourceSyntaxMismatch("source stream owner does not match source class"))
    ));
    let unlowered = stream::Renderer {
        source_owner: Some(class()),
        source_class: class(),
        lowered_owner: None,
        lowered_class: class(),
    };
    assert!(matches!(
        unlowered.validate_owner(),
        Err(ExpansionError::SourceSyntaxMismatch("lowered stream owner does not match lowered class"))
    ));
}

#[test]
fn layout_sizes_convert_when_they_fit() {
    assert_eq!(layout_size(24), Ok(24usize));
    if (usize::MAX as u128) < u64::MAX as u128 {
        assert!(layout_size(u64::MAX).is_err());
    }
}

#[test]
fn wrapper_locals_are_prefixed() {
    let names = Wrapper::new();
    assert_eq!(names.result(), "__boltffi_result");
    assert_eq!(names.return_out(), "__boltffi_return_out");
    assert_eq!(names.closure_context(), "__boltffi_closure_context");
}

#[test]
fn parameter_and_closure_argument_names_embed_their_source() {
    let parameter = Parameter::new("points");
    assert_eq!(parameter.pointer(), "__boltffi_points_ptr");
    assert_eq!(parameter.length(), "__boltffi_points_len");
    let argument = ClosureArgument::new(12);
    assert_eq!(argument.value(), "__boltffi_arg12");
}

#[test]
fn runtime_wire_accepts_plain_codecs() {
    let codec = CodecNode::MapOf {
        kind: MapKind::Hash,
        key: Box::new(CodecNode::String),
        value: Box::new(CodecNode::Sequence(Box::new(CodecNode::Primitive(Primitive::I32)))),
    };
    assert_eq!(require_runtime_wire(&codec), Ok(()));
}

#[test]
fn runtime_wire_refuses_float_keys_handles_and_wide_tuples() {
    let float_key = CodecNode::MapOf {
        kind: MapKind::Hash,
        key: Box::new(CodecNode::Primitive(Primitive::F64)),
        value: Box::new(CodecNode::String),
    };
    assert!(require_runtime_wire(&float_key).is_err());
    assert!(require_runtime_wire(&CodecNode::ClassHandle("demo::Engine".to_string())).is_err());
    let wide = CodecNode::Tuple((0..13).map(|_| CodecNode::Bytes).collect());
    assert!(require_runtime_wire(&wide).is_err());
    let widest_allowed = CodecNode::Tuple((0..12).map(|_| CodecNode::Bytes).collect());
    assert_eq!(require_runtime_wire(&widest_allowed), Ok(()));
}

fn render_return(plan: ReturnPlan, has_rust_type: bool, has_writebacks: bool) -> Result<ReturnShape, ExpansionError> {
    ret::Renderer.render(&ret::Input {
        error: ErrorDecl::Infallible,
        plan,
        has_rust_type,
        has_writebacks,
    })
}

#[test]
fn returns_pick_how_the_value_leaves_the_wrapper() {
    assert!(matches!(render_return(ReturnPlan::Void, false, true), Ok(ReturnShape::Status)));
    match render_return(ReturnPlan::DirectPrimitive(Primitive::I64), false, true) {
        Ok(ReturnShape::Primitive { ty, binds_result }) => {
            assert_eq!(ty, "i64");
            assert!(binds_result);
        }
        _ => panic!("expected a primitive return"),
    }
    assert!(matches!(
        render_return(ReturnPlan::Direct, true, false),
        Ok(ReturnShape::Packed { binds_result: false })
    ));
    let encoded = ReturnPlan::Encoded {
        codec: CodecNode::Sequence(Box::new(CodecNode::String)),
        shape: BufferShape::Wasm32(WasmBufferShape::Packed),
    };
    assert!(matches!(render_return(encoded, true, false), Ok(ReturnShape::Encoded(Carrier::Packed))));
    assert!(matches!(render_return(ReturnPlan::DirectVec, false, false), Ok(ReturnShape::DirectVec)));
    assert!(matches!(render_return(ReturnPlan::ClosureViaOutPointer, false, false), Ok(ReturnShape::Closure)));
}

#[test]
fn returns_in_rust_form_need_the_source_type() {
    assert!(matches!(
        render_return(ReturnPlan::Direct, false, false),
        Err(ExpansionError::SourceSyntaxMismatch("binding direct return requires a source return type"))
    ));
    assert!(matches!(
        render_return(ReturnPlan::ScalarOption, false, false),
        Err(ExpansionError::SourceSyntaxMismatch("binding scalar option return requires a source return type"))
    ));
    assert!(matches!(
        render_return(ReturnPlan::Handle { target: HandleTarget::Class }, false, false),
        Err(ExpansionError::SourceSyntaxMismatch("binding handle return requires a source return type"))
    ));
}

#[test]
fn returns_refuse_out_pointers_and_unwired_codecs() {
    assert!(matches!(
        render_return(ReturnPlan::EncodedViaOutPointer, true, false),
        Err(ExpansionError::UnsupportedExpansion("encoded out-pointer return"))
    ));
    assert!(matches!(
        render_return(ReturnPlan::Other, true, false),
        Err(ExpansionError::UnsupportedExpansion("unknown return"))
    ));
    let handle_codec = ReturnPlan::Encoded {
        codec: CodecNode::ClassHandle("demo::Engine".to_string()),
        shape: BufferShape::Native(NativeBufferShape::Buffer),
    };
    assert!(render_return(handle_codec, true, false).is_err());
    let slice = ReturnPlan::Encoded {
        codec: CodecNode::ClassHandle("demo::Engine".to_string()),
        shape: BufferShape::Native(NativeBufferShape::Slice),
    };
    assert!(matches!(
        render_return(slice, true, false),
        Err(ExpansionError::UnsupportedExpansion("native encoded return shape"))
    ));
    let fallible = ret::Input {
        error: ErrorDecl::Status,
        plan: ReturnPlan::Other,
        has_rust_type: false,
        has_writebacks: false,
    };
    assert!(matches!(ret::Renderer.render(&fallible), Ok(ReturnShape::Fallible)));
}

#[test]
fn every_renderable_return_has_a_failure_return() {
    let plans = || {
        vec![
            ReturnPlan::Void,
            ReturnPlan::DirectPrimitive(Primitive::Bool),
            ReturnPlan::Direct,
            ReturnPlan::Encoded {
                codec: CodecNode::String,
                shape: BufferShape::Native(NativeBufferShape::Buffer),
            },
            ReturnPlan::Encoded {
                codec: CodecNode::Bytes,
                shape: BufferShape::Wasm32(WasmBufferShape::Packed),
            },
            ReturnPlan::ScalarOption,
            ReturnPlan::DirectVec,
            ReturnPlan::Handle { target: HandleTarget::Class },
            ReturnPlan::ClosureViaOutPointer,
        ]
    };
    for target in [Target::Native, Target::Wasm32] {
        for (plan, again) in plans().into_iter().zip(plans()) {
            assert!(render_return(plan, true, false).is_ok());
            assert!(failure(ErrorDecl::Infallible, again, target).is_ok());
        }
    }
}

#[test]
fn rust_calls_spell_their_callee_and_arguments() {
    let arguments = strings(&["a", "b"]);
    let function = boltffi_scan::export::RustCall::function("add".to_string());
    assert_eq!(function.owner, "add");
    assert_eq!(function.expression(&arguments), "add(a, b)");
    let associated = boltffi_scan::export::RustCall::associated("Point".to_string(), "new".to_string());
    assert_eq!(associated.owner, "new");
    assert_eq!(associated.expression(&Vec::new()), "Point::new()");
    let method = boltffi_scan::export::RustCall::method("__boltffi_receiver".to_string(), "scale".to_string());
    assert_eq!(method.expression(&strings(&["factor"])), "__boltffi_receiver.scale(factor)");
}

fn export_renderer(
    execution: Execution,
    params: Vec<IncomingParam>,
    receiver_fails: bool,
    plan: ReturnPlan,
) -> boltffi_scan::export::Renderer {
    boltffi_scan::export::Renderer {
        execution,
        params,
        receiver: boltffi_scan::export::ReceiverTokens::new(Vec::new(), Vec::new(), Vec::new(), receiver_fails),
        failure: FailureInput::new(ErrorDecl::Infallible, plan, Target::Wasm32),
    }
}

#[test]
fn exports_take_a_failure_return_only_when_reading_can_fail() {
    let primitive = || {
        IncomingParam::Value(ParamPlan::Direct {
            ty: TypeRef::Primitive(Primitive::I32),
            receive: Receive::ByValue,
        })
    };
    let plain = export_renderer(Execution::Synchronous, vec![primitive()], false, ReturnPlan::Void);
    assert_eq!(plain.render(), Ok(None));
    let record = IncomingParam::Value(ParamPlan::Direct {
        ty: TypeRef::Record(RecordId("demo::Point".to_string())),
        receive: Receive::ByRef,
    });
    let pointer = export_renderer(Execution::Synchronous, vec![primitive(), record], false, ReturnPlan::ScalarOption);
    assert_eq!(pointer.render(), Ok(Some(FailureReturn::NotANumber)));
    let receiver = export_renderer(Execution::Synchronous, Vec::new(), true, ReturnPlan::HandleViaOutPointer);
    assert_eq!(receiver.render(), Err(unsupported("return failure")));
    let asynchronous = export_renderer(Execution::Asynchronous, Vec::new(), true, ReturnPlan::Void);
    assert_eq!(asynchronous.render(), Err(unsupported("record async exported callable")));
}

fn converter_path(root: PathRoot, segments: &[&str]) -> boltffi_scan::custom::ConverterPath {
    boltffi_scan::custom::ConverterPath {
        root,
        segments: strings(segments),
    }
}

#[test]
fn converter_paths_start_at_their_root() {
    let relative = converter_path(PathRoot::Relative, &["convert", "from_ffi"]);
    assert_eq!(PathRenderer::new(&relative).source(), Ok("convert::from_ffi".to_string()));
    let krate = converter_path(PathRoot::Crate, &["time", "to_ffi"]);
    assert_eq!(PathRenderer::new(&krate).source(), Ok("crate::time::to_ffi".to_string()));
    let this = converter_path(PathRoot::SelfModule, &["to_ffi"]);
    assert_eq!(PathRenderer::new(&this).source(), Ok("self::to_ffi".to_string()));
    let up = converter_path(PathRoot::Super(2), &["codec", "read"]);
    assert_eq!(PathRenderer::new(&up).source(), Ok("super::super::codec::read".to_string()));
    let absolute = converter_path(PathRoot::Absolute, &["chrono", "Utc"]);
    assert_eq!(PathRenderer::new(&absolute).prefix(), Ok("::".to_string()));
    assert_eq!(PathRenderer::new(&absolute).segments(), "chrono::Utc");
    let unknown = converter_path(PathRoot::Other, &["x"]);
    assert_eq!(
        PathRenderer::new(&unknown).source(),
        Err(unsupported("unknown custom converter path root"))
    );
}

fn custom(id: &str, representation: CodecNode) -> CodecNode {
    CodecNode::Custom {
        id: id.to_string(),
        representation: Box::new(representation),
    }
}

#[test]
fn decoded_types_spell_custom_representations() {
    assert_eq!(boltffi_scan::custom::decoded_type(&CodecNode::Sequence(Box::new(CodecNode::String))), Ok(None));
    let timestamps = CodecNode::MapOf {
        kind: MapKind::BTree,
        key: Box::new(CodecNode::String),
        value: Box::new(CodecNode::Sequence(Box::new(custom("demo::Instant", CodecNode::Primitive(Primitive::I64))))),
    };
    assert_eq!(
        boltffi_scan::custom::decoded_type(&timestamps),
        Ok(Some("::std::collections::BTreeMap<String, Vec<i64>>".to_string()))
    );
    let pair = CodecNode::Tuple(vec![custom("demo::Id", CodecNode::Bytes), CodecNode::Primitive(Primitive::Bool)]);
    assert_eq!(boltffi_scan::custom::representation(&pair), Ok("(Vec<u8>, bool, )".to_string()));
    let optional = CodecNode::Optional(Box::new(custom("demo::Uuid", CodecNode::String)));
    assert_eq!(boltffi_scan::custom::decoded_type(&optional), Ok(Some("Option<String>".to_string())));
}

#[test]
fn decoded_types_refuse_records_enums_and_handles() {
    let record = CodecNode::Result {
        ok: Box::new(custom("demo::Id", CodecNode::String)),
        err: Box::new(CodecNode::EncodedRecord("demo::Problem".to_string())),
    };
    assert_eq!(
        boltffi_scan::custom::decoded_type(&record),
        Err(unsupported("encoded record representation type"))
    );
    let handle = CodecNode::Tuple(vec![custom("demo::Id", CodecNode::String), CodecNode::ClassHandle("demo::Engine".to_string())]);
    assert_eq!(
        boltffi_scan::custom::representation(&handle),
        Err(unsupported("class handle representation type"))
    );
    assert!(boltffi_scan::custom::has_custom(&handle));
    assert!(!boltffi_scan::custom::has_custom(&CodecNode::DataEnum("demo::Mode".to_string())));
}

#[test]
fn source_names_must_be_rust_syntax() {
    assert_eq!(boltffi_scan::source_names::record_ident("Point"), Ok("Point".to_string()));
    assert_eq!(
        boltffi_scan::source_names::record_ident("fn"),
        Err(ExpansionError::SourceSyntaxMismatch("source record name is not a Rust identifier"))
    );
    assert_eq!(
        boltffi_scan::source_names::field_ident("user id"),
        Err(ExpansionError::SourceSyntaxMismatch("source field name is not a Rust identifier"))
    );
    assert_eq!(boltffi_scan::source_names::enum_type("Mode"), Ok("Mode".to_string()));
    assert_eq!(
        boltffi_scan::source_names::record_type("Point<"),
        Err(ExpansionError::SourceSyntaxMismatch("source record name is not a Rust type"))
    );
    assert_eq!(boltffi_scan::source_names::function_ident("make_point"), Ok("make_point".to_string()));
    assert_eq!(
        boltffi_scan::source_names::method_ident("1st"),
        Err(ExpansionError::SourceSyntaxMismatch("source method name is not a Rust identifier"))
    );
    assert_eq!(boltffi_scan::stream::class_ident("Engine"), Ok("Engine".to_string()));
    assert_eq!(
        boltffi_scan::stream::method_ident("on-tick"),
        Err(ExpansionError::SourceSyntaxMismatch("source stream name is not a Rust identifier"))
    );
}

#[test]
fn wrapper_visibility_follows_the_source() {
    assert_eq!(boltffi_scan::source_names::visibility(&SourceVisibility::Private), Ok(String::new()));
    assert_eq!(boltffi_scan::source_names::visibility(&SourceVisibility::Public), Ok("pub".to_string()));
    assert_eq!(
        boltffi_scan::source_names::visibility(&SourceVisibility::Restricted("crate::ffi".to_string())),
        Ok("pub(in crate::ffi)".to_string())
    );
    assert_eq!(
        boltffi_scan::source_names::visibility(&SourceVisibility::Restricted("crate::".to_string())),
        Err(ExpansionError::SourceSyntaxMismatch("source visibility path is not Rust path"))
    );
}

#[test]
fn converters_render_as_paths_methods_or_expressions() {
    let path = CustomTypeConverter::Path(converter_path(PathRoot::Crate, &["time", "to_ffi"]));
    assert_eq!(ConverterRenderer::new(&path).render(), Ok("crate::time::to_ffi".to_string()));
    let method = CustomTypeConverter::TraitMethod {
        receiver: converter_path(PathRoot::Relative, &["Instant"]),
        method: "into_ffi".to_string(),
    };
    assert_eq!(
        ConverterRenderer::new(&method).render(),
        Ok("<Instant as ::boltffi::CustomFfiConvertible>::into_ffi".to_string())
    );
    let bad_method = CustomTypeConverter::TraitMethod {
        receiver: converter_path(PathRoot::Relative, &["Instant"]),
        method: "into ffi".to_string(),
    };
    assert_eq!(
        ConverterRenderer::new(&bad_method).render(),
        Err(ExpansionError::SourceSyntaxMismatch("custom converter method is not Rust syntax"))
    );
    let expression = CustomTypeConverter::Expression("|value| value.0".to_string());
    assert_eq!(ConverterRenderer::new(&expression).render(), Ok("|value| value.0".to_string()));
    let broken = CustomTypeConverter::Expression("|value| value.".to_string());
    assert_eq!(
        ConverterRenderer::new(&broken).render(),
        Err(ExpansionError::SourceSyntaxMismatch("custom converter is not Rust syntax"))
    );
    let spaced = CustomTypeConverter::Path(converter_path(PathRoot::Crate, &["two words"]));
    assert_eq!(
        ConverterRenderer::new(&spaced).render(),
        Err(ExpansionError::SourceSyntaxMismatch("custom converter path is not Rust syntax"))
    );
    let receiver = converter_path(PathRoot::Absolute, &["chrono", "Utc"]);
    assert_eq!(PathRenderer::new(&receiver).render_type(), Ok("::chrono::Utc".to_string()));
    let bad_receiver = converter_path(PathRoot::Relative, &["a b"]);
    assert_eq!(
        PathRenderer::new(&bad_receiver).render_type(),
        Err(ExpansionError::SourceSyntaxMismatch("custom converter receiver is not Rust syntax"))
    );
    let unknown_root = CustomTypeConverter::Path(converter_path(PathRoot::Other, &["x"]));
    assert_eq!(
        ConverterRenderer::new(&unknown_root).render(),
        Err(unsupported("unknown custom converter path root"))
    );
    assert_eq!(ConverterRenderer::new(&CustomTypeConverter::Other).render(), Err(unsupported("unknown custom converter")));
}

#[test]
fn local_handle_paths_live_under_the_crate() {
    let handle = handle::LocalHandlePath::new(strings(&["callbacks", "ListenerHandle"]));
    assert_eq!(handle.tokens(), Ok("crate::callbacks::ListenerHandle".to_string()));
    let broken = handle::LocalHandlePath::new(strings(&["callbacks", "two words"]));
    assert_eq!(
        broken.tokens(),
        Err(ExpansionError::SourceSyntaxMismatch("callback local handle path is not Rust"))
    );
}

#[test]
fn arguments_refuse_a_list_of_the_wrong_length() {
    let short = arguments::Input::new(Execution::Synchronous, 2, 2, vec![Ok(param("a"))]);
    assert_eq!(
        arguments::SyncRenderer.render(short).err(),
        Some(ExpansionError::SourceSyntaxMismatch(
            "source parameter count does not match binding parameter count"
        ))
    );
    let long = arguments::Input::new(
        Execution::Asynchronous,
        1,
        1,
        vec![Ok(param("a")), Ok(param("b"))],
    );
    assert_eq!(
        arguments::AsyncRenderer.render(long).err(),
        Some(ExpansionError::SourceSyntaxMismatch(
            "source parameter count does not match binding parameter count"
        ))
    );
}

#[test]
fn optional_scalars_travel_as_doubles_on_wasm() {
    assert_eq!(scalar_option::scalar(Primitive::Bool, "v"), "if v { 1.0 } else { 0.0 }");
    assert_eq!(scalar_option::scalar(Primitive::F64, "v"), "v");
    assert_eq!(scalar_option::scalar(Primitive::U8, "v"), "v as f64");
    assert_eq!(
        scalar_option::value_tokens(Target::Native, Primitive::I32, "result"),
        (
            "-> ::boltffi::__private::FfiBuf".to_string(),
            "::boltffi::__private::FfiBuf::wire_encode(&result)".to_string()
        )
    );
    assert_eq!(
        scalar_option::value_tokens(Target::Wasm32, Primitive::I32, "result"),
        (
            "-> f64".to_string(),
            "match result { Some(__boltffi_value) => __boltffi_value as f64, None => f64::NAN, }"
                .to_string()
        )
    );
    assert_eq!(
        scalar_option::empty_tokens(Target::Wasm32),
        ("-> f64".to_string(), "f64::NAN".to_string())
    );
    assert_eq!(
        scalar_option::failure_tokens(Target::Native),
        "return ::boltffi::__private::FfiBuf::default();"
    );
}

fn stream_symbols() -> stream::StreamSymbols {
    stream::StreamSymbols {
        subscribe: "s_sub".to_string(),
        pop_batch: "s_pop".to_string(),
        wait: "s_wait".to_string(),
        poll: "s_poll".to_string(),
        unsubscribe: "s_unsub".to_string(),
        free: "s_free".to_string(),
    }
}

#[test]
fn stream_exports_come_in_order_behind_one_head() {
    let text = stream::exports("#[cfg(x)]", &stream_symbols(), "SUB", "POP", "Tick", "u64", "0");
    let head = "#[cfg(x)] #[unsafe(no_mangle)] pub unsafe extern \"C\" fn ";
    assert_eq!(text.matches(head).count(), 6);
    assert!(text.starts_with(&format!("{head}SUB {head}POP {head}s_wait(subscription_handle: u64, timeout_milliseconds: u32) -> i32 {{ if subscription_handle == 0 {{ return ::boltffi::__private::WaitResult::Unsubscribed as i32; }}")));
    let order = ["s_wait(", "s_poll(", "s_unsub(", "s_free("];
    let positions: Vec<usize> = order.iter().map(|name| text.find(name).unwrap()).collect();
    assert!(positions.windows(2).all(|pair| pair[0] < pair[1]));
    assert!(text.ends_with("s_free(subscription_handle: u64) { if subscription_handle == 0 { return; } drop(unsafe { ::std::sync::Arc::from_raw(subscription_handle as usize as *const ::boltffi::__private::EventSubscription<Tick>) }); }"));
}

#[test]
fn stream_renderer_checks_the_owner_before_writing() {
    let export = stream::SubscribeExport {
        class: "Engine".to_string(),
        method: "ticks".to_string(),
        handle_type: "EngineHandle".to_string(),
        receiver: "engine".to_string(),
        receiver_handle: "engine_handle".to_string(),
        stream_handle_type: "u64".to_string(),
        stream_handle_zero: "0".to_string(),
    };
    let plan = stream::StreamItemPlan::Direct { ty: TypeRef::Primitive(Primitive::I32) };
    let owned = stream::Renderer {
        source_owner: Some(ClassId("demo::Engine".to_string())),
        source_class: ClassId("demo::Engine".to_string()),
        lowered_owner: Some(ClassId("Engine".to_string())),
        lowered_class: ClassId("Engine".to_string()),
    };
    let text = owned
        .render("", &stream_symbols(), "u64", "0", &export, &plan, "i32", "items", "slots")
        .unwrap();
    assert!(text.contains("s_sub(engine: u64) -> u64 { if engine == 0 { return 0; }"));
    assert!(text.contains("s_pop(subscription_handle: u64, output_ptr: *mut <i32 as ::boltffi::__private::Passable>::Out"));
    let stray = stream::Renderer { source_owner: None, ..owned };
    assert_eq!(
        stray
            .render("", &stream_symbols(), "u64", "0", &export, &plan, "i32", "items", "slots")
            .err(),
        Some(ExpansionError::SourceSyntaxMismatch("source stream owner does not match source class"))
    );
}

#[test]
fn export_wrapper_assembles_receiver_arguments_and_return() {
    let renderer = boltffi_scan::export::Renderer {
        execution: Execution::Synchronous,
        params: Vec::new(),
        receiver: boltffi_scan::export::ReceiverTokens::new(
            strings(&["self_handle: u64"]),
            strings(&["let receiver = read(self_handle);"]),
            strings(&["store(receiver);"]),
            true,
        ),
        failure: FailureInput::new(ErrorDecl::Infallible, ReturnPlan::Void, Target::Native),
    };
    let input = arguments::Input::new(Execution::Synchronous, 2, 2, vec![Ok(param("a")), Ok(param("b"))]);
    let arguments = arguments::SyncRenderer.render(input).unwrap();
    let call = boltffi_scan::export::RustCall::method("receiver".to_string(), "scale".to_string());
    let invocation = renderer.invocation(&call, &arguments);
    assert_eq!(invocation.call, "receiver.scale(a, b)");
    assert_eq!(
        invocation.conversions,
        strings(&["let receiver = read(self_handle);", "let a = a;", "let b = b;"])
    );
    assert_eq!(invocation.writebacks, strings(&["store(receiver);"]));
    let returned = ret::Tokens { return_type: "-> i32".to_string(), body: "0".to_string() };
    let text = renderer.wrapper(
        "#[cfg(x)]",
        "pub",
        "demo_scale",
        &arguments,
        &strings(&["item_out"]),
        &strings(&["out: *mut i32"]),
        &returned,
    );
    assert_eq!(
        text,
        "item_a item_b item_out #[cfg(x)] #[unsafe(no_mangle)] pub unsafe extern \"C\" fn demo_scale(self_handle: u64, a: i32, b: i32, out: *mut i32) -> i32 { 0 }"
    );
    let bare = boltffi_scan::export::Renderer {
        receiver: boltffi_scan::export::ReceiverTokens::none(),
        ..renderer
    };
    let empty = arguments::SyncRenderer
        .render(arguments::Input::new(Execution::Synchronous, 0, 0, Vec::new()))
        .unwrap();
    let text = bare.wrapper("", "", "demo_tick", &empty, &Vec::new(), &Vec::new(), &returned);
    assert_eq!(text, " #[unsafe(no_mangle)]  extern \"C\" fn demo_tick() -> i32 { 0 }");
}

#[test]
fn functions_are_exported_by_name_with_their_visibility() {
    let export = boltffi_scan::export::function_export("add", &SourceVisibility::Public).unwrap();
    assert_eq!(export.call.owner, "add");
    assert_eq!(export.call.expression(&strings(&["a", "b"])), "add(a, b)");
    assert_eq!(export.visibility, "pub");
    let restricted = boltffi_scan::export::function_export(
        "add",
        &SourceVisibility::Restricted("crate::math".to_string()),
    )
    .unwrap();
    assert_eq!(restricted.visibility, "pub(in crate::math)");
    assert!(matches!(
        boltffi_scan::export::function_export("not a name", &SourceVisibility::Public),
        Err(ExpansionError::SourceSyntaxMismatch("source function name is not a Rust identifier"))
    ));
    assert!(matches!(
        boltffi_scan::export::function_export("add", &SourceVisibility::Restricted("1 +".to_string())),
        Err(ExpansionError::SourceSyntaxMismatch("source visibility path is not Rust path"))
    ));
}
