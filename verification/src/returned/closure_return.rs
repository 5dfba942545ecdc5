//! What the invoke function of a returned closure hands back to the
//! foreign side: its return type, its out parameters, the body around the
//! closure's call, and the early return when an argument cannot be read.
use vstd::prelude::*;

use crate::ast::Primitive;
use crate::expansion::{ExpansionError, ExpansionErrorView, Target};
use crate::returned::encoded::{BufferShape, NativeBufferShape, WasmBufferShape};
use crate::type_ref::{self, TypeRef, spelling};

verus! {

/// The encoded error of a fallible closure: the return type it is carried
/// in, its value read from the `__boltffi_error` local, and the value of
/// no error.
pub struct EncodedError {
    pub return_type: String,
    pub value: String,
    pub empty_value: String,
}

/// How a fallible closure's success value leaves through its out pointer.
pub enum FallibleSuccess {
    Void,
    DirectPrimitive { ffi_type: String },
    DirectPassable { rust_type: String },
    /// Encoded in a buffer of `out_type`, with `value` read from the
    /// `__boltffi_success` local.
    Encoded { out_type: String, value: String },
}

/// How the invoke function returns what the closure returned.
pub enum ClosureReturnTokens {
    Void,
    DirectPrimitive { ffi_type: String },
    DirectPassable { rust_type: String },
    NativeEncoded,
    WasmEncoded,
    Fallible { error: EncodedError, success: FallibleSuccess },
}

/// The out parameter types a fallible success needs.
pub open spec fn spec_success_types(success: FallibleSuccess) -> Seq<Seq<char>> {
    match success {
        FallibleSuccess::Void => Seq::empty(),
        FallibleSuccess::DirectPrimitive { ffi_type } => seq!["*mut "@ + ffi_type@],
        FallibleSuccess::DirectPassable { rust_type } => seq![
            "*mut <"@ + rust_type@ + " as ::boltffi::__private::Passable>::Out"@,
        ],
        FallibleSuccess::Encoded { out_type, .. } => seq!["*mut "@ + out_type@],
    }
}

/// The write of the success value through `__boltffi_success_out`, unless
/// it is null.
pub open spec fn spec_write_success(success: FallibleSuccess) -> Seq<char> {
    let write = |value: Seq<char>|
        "if !__boltffi_success_out.is_null() { unsafe { *__boltffi_success_out = "@ + value
            + "; } } "@;
    match success {
        FallibleSuccess::Void => Seq::empty(),
        FallibleSuccess::DirectPrimitive { .. } => write("__boltffi_success"@),
        FallibleSuccess::DirectPassable { .. } => write(
            "::boltffi::__private::Passable::pack(__boltffi_success)"@,
        ),
        FallibleSuccess::Encoded { value, .. } => write(value@),
    }
}

/// The return type of the invoke function.
pub open spec fn spec_closure_return_type(tokens: ClosureReturnTokens) -> Seq<char> {
    match tokens {
        ClosureReturnTokens::Void => Seq::empty(),
        ClosureReturnTokens::DirectPrimitive { ffi_type } => "-> "@ + ffi_type@,
        ClosureReturnTokens::DirectPassable { rust_type } => "-> <"@ + rust_type@
            + " as ::boltffi::__private::Passable>::Out"@,
        ClosureReturnTokens::NativeEncoded => "-> ::boltffi::__private::FfiBuf"@,
        ClosureReturnTokens::WasmEncoded => "-> u64"@,
        ClosureReturnTokens::Fallible { error, .. } => error.return_type@,
    }
}

/// The out parameter types of the invoke function: a fallible closure's
/// success out pointer, and none otherwise.
pub open spec fn spec_closure_parameter_types(tokens: ClosureReturnTokens) -> Seq<Seq<char>> {
    match tokens {
        ClosureReturnTokens::Fallible { success, .. } => spec_success_types(success),
        _ => Seq::empty(),
    }
}

/// The invoke function's body around the closure's `call`.
pub open spec fn spec_closure_body(tokens: ClosureReturnTokens, call: Seq<char>) -> Seq<char> {
    match tokens {
        ClosureReturnTokens::Void => call + ";"@,
        ClosureReturnTokens::DirectPrimitive { .. } => call,
        ClosureReturnTokens::DirectPassable { .. } => "::boltffi::__private::Passable::pack("@
            + call + ")"@,
        ClosureReturnTokens::NativeEncoded => "{ let __boltffi_result = "@ + call
            + "; ::boltffi::__private::FfiBuf::wire_encode(&__boltffi_result) }"@,
        ClosureReturnTokens::WasmEncoded => "{ let __boltffi_result = "@ + call
            + "; ::boltffi::__private::FfiBuf::wire_encode(&__boltffi_result).into_packed() }"@,
        ClosureReturnTokens::Fallible { error, success } => "match "@ + call + " { Ok("@ + (
        if success is Void {
            "()"@
        } else {
            "__boltffi_success"@
        }) + ") => { "@ + spec_write_success(success) + error.empty_value@
            + " } Err(__boltffi_error) => { "@ + error.value@ + " } }"@,
    }
}

/// The early return of the invoke function when an argument cannot be
/// read: nothing, a default, a zeroed value, an empty buffer, or the last
/// error encoded.
pub open spec fn spec_closure_failure(tokens: ClosureReturnTokens) -> Seq<char> {
    match tokens {
        ClosureReturnTokens::Void => "return;"@,
        ClosureReturnTokens::DirectPrimitive { .. } => "return ::core::default::Default::default();"@,
        ClosureReturnTokens::DirectPassable { .. } => "return unsafe { ::core::mem::MaybeUninit::zeroed().assume_init() };"@,
        ClosureReturnTokens::NativeEncoded => "return ::boltffi::__private::FfiBuf::default();"@,
        ClosureReturnTokens::WasmEncoded => "return ::boltffi::__private::FfiBuf::default().into_packed();"@,
        ClosureReturnTokens::Fallible { error, .. } => "{ let __boltffi_error = ::boltffi::__private::take_last_error().unwrap_or_else(|| \"closure invoke argument conversion failed\".to_string()); return "@
            + error.value@ + "; }"@,
    }
}

fn write_success(success: &FallibleSuccess) -> (text: String)
    ensures
        text@ == spec_write_success(*success),
{
    let value = match success {
        FallibleSuccess::Void => return String::new(),
        FallibleSuccess::DirectPrimitive { .. } => "__boltffi_success".to_owned(),
        FallibleSuccess::DirectPassable { .. } => "::boltffi::__private::Passable::pack(__boltffi_success)".to_owned(),
        FallibleSuccess::Encoded { value, .. } => value.clone(),
    };
    let mut text = "if !__boltffi_success_out.is_null() { unsafe { *__boltffi_success_out = ".to_owned();
    text.append(value.as_str());
    text.append("; } } ");
    text
}

impl ClosureReturnTokens {
    /// The return type of the invoke function.
    pub fn return_type(&self) -> (text: String)
        ensures
            text@ == spec_closure_return_type(*self),
    {
        match self {
            ClosureReturnTokens::Void => String::new(),
            ClosureReturnTokens::DirectPrimitive { ffi_type } => {
                let mut text = "-> ".to_owned();
                text.append(ffi_type.as_str());
                text
            },
            ClosureReturnTokens::DirectPassable { rust_type } => {
                let mut text = "-> <".to_owned();
                text.append(rust_type.as_str());
                text.append(" as ::boltffi::__private::Passable>::Out");
                text
            },
            ClosureReturnTokens::NativeEncoded => "-> ::boltffi::__private::FfiBuf".to_owned(),
            ClosureReturnTokens::WasmEncoded => "-> u64".to_owned(),
            ClosureReturnTokens::Fallible { error, .. } => error.return_type.clone(),
        }
    }

    /// The out parameter types of the invoke function.
    pub fn ffi_parameter_types(&self) -> (types: Vec<String>)
        ensures
            crate::text::views(types@) == spec_closure_parameter_types(*self),
    {
        let mut types: Vec<String> = Vec::new();
        let ty = match self {
            ClosureReturnTokens::Fallible { success, .. } => match success {
                FallibleSuccess::Void => None,
                FallibleSuccess::DirectPrimitive { ffi_type } => {
                    let mut text = "*mut ".to_owned();
                    text.append(ffi_type.as_str());
                    Some(text)
                },
                FallibleSuccess::DirectPassable { rust_type } => {
                    let mut text = "*mut <".to_owned();
                    text.append(rust_type.as_str());
                    text.append(" as ::boltffi::__private::Passable>::Out");
                    Some(text)
                },
                FallibleSuccess::Encoded { out_type, .. } => {
                    let mut text = "*mut ".to_owned();
                    text.append(out_type.as_str());
                    Some(text)
                },
            },
            _ => None,
        };
        match ty {
            Some(text) => {
                types.push(text);
            },
            None => {},
        }
        proof {
            assert(crate::text::views(types@) =~= spec_closure_parameter_types(*self));
        }
        types
    }

    /// The out parameters of the invoke function: the success out pointer
    /// of a fallible closure, with its type.
    pub fn ffi_parameters(&self) -> (parameters: Vec<String>)
        ensures
            crate::text::views(parameters@) == spec_closure_parameter_types(*self).map_values(
                |ty: Seq<char>| "__boltffi_success_out: "@ + ty,
            ),
    {
        let types = self.ffi_parameter_types();
        let mut parameters: Vec<String> = Vec::new();
        let mut i: usize = 0;
        while i < types.len()
            invariant
                i <= types.len(),
                crate::text::views(types@) == spec_closure_parameter_types(*self),
                crate::text::views(parameters@) == crate::text::views(types@).take(i as int).map_values(
                    |ty: Seq<char>| "__boltffi_success_out: "@ + ty,
                ),
            decreases types.len() - i,
        {
            let mut parameter = "__boltffi_success_out: ".to_owned();
            parameter.append(types[i].as_str());
            let ghost before = parameters@;
            parameters.push(parameter);
            proof {
                assert(crate::text::views(parameters@) =~= crate::text::views(before).push(parameter@));
                assert(crate::text::views(types@).take(i + 1) =~= crate::text::views(types@).take(i as int).push(types@[i as int]@));
                assert(crate::text::views(parameters@) =~= crate::text::views(types@).take(i + 1).map_values(
                    |ty: Seq<char>| "__boltffi_success_out: "@ + ty,
                ));
            }
            i = i + 1;
        }
        proof {
            assert(crate::text::views(types@).take(types.len() as int) =~= crate::text::views(types@));
        }
        parameters
    }

    /// The invoke function's body around the closure's `call`.
    pub fn body(&self, call: &str) -> (text: String)
        ensures
            text@ == spec_closure_body(*self, call@),
    {
        match self {
            ClosureReturnTokens::Void => {
                let mut text = call.to_owned();
                text.append(";");
                text
            },
            ClosureReturnTokens::DirectPrimitive { .. } => call.to_owned(),
            ClosureReturnTokens::DirectPassable { .. } => {
                let mut text = "::boltffi::__private::Passable::pack(".to_owned();
                text.append(call);
                text.append(")");
                text
            },
            ClosureReturnTokens::NativeEncoded => {
                let mut text = "{ let __boltffi_result = ".to_owned();
                text.append(call);
                text.append("; ::boltffi::__private::FfiBuf::wire_encode(&__boltffi_result) }");
                text
            },
            ClosureReturnTokens::WasmEncoded => {
                let mut text = "{ let __boltffi_result = ".to_owned();
                text.append(call);
                text.append("; ::boltffi::__private::FfiBuf::wire_encode(&__boltffi_result).into_packed() }");
                text
            },
            ClosureReturnTokens::Fallible { error, success } => {
                let mut text = "match ".to_owned();
                text.append(call);
                text.append(" { Ok(");
                match success {
                    FallibleSuccess::Void => text.append("()"),
                    _ => text.append("__boltffi_success"),
                }
                text.append(") => { ");
                let written = write_success(success);
                text.append(written.as_str());
                text.append(error.empty_value.as_str());
                text.append(" } Err(__boltffi_error) => { ");
                text.append(error.value.as_str());
                text.append(" } }");
                text
            },
        }
    }

    /// The early return of the invoke function.
    pub fn failure(&self) -> (text: String)
        ensures
            text@ == spec_closure_failure(*self),
    {
        match self {
            ClosureReturnTokens::Void => "return;".to_owned(),
            ClosureReturnTokens::DirectPrimitive { .. } => "return ::core::default::Default::default();".to_owned(),
            ClosureReturnTokens::DirectPassable { .. } => "return unsafe { ::core::mem::MaybeUninit::zeroed().assume_init() };".to_owned(),
            ClosureReturnTokens::NativeEncoded => "return ::boltffi::__private::FfiBuf::default();".to_owned(),
            ClosureReturnTokens::WasmEncoded => "return ::boltffi::__private::FfiBuf::default().into_packed();".to_owned(),
            ClosureReturnTokens::Fallible { error, .. } => {
                let mut text = "{ let __boltffi_error = ::boltffi::__private::take_last_error().unwrap_or_else(|| \"closure invoke argument conversion failed\".to_string()); return ".to_owned();
                text.append(error.value.as_str());
                text.append("; }");
                text
            },
        }
    }
}

/// How the binding returns a closure's value to the foreign side.
pub enum ClosureReturnPlan {
    Void,
    DirectPrimitive(Primitive),
    /// Another plain value in the return slot.
    Direct,
    Encoded(BufferShape),
    /// A primitive written through an out pointer.
    DirectOutPrimitive(Primitive),
    /// Another plain value written through an out pointer.
    DirectOut,
    /// An encoded value written through an out pointer; the encoded
    /// renderer's out type and value for the `__boltffi_success` local.
    EncodedOut { shape: BufferShape, out_type: String, value: String },
    /// A plan this expansion does not know.
    Other,
}

/// How the binding returns a closure's error.
pub enum ClosureErrorPlan {
    Infallible,
    /// Encoded in the return slot, in this shape; the encoded renderer's
    /// texts for it.
    Encoded { shape: BufferShape, error: EncodedError },
    /// An error form this expansion does not know.
    Other,
}

/// Whether `shape` is the buffer a closure's encoded return is carried in
/// on `target`: an `FfiBuf` on native targets, a packed `u64` on
/// WebAssembly.
pub open spec fn is_closure_buffer(target: Target, shape: BufferShape) -> bool {
    match (target, shape) {
        (Target::Native, BufferShape::Native(NativeBufferShape::Buffer)) => true,
        (Target::Wasm32, BufferShape::Wasm32(WasmBufferShape::Packed)) => true,
        _ => false,
    }
}

/// The mismatch of a source return that does not fit the plan.
pub open spec fn mismatched_return() -> ExpansionErrorView {
    ExpansionErrorView::SourceSyntaxMismatch(
        "source closure invoke return does not match binding return plan"@,
    )
}

/// The refusal of a return shape no closure return has.
pub open spec fn unknown_shape() -> ExpansionErrorView {
    ExpansionErrorView::UnsupportedExpansion("closure return invoke return shape"@)
}

/// The refusal of an encoded return in a buffer other than the target's.
pub open spec fn encoded_shape_refused(target: Target) -> ExpansionErrorView {
    match target {
        Target::Native => ExpansionErrorView::UnsupportedExpansion(
            "native closure return invoke encoded return shape"@,
        ),
        Target::Wasm32 => ExpansionErrorView::UnsupportedExpansion(
            "wasm closure return invoke encoded return shape"@,
        ),
    }
}

/// Whether `result` is how the invoke function of a closure returns, for
/// the plans `plan` and `error` on `target`. `returns_value` says whether
/// the source closure returns a value, `rust_type` is its return type where
/// written, and `ok_type` what its `Result`'s success type is written as.
/// An infallible closure returns nothing, a primitive, a packed value, or
/// an encoded buffer; a fallible one with an encoded error writes its
/// success through an out pointer.
pub open spec fn closure_return_is(
    plan: ClosureReturnPlan,
    error: ClosureErrorPlan,
    target: Target,
    returns_value: bool,
    rust_type: Option<Seq<char>>,
    ok_type: Result<Seq<char>, ExpansionErrorView>,
    result: Result<ClosureReturnTokens, ExpansionError>,
) -> bool {
    match error {
        ClosureErrorPlan::Infallible => match plan {
            ClosureReturnPlan::Void => if returns_value {
                result matches Err(e) && e@ == mismatched_return()
            } else {
                result matches Ok(ClosureReturnTokens::Void)
            },
            ClosureReturnPlan::DirectPrimitive(primitive) => if !returns_value {
                result matches Err(e) && e@ == mismatched_return()
            } else {
                match spelling(TypeRef::Primitive(primitive)) {
                    Some(ty) => result matches Ok(ClosureReturnTokens::DirectPrimitive { ffi_type })
                        && ffi_type@ == ty,
                    None => result matches Err(e) && e@ == ExpansionErrorView::UnsupportedExpansion(
                        "type reference"@,
                    ),
                }
            },
            ClosureReturnPlan::Direct => if !returns_value {
                result matches Err(e) && e@ == mismatched_return()
            } else {
                match rust_type {
                    Some(ty) => result matches Ok(ClosureReturnTokens::DirectPassable { rust_type: t })
                        && t@ == ty,
                    None => result matches Err(e) && e@
                        == ExpansionErrorView::SourceSyntaxMismatch(
                        "closure return invoke direct return requires source return type"@,
                    ),
                }
            },
            ClosureReturnPlan::Encoded(shape) => if is_closure_buffer(target, shape) {
                match target {
                    Target::Native => result matches Ok(ClosureReturnTokens::NativeEncoded),
                    Target::Wasm32 => result matches Ok(ClosureReturnTokens::WasmEncoded),
                }
            } else {
                result matches Err(e) && e@ == encoded_shape_refused(target)
            },
            _ => result matches Err(e) && e@ == unknown_shape(),
        },
        ClosureErrorPlan::Encoded { shape: error_shape, error: encoded } => if !is_closure_buffer(
            target,
            error_shape,
        ) {
            if plan is Encoded {
                result matches Err(e) && e@ == encoded_shape_refused(target)
            } else {
                result matches Err(e) && e@ == unknown_shape()
            }
        } else {
            match plan {
                ClosureReturnPlan::Void => result matches Ok(
                    ClosureReturnTokens::Fallible { error: e, success: FallibleSuccess::Void },
                ) && e == encoded,
                ClosureReturnPlan::DirectOutPrimitive(primitive) => match spelling(
                    TypeRef::Primitive(primitive),
                ) {
                    Some(ty) => result matches Ok(
                        ClosureReturnTokens::Fallible {
                            error: e,
                            success: FallibleSuccess::DirectPrimitive { ffi_type },
                        },
                    ) && e == encoded && ffi_type@ == ty,
                    None => result matches Err(e) && e@ == ExpansionErrorView::UnsupportedExpansion(
                        "type reference"@,
                    ),
                },
                ClosureReturnPlan::DirectOut => match ok_type {
                    Ok(ty) => result matches Ok(
                        ClosureReturnTokens::Fallible {
                            error: e,
                            success: FallibleSuccess::DirectPassable { rust_type },
                        },
                    ) && e == encoded && rust_type@ == ty,
                    Err(why) => result matches Err(e) && e@ == why,
                },
                ClosureReturnPlan::EncodedOut { shape, out_type, value } => if is_closure_buffer(
                    target,
                    shape,
                ) {
                    result matches Ok(ClosureReturnTokens::Fallible { error: e, success }) && e
                        == encoded && success == FallibleSuccess::Encoded { out_type, value }
                } else {
                    result matches Err(e) && e@ == unknown_shape()
                },
                ClosureReturnPlan::Encoded(_) => result matches Err(e) && e@
                    == encoded_shape_refused(target),
                _ => result matches Err(e) && e@ == unknown_shape(),
            }
        },
        ClosureErrorPlan::Other => if plan is Encoded {
            result matches Err(e) && e@ == encoded_shape_refused(target)
        } else {
            result matches Err(e) && e@ == unknown_shape()
        },
    }
}

fn closure_buffer(target: Target, shape: BufferShape) -> (is: bool)
    ensures
        is == is_closure_buffer(target, shape),
{
    match (target, shape) {
        (Target::Native, BufferShape::Native(NativeBufferShape::Buffer)) => true,
        (Target::Wasm32, BufferShape::Wasm32(WasmBufferShape::Packed)) => true,
        _ => false,
    }
}

fn refused_encoded_shape(target: Target) -> (error: ExpansionError)
    ensures
        error@ == encoded_shape_refused(target),
{
    match target {
        Target::Native => ExpansionError::UnsupportedExpansion(
            "native closure return invoke encoded return shape",
        ),
        Target::Wasm32 => ExpansionError::UnsupportedExpansion(
            "wasm closure return invoke encoded return shape",
        ),
    }
}

fn copy_error(error: &EncodedError) -> (copy: EncodedError)
    ensures
        copy == *error,
{
    EncodedError {
        return_type: error.return_type.clone(),
        value: error.value.clone(),
        empty_value: error.empty_value.clone(),
    }
}

/// Renders how the invoke function of a returned closure returns.
pub struct ClosureReturnRenderer;

impl ClosureReturnRenderer {
    /// See [`closure_return_is`].
    pub fn render(
        self,
        plan: &ClosureReturnPlan,
        error: &ClosureErrorPlan,
        target: Target,
        returns_value: bool,
        rust_type: Option<&str>,
        ok_type: Result<&str, ExpansionError>,
    ) -> (result: Result<ClosureReturnTokens, ExpansionError>)
        ensures
            closure_return_is(
                *plan,
                *error,
                target,
                returns_value,
                match rust_type {
                    Some(ty) => Some(ty@),
                    None => None,
                },
                match ok_type {
                    Ok(ty) => Ok(ty@),
                    Err(e) => Err(e@),
                },
                result,
            ),
    {
        match error {
            ClosureErrorPlan::Infallible => match plan {
                ClosureReturnPlan::Void => {
                    if returns_value {
                        return Err(
                            ExpansionError::SourceSyntaxMismatch(
                                "source closure invoke return does not match binding return plan",
                            ),
                        );
                    }
                    Ok(ClosureReturnTokens::Void)
                },
                ClosureReturnPlan::DirectPrimitive(primitive) => {
                    if !returns_value {
                        return Err(
                            ExpansionError::SourceSyntaxMismatch(
                                "source closure invoke return does not match binding return plan",
                            ),
                        );
                    }
                    match type_ref::Renderer.render(&TypeRef::Primitive(*primitive)) {
                        Ok(ffi_type) => Ok(ClosureReturnTokens::DirectPrimitive { ffi_type }),
                        Err(error) => Err(error),
                    }
                },
                ClosureReturnPlan::Direct => {
                    if !returns_value {
                        return Err(
                            ExpansionError::SourceSyntaxMismatch(
                                "source closure invoke return does not match binding return plan",
                            ),
                        );
                    }
                    match rust_type {
                        Some(ty) => Ok(ClosureReturnTokens::DirectPassable { rust_type: ty.to_owned() }),
                        None => Err(
                            ExpansionError::SourceSyntaxMismatch(
                                "closure return invoke direct return requires source return type",
                            ),
                        ),
                    }
                },
                ClosureReturnPlan::Encoded(shape) => {
                    if !closure_buffer(target, *shape) {
                        return Err(refused_encoded_shape(target));
                    }
                    match target {
                        Target::Native => Ok(ClosureReturnTokens::NativeEncoded),
                        Target::Wasm32 => Ok(ClosureReturnTokens::WasmEncoded),
                    }
                },
                _ => Err(ExpansionError::UnsupportedExpansion("closure return invoke return shape")),
            },
            ClosureErrorPlan::Encoded { shape: error_shape, error: encoded } => {
                if !closure_buffer(target, *error_shape) {
                    return match plan {
                        ClosureReturnPlan::Encoded(_) => Err(refused_encoded_shape(target)),
                        _ => Err(ExpansionError::UnsupportedExpansion("closure return invoke return shape")),
                    };
                }
                match plan {
                    ClosureReturnPlan::Void => Ok(
                        ClosureReturnTokens::Fallible {
                            error: copy_error(encoded),
                            success: FallibleSuccess::Void,
                        },
                    ),
                    ClosureReturnPlan::DirectOutPrimitive(primitive) => {
                        match type_ref::Renderer.render(&TypeRef::Primitive(*primitive)) {
                            Ok(ffi_type) => Ok(
                                ClosureReturnTokens::Fallible {
                                    error: copy_error(encoded),
                                    success: FallibleSuccess::DirectPrimitive { ffi_type },
                                },
                            ),
                            Err(error) => Err(error),
                        }
                    },
                    ClosureReturnPlan::DirectOut => match ok_type {
                        Ok(ty) => Ok(
                            ClosureReturnTokens::Fallible {
                                error: copy_error(encoded),
                                success: FallibleSuccess::DirectPassable { rust_type: ty.to_owned() },
                            },
                        ),
                        Err(why) => Err(why),
                    },
                    ClosureReturnPlan::EncodedOut { shape, out_type, value } => {
                        if !closure_buffer(target, *shape) {
                            return Err(ExpansionError::UnsupportedExpansion("closure return invoke return shape"));
                        }
                        Ok(
                            ClosureReturnTokens::Fallible {
                                error: copy_error(encoded),
                                success: FallibleSuccess::Encoded {
                                    out_type: out_type.clone(),
                                    value: value.clone(),
                                },
                            },
                        )
                    },
                    ClosureReturnPlan::Encoded(_) => Err(refused_encoded_shape(target)),
                    _ => Err(ExpansionError::UnsupportedExpansion("closure return invoke return shape")),
                }
            },
            ClosureErrorPlan::Other => match plan {
                ClosureReturnPlan::Encoded(_) => Err(refused_encoded_shape(target)),
                _ => Err(ExpansionError::UnsupportedExpansion("closure return invoke return shape")),
            },
        }
    }
}

/// The texts the invoke body puts before and after the closure's call.
pub open spec fn spec_around_call(tokens: ClosureReturnTokens) -> (Seq<char>, Seq<char>) {
    match tokens {
        ClosureReturnTokens::Void => (Seq::empty(), ";"@),
        ClosureReturnTokens::DirectPrimitive { .. } => (Seq::empty(), Seq::empty()),
        ClosureReturnTokens::DirectPassable { .. } => ("::boltffi::__private::Passable::pack("@, ")"@),
        ClosureReturnTokens::NativeEncoded => (
            "{ let __boltffi_result = "@,
            "; ::boltffi::__private::FfiBuf::wire_encode(&__boltffi_result) }"@,
        ),
        ClosureReturnTokens::WasmEncoded => (
            "{ let __boltffi_result = "@,
            "; ::boltffi::__private::FfiBuf::wire_encode(&__boltffi_result).into_packed() }"@,
        ),
        ClosureReturnTokens::Fallible { error, success } => (
            "match "@,
            " { Ok("@ + (if success is Void {
                "()"@
            } else {
                "__boltffi_success"@
            }) + ") => { "@ + spec_write_success(success) + error.empty_value@
                + " } Err(__boltffi_error) => { "@ + error.value@ + " } }"@,
        ),
    }
}

/// The invoke body wraps any call the same way: what comes before it,
/// the call, and what comes after it.
pub proof fn lemma_body_wraps_the_call(tokens: ClosureReturnTokens, call: Seq<char>)
    ensures
        spec_around_call(tokens).0 + call + spec_around_call(tokens).1 == spec_closure_body(tokens, call),
{
    let (before, after) = spec_around_call(tokens);
    match tokens {
        ClosureReturnTokens::Fallible { error, success } => {
            assert(before + call + after =~= spec_closure_body(tokens, call));
        },
        _ => {
            assert(before + call + after =~= spec_closure_body(tokens, call));
        },
    }
}

impl ClosureReturnTokens {
    /// What the closure's return contributes to its invoke function: the
    /// return type, the out parameters and their types, and the texts
    /// around the call; see [`spec_around_call`].
    pub fn invoke_return(&self) -> (outcome: crate::returned::closure_write::InvokeReturn)
        ensures
            outcome.return_type@ == spec_closure_return_type(*self),
            crate::text::views(outcome.ffi_parameters@) == spec_closure_parameter_types(*self).map_values(
                |ty: Seq<char>| "__boltffi_success_out: "@ + ty,
            ),
            crate::text::views(outcome.ffi_parameter_types@) == spec_closure_parameter_types(*self),
            (outcome.before_call@, outcome.after_call@) == spec_around_call(*self),
    {
        let (before_call, after_call) = match self {
            ClosureReturnTokens::Void => (String::new(), ";".to_owned()),
            ClosureReturnTokens::DirectPrimitive { .. } => (String::new(), String::new()),
            ClosureReturnTokens::DirectPassable { .. } => (
                "::boltffi::__private::Passable::pack(".to_owned(),
                ")".to_owned(),
            ),
            ClosureReturnTokens::NativeEncoded => (
                "{ let __boltffi_result = ".to_owned(),
                "; ::boltffi::__private::FfiBuf::wire_encode(&__boltffi_result) }".to_owned(),
            ),
            ClosureReturnTokens::WasmEncoded => (
                "{ let __boltffi_result = ".to_owned(),
                "; ::boltffi::__private::FfiBuf::wire_encode(&__boltffi_result).into_packed() }".to_owned(),
            ),
            ClosureReturnTokens::Fallible { error, success } => {
                let mut after = " { Ok(".to_owned();
                match success {
                    FallibleSuccess::Void => after.append("()"),
                    _ => after.append("__boltffi_success"),
                }
                after.append(") => { ");
                let written = write_success(success);
                after.append(written.as_str());
                after.append(error.empty_value.as_str());
                after.append(" } Err(__boltffi_error) => { ");
                after.append(error.value.as_str());
                after.append(" } }");
                ("match ".to_owned(), after)
            },
        };
        proof {
            reveal_strlit("");
            assert(""@ =~= Seq::<char>::empty());
        }
        crate::returned::closure_write::InvokeReturn {
            return_type: self.return_type(),
            ffi_parameters: self.ffi_parameters(),
            ffi_parameter_types: self.ffi_parameter_types(),
            before_call,
            after_call,
        }
    }
}

} // verus!
