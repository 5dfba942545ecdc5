//! What a wrapper returns, and what it returns instead when an argument
//! cannot be read and the call never happens.
use vstd::prelude::*;

pub mod closure;
pub mod direct_vec;
pub mod encoded;
pub mod handle;
pub mod scalar_option;
pub mod returned_closure;
pub mod closure_write;
pub mod closure_return;
pub mod closure_invoke;

use crate::ast::Primitive;
use crate::expansion::{ExpansionError, ExpansionErrorView, Target};
use crate::returned::encoded::{BufferShape, Carrier, carrier_of, value_carrier_of};
use crate::type_ref::{self, TypeRef, primitive_spelling};
use crate::returned::handle::HandleTarget;
use crate::wire::CodecNode;
use crate::text::views;

verus! {

/// The early `return` a wrapper takes when it fails before the call.
#[derive(Clone, Copy, Debug, Eq, PartialEq, Structural)]
pub enum FailureReturn {
    /// The status code for an invalid argument.
    InvalidArgStatus,
    /// The return type's default value.
    DefaultValue,
    /// An all-zero value of the return type.
    ZeroedValue,
    /// An empty `FfiBuf`.
    EmptyBuffer,
    /// An empty `FfiBuf` packed into a `u64`.
    EmptyPackedBuffer,
    /// A NaN, which stands for an absent scalar.
    NotANumber,
    /// A bare `return`: the result travels through an out area.
    Nothing,
    /// The handle carrier's null value.
    NullHandle,
    /// The message "invalid argument" encoded as the error, in this carrier.
    InvalidArgumentMessage(Carrier),
}

/// How a callable reports its error.
pub enum ErrorDecl {
    /// The callable cannot fail.
    Infallible,
    /// An error encoded in a buffer of this shape, whose wire form starts
    /// at `root`.
    Encoded { root: CodecNode, shape: BufferShape },
    /// An error reported as a status code.
    Status,
    /// An error form this expansion does not know.
    Other,
}

/// How a callable's value comes back.
pub enum ReturnPlan {
    Void,
    /// A primitive in the return slot.
    DirectPrimitive(Primitive),
    /// Another plain value in the return slot.
    Direct,
    /// A value encoded with `codec` in a buffer of this shape.
    Encoded { codec: CodecNode, shape: BufferShape },
    ScalarOption,
    DirectVec,
    /// A handle in the return slot.
    Handle { target: HandleTarget },
    /// A plain value written through an out pointer.
    DirectViaOutPointer,
    /// An encoded value written through an out pointer.
    EncodedViaOutPointer,
    /// A handle written through an out pointer.
    HandleViaOutPointer,
    /// A closure written through an out pointer.
    ClosureViaOutPointer,
    /// A return plan this expansion does not know.
    Other,
}

/// A failure result taken by its view.
pub open spec fn failure_view(result: Result<FailureReturn, ExpansionError>) -> Result<
    FailureReturn,
    ExpansionErrorView,
> {
    match result {
        Ok(failure) => Ok(failure),
        Err(error) => Err(error@),
    }
}

/// What a wrapper returns on failure: the callable's error form, its return
/// plan and the platform.
pub struct FailureInput {
    pub error: ErrorDecl,
    pub plan: ReturnPlan,
    pub target: Target,
}

impl FailureInput {
    pub fn new(error: ErrorDecl, plan: ReturnPlan, target: Target) -> (input: Self)
        ensures
            input.error == error,
            input.plan == plan,
            input.target == target,
    {
        FailureInput { error, plan, target }
    }
}

/// The failure return for a callable that reports errors as `error`.
pub open spec fn error_failure_of(error: ErrorDecl) -> Result<FailureReturn, ExpansionErrorView> {
    match error {
        ErrorDecl::Encoded { root, shape } => if root is String {
            match carrier_of(shape) {
                Ok(carrier) => Ok(FailureReturn::InvalidArgumentMessage(carrier)),
                Err(error) => Err(error),
            }
        } else {
            Err(ExpansionErrorView::UnsupportedExpansion("non-string encoded error failure"@))
        },
        ErrorDecl::Status => Err(ExpansionErrorView::UnsupportedExpansion("status error failure"@)),
        _ => Err(ExpansionErrorView::UnsupportedExpansion("error failure"@)),
    }
}

/// The failure return of a wrapper, or why it has none.
pub open spec fn failure_of(input: FailureInput) -> Result<FailureReturn, ExpansionErrorView> {
    if !(input.error is Infallible) {
        error_failure_of(input.error)
    } else {
        match input.plan {
            ReturnPlan::Void => Ok(FailureReturn::InvalidArgStatus),
            ReturnPlan::DirectPrimitive(_) => Ok(FailureReturn::DefaultValue),
            ReturnPlan::Direct => Ok(FailureReturn::ZeroedValue),
            ReturnPlan::Encoded { shape, .. } => match carrier_of(shape) {
                Ok(Carrier::Buffer) => Ok(FailureReturn::EmptyBuffer),
                Ok(Carrier::Packed) => Ok(FailureReturn::EmptyPackedBuffer),
                Err(error) => Err(error),
            },
            ReturnPlan::ScalarOption => Ok(scalar_option::failure_on(input.target)),
            ReturnPlan::DirectVec => Ok(direct_vec::failure_on(input.target)),
            ReturnPlan::Handle { target } => handle::failure_of(target),
            ReturnPlan::ClosureViaOutPointer => Ok(FailureReturn::InvalidArgStatus),
            _ => Err(ExpansionErrorView::UnsupportedExpansion("return failure"@)),
        }
    }
}

fn error_failure(error: &ErrorDecl) -> (failure: Result<FailureReturn, ExpansionError>)
    ensures
        failure_view(failure) == error_failure_of(*error),
{
    match error {
        ErrorDecl::Encoded { root, shape } => {
            if let CodecNode::String = root {
                match encoded::carrier(*shape) {
                    Ok(carrier) => Ok(FailureReturn::InvalidArgumentMessage(carrier)),
                    Err(error) => Err(error),
                }
            } else {
                Err(ExpansionError::UnsupportedExpansion("non-string encoded error failure"))
            }
        },
        ErrorDecl::Status => Err(ExpansionError::UnsupportedExpansion("status error failure")),
        _ => Err(ExpansionError::UnsupportedExpansion("error failure")),
    }
}

/// Renders the failure return of a wrapper.
pub struct Failure;

impl Failure {
    /// A callable with an error form fails with its error; one without
    /// fails with the empty value of its return plan.
    pub fn render(self, input: &FailureInput) -> (failure: Result<FailureReturn, ExpansionError>)
        ensures
            failure_view(failure) == failure_of(*input),
    {
        if !matches!(input.error, ErrorDecl::Infallible) {
            return error_failure(&input.error);
        }
        match &input.plan {
            ReturnPlan::Void => Ok(FailureReturn::InvalidArgStatus),
            ReturnPlan::DirectPrimitive(_) => Ok(FailureReturn::DefaultValue),
            ReturnPlan::Direct => Ok(FailureReturn::ZeroedValue),
            ReturnPlan::Encoded { shape, .. } => match encoded::Renderer.empty(*shape) {
                Ok(Carrier::Buffer) => Ok(FailureReturn::EmptyBuffer),
                Ok(Carrier::Packed) => Ok(FailureReturn::EmptyPackedBuffer),
                Err(error) => Err(error),
            },
            ReturnPlan::ScalarOption => Ok(scalar_option::Failure.render(input.target)),
            ReturnPlan::DirectVec => Ok(direct_vec::Failure.render(input.target)),
            ReturnPlan::Handle { target } => handle::Failure.render(
                handle::FailureInput::new(*target),
            ),
            ReturnPlan::ClosureViaOutPointer => Ok(FailureReturn::InvalidArgStatus),
            _ => Err(ExpansionError::UnsupportedExpansion("return failure")),
        }
    }
}

/// A callable's return, as the wrapper renders it: the error form, the
/// return plan, whether the source writes a return type, and whether
/// write-backs run after the call.
pub struct Input {
    pub error: ErrorDecl,
    pub plan: ReturnPlan,
    pub has_rust_type: bool,
    pub has_writebacks: bool,
}

/// How a wrapper hands the callable's result back.
pub enum ReturnShape {
    /// A fallible callable: its result and error are rendered together.
    Fallible,
    /// A returned closure, written through its out pointer before the
    /// status is returned.
    Closure,
    /// The call, then `FfiStatus::OK`.
    Status,
    /// The primitive itself, of this Rust type; bound to a local first when
    /// write-backs follow the call.
    Primitive { ty: String, binds_result: bool },
    /// The value packed in its `Passable::Out` form; bound to a local first
    /// when write-backs follow the call.
    Packed { binds_result: bool },
    /// The value encoded in a buffer, returned in this carrier.
    Encoded(Carrier),
    /// A handle in the target's handle carrier.
    Handle,
    /// An optional scalar in one slot.
    ScalarOption,
    /// A vector of plain values in a buffer.
    DirectVec,
}

/// The error for a plan that needs the source's return type when the
/// source writes none.
pub open spec fn missing_type(what: Seq<char>) -> ExpansionErrorView {
    ExpansionErrorView::SourceSyntaxMismatch(what)
}

/// Whether `result` renders the return `input`.
pub open spec fn rendered_return(input: Input, result: Result<ReturnShape, ExpansionError>) -> bool {
    if !(input.error is Infallible) {
        result matches Ok(ReturnShape::Fallible)
    } else {
        match input.plan {
            ReturnPlan::ClosureViaOutPointer => result matches Ok(ReturnShape::Closure),
            ReturnPlan::Void => result matches Ok(ReturnShape::Status),
            ReturnPlan::DirectPrimitive(primitive) => result matches Ok(
                ReturnShape::Primitive { ty, binds_result },
            ) && ty@ == primitive_spelling(primitive) && binds_result == input.has_writebacks,
            ReturnPlan::Direct => if input.has_rust_type {
                result matches Ok(ReturnShape::Packed { binds_result }) && binds_result
                    == input.has_writebacks
            } else {
                result matches Err(error) && error@ == missing_type(
                    "binding direct return requires a source return type"@,
                )
            },
            ReturnPlan::Encoded { codec, shape } => if input.has_rust_type {
                match value_carrier_of(codec, shape) {
                    Ok(carrier) => result matches Ok(ReturnShape::Encoded(c)) && c == carrier,
                    Err(error) => result matches Err(e) && e@ == error,
                }
            } else {
                result matches Err(error) && error@ == missing_type(
                    "binding encoded return requires a source return type"@,
                )
            },
            ReturnPlan::Handle { .. } => if input.has_rust_type {
                result matches Ok(ReturnShape::Handle)
            } else {
                result matches Err(error) && error@ == missing_type(
                    "binding handle return requires a source return type"@,
                )
            },
            ReturnPlan::ScalarOption => if input.has_rust_type {
                result matches Ok(ReturnShape::ScalarOption)
            } else {
                result matches Err(error) && error@ == missing_type(
                    "binding scalar option return requires a source return type"@,
                )
            },
            ReturnPlan::DirectVec => result matches Ok(ReturnShape::DirectVec),
            ReturnPlan::DirectViaOutPointer => result matches Err(error) && error@
                == ExpansionErrorView::UnsupportedExpansion("direct out-pointer return"@),
            ReturnPlan::EncodedViaOutPointer => result matches Err(error) && error@
                == ExpansionErrorView::UnsupportedExpansion("encoded out-pointer return"@),
            ReturnPlan::HandleViaOutPointer => result matches Err(error) && error@
                == ExpansionErrorView::UnsupportedExpansion("handle out-pointer return"@),
            ReturnPlan::Other => result matches Err(error) && error@
                == ExpansionErrorView::UnsupportedExpansion("unknown return"@),
        }
    }
}

/// A wrapper that can hand back its value can also bail out before the
/// call: every return plan the renderer accepts for an infallible callable
/// has a failure return on every platform, as long as a returned handle
/// targets a class or a callback.
pub proof fn lemma_rendered_returns_can_fail(
    input: Input,
    target: Target,
    result: Result<ReturnShape, ExpansionError>,
)
    requires
        input.error is Infallible,
        !(input.plan matches ReturnPlan::Handle { target: HandleTarget::Other }),
        rendered_return(input, result),
        result is Ok,
    ensures
        failure_of(FailureInput { error: input.error, plan: input.plan, target }) is Ok,
{
}

/// Renders the return of a wrapper.
pub struct Renderer;

impl Renderer {
    /// A fallible callable is rendered with its error; a returned closure
    /// is written through its out pointer; any other plan picks how the
    /// value leaves the wrapper. Plans that hand the value back in its
    /// Rust form need the source's return type.
    pub fn render(self, input: &Input) -> (result: Result<ReturnShape, ExpansionError>)
        ensures
            rendered_return(*input, result),
    {
        if !matches!(input.error, ErrorDecl::Infallible) {
            return Ok(ReturnShape::Fallible);
        }
        match &input.plan {
            ReturnPlan::ClosureViaOutPointer => Ok(ReturnShape::Closure),
            ReturnPlan::Void => Ok(ReturnShape::Status),
            ReturnPlan::DirectPrimitive(primitive) => {
                let ty = match type_ref::Renderer.render(&TypeRef::Primitive(*primitive)) {
                    Ok(ty) => ty,
                    Err(error) => return Err(error),
                };
                Ok(ReturnShape::Primitive { ty, binds_result: input.has_writebacks })
            },
            ReturnPlan::Direct => {
                if !input.has_rust_type {
                    return Err(
                        ExpansionError::SourceSyntaxMismatch(
                            "binding direct return requires a source return type",
                        ),
                    );
                }
                Ok(ReturnShape::Packed { binds_result: input.has_writebacks })
            },
            ReturnPlan::Encoded { codec, shape } => {
                if !input.has_rust_type {
                    return Err(
                        ExpansionError::SourceSyntaxMismatch(
                            "binding encoded return requires a source return type",
                        ),
                    );
                }
                match encoded::Renderer.value(codec, *shape) {
                    Ok(carrier) => Ok(ReturnShape::Encoded(carrier)),
                    Err(error) => Err(error),
                }
            },
            ReturnPlan::Handle { .. } => {
                if !input.has_rust_type {
                    return Err(
                        ExpansionError::SourceSyntaxMismatch(
                            "binding handle return requires a source return type",
                        ),
                    );
                }
                Ok(ReturnShape::Handle)
            },
            ReturnPlan::ScalarOption => {
                if !input.has_rust_type {
                    return Err(
                        ExpansionError::SourceSyntaxMismatch(
                            "binding scalar option return requires a source return type",
                        ),
                    );
                }
                Ok(ReturnShape::ScalarOption)
            },
            ReturnPlan::DirectVec => Ok(ReturnShape::DirectVec),
            ReturnPlan::DirectViaOutPointer => Err(
                ExpansionError::UnsupportedExpansion("direct out-pointer return"),
            ),
            ReturnPlan::EncodedViaOutPointer => Err(
                ExpansionError::UnsupportedExpansion("encoded out-pointer return"),
            ),
            ReturnPlan::HandleViaOutPointer => Err(
                ExpansionError::UnsupportedExpansion("handle out-pointer return"),
            ),
            ReturnPlan::Other => Err(ExpansionError::UnsupportedExpansion("unknown return")),
        }
    }
}

/// Statements written one after another, each followed by a space.
pub open spec fn statements(parts: Seq<Seq<char>>) -> Seq<char>
    decreases parts.len(),
{
    if parts.len() == 0 {
        Seq::empty()
    } else {
        statements(parts.drop_last()) + parts.last() + " "@
    }
}

/// Writes `parts` one after another, each followed by a space.
pub fn write_statements(parts: &Vec<String>) -> (text: String)
    ensures
        text@ == statements(views(parts@)),
{
    let mut text = String::new();
    let mut i: usize = 0;
    while i < parts.len()
        invariant
            i <= parts.len(),
            text@ == statements(views(parts@).take(i as int)),
        decreases parts.len() - i,
    {
        proof {
            assert(views(parts@).take(i + 1).drop_last() =~= views(parts@).take(i as int));
        }
        text.append(parts[i].as_str());
        text.append(" ");
        i = i + 1;
    }
    proof {
        assert(views(parts@).take(parts.len() as int) =~= views(parts@));
    }
    text
}

/// The call a wrapper makes, as text: the statements that convert its
/// arguments, the call, and the statements that write results back.
pub struct Invocation {
    pub conversions: Vec<String>,
    pub call: String,
    pub writebacks: Vec<String>,
}

/// What the renderer of a value-carrying plan wrote: the wrapper's return
/// type and the value it hands back, read from the result local.
pub struct ValueTokens {
    pub return_type: String,
    pub value: String,
}

/// The return type and body of a wrapper.
pub struct Tokens {
    pub return_type: String,
    pub body: String,
}

/// The body that binds the call's result to `result`, with its Rust type
/// where one is given, writes back, and ends with `tail`.
pub open spec fn spec_bound_body(
    conversions: Seq<Seq<char>>,
    call: Seq<char>,
    writebacks: Seq<Seq<char>>,
    result: Seq<char>,
    annotation: Seq<char>,
    tail: Seq<char>,
) -> Seq<char> {
    statements(conversions) + "let "@ + result + annotation + " = "@ + call + "; "@ + statements(
        writebacks,
    ) + tail
}

/// The return type and body that `shape` renders for the call
/// `invocation`, whose source return type is `rust_type` and whose result
/// local is `result`; `value` is what the plan's own renderer wrote for the
/// plans that carry a value. A fallible callable and a returned closure are
/// rendered by their own renderers, so they have none here.
pub open spec fn spec_return_tokens(
    shape: ReturnShape,
    conversions: Seq<Seq<char>>,
    call: Seq<char>,
    writebacks: Seq<Seq<char>>,
    rust_type: Seq<char>,
    result: Seq<char>,
    value: (Seq<char>, Seq<char>),
) -> Option<(Seq<char>, Seq<char>)> {
    let typed = ": "@ + rust_type;
    match shape {
        ReturnShape::Fallible | ReturnShape::Closure => None,
        ReturnShape::Status => Some(
            (
                "-> ::boltffi::__private::FfiStatus"@,
                statements(conversions) + call + "; "@ + statements(writebacks)
                    + "::boltffi::__private::FfiStatus::OK"@,
            ),
        ),
        ReturnShape::Primitive { ty, binds_result } => Some(
            (
                "-> "@ + ty@,
                if binds_result {
                    spec_bound_body(conversions, call, writebacks, result, Seq::empty(), result)
                } else {
                    statements(conversions) + call
                },
            ),
        ),
        ReturnShape::Packed { binds_result } => Some(
            (
                "-> <"@ + rust_type + " as ::boltffi::__private::Passable>::Out"@,
                if binds_result {
                    spec_bound_body(
                        conversions,
                        call,
                        writebacks,
                        result,
                        Seq::empty(),
                        "::boltffi::__private::Passable::pack("@ + result + ")"@,
                    )
                } else {
                    statements(conversions) + "::boltffi::__private::Passable::pack("@ + call
                        + ")"@
                },
            ),
        ),
        ReturnShape::Handle => Some(
            (
                "-> "@ + value.0,
                spec_bound_body(conversions, call, writebacks, result, typed, value.1),
            ),
        ),
        ReturnShape::DirectVec => Some(
            (value.0, spec_bound_body(conversions, call, writebacks, result, Seq::empty(), value.1)),
        ),
        ReturnShape::Encoded(_) | ReturnShape::ScalarOption => Some(
            (value.0, spec_bound_body(conversions, call, writebacks, result, typed, value.1)),
        ),
    }
}

fn bound_body(invocation: &Invocation, result: &str, annotation: &str, tail: &str) -> (text: String)
    ensures
        text@ == spec_bound_body(
            views(invocation.conversions@),
            invocation.call@,
            views(invocation.writebacks@),
            result@,
            annotation@,
            tail@,
        ),
{
    let mut text = write_statements(&invocation.conversions);
    text.append("let ");
    text.append(result);
    text.append(annotation);
    text.append(" = ");
    text.append(invocation.call.as_str());
    text.append("; ");
    let writebacks = write_statements(&invocation.writebacks);
    text.append(writebacks.as_str());
    text.append(tail);
    text
}

impl ReturnShape {
    /// Writes the return type and body of a wrapper that returns this way;
    /// see [`spec_return_tokens`].
    pub fn tokens(&self, invocation: &Invocation, rust_type: &str, result: &str, value: &ValueTokens) -> (tokens: Option<Tokens>)
        ensures
            match spec_return_tokens(
                *self,
                views(invocation.conversions@),
                invocation.call@,
                views(invocation.writebacks@),
                rust_type@,
                result@,
                (value.return_type@, value.value@),
            ) {
                Some((return_type, body)) => tokens matches Some(t) && t.return_type@ == return_type
                    && t.body@ == body,
                None => tokens is None,
            },
    {
        let mut typed = ": ".to_owned();
        typed.append(rust_type);
        match self {
            ReturnShape::Fallible | ReturnShape::Closure => None,
            ReturnShape::Status => {
                let mut body = write_statements(&invocation.conversions);
                body.append(invocation.call.as_str());
                body.append("; ");
                let writebacks = write_statements(&invocation.writebacks);
                body.append(writebacks.as_str());
                body.append("::boltffi::__private::FfiStatus::OK");
                Some(Tokens { return_type: "-> ::boltffi::__private::FfiStatus".to_owned(), body })
            },
            ReturnShape::Primitive { ty, binds_result } => {
                let mut return_type = "-> ".to_owned();
                return_type.append(ty.as_str());
                let body = if *binds_result {
                    bound_body(invocation, result, "", result)
                } else {
                    let mut body = write_statements(&invocation.conversions);
                    body.append(invocation.call.as_str());
                    body
                };
                proof {
                    reveal_strlit("");
                    assert(""@ =~= Seq::<char>::empty());
                }
                Some(Tokens { return_type, body })
            },
            ReturnShape::Packed { binds_result } => {
                let mut return_type = "-> <".to_owned();
                return_type.append(rust_type);
                return_type.append(" as ::boltffi::__private::Passable>::Out");
                let body = if *binds_result {
                    let mut tail = "::boltffi::__private::Passable::pack(".to_owned();
                    tail.append(result);
                    tail.append(")");
                    bound_body(invocation, result, "", tail.as_str())
                } else {
                    let mut body = write_statements(&invocation.conversions);
                    body.append("::boltffi::__private::Passable::pack(");
                    body.append(invocation.call.as_str());
                    body.append(")");
                    body
                };
                proof {
                    reveal_strlit("");
                    assert(""@ =~= Seq::<char>::empty());
                }
                Some(Tokens { return_type, body })
            },
            ReturnShape::Handle => {
                let mut return_type = "-> ".to_owned();
                return_type.append(value.return_type.as_str());
                let body = bound_body(invocation, result, typed.as_str(), value.value.as_str());
                Some(Tokens { return_type, body })
            },
            ReturnShape::DirectVec => {
                let body = bound_body(invocation, result, "", value.value.as_str());
                proof {
                    reveal_strlit("");
                    assert(""@ =~= Seq::<char>::empty());
                }
                Some(Tokens { return_type: value.return_type.clone(), body })
            },
            ReturnShape::Encoded(_) | ReturnShape::ScalarOption => {
                let body = bound_body(invocation, result, typed.as_str(), value.value.as_str());
                Some(Tokens { return_type: value.return_type.clone(), body })
            },
        }
    }
}

} // verus!
