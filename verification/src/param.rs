//! How the parameters of an exported callable cross the boundary.
use vstd::prelude::*;

pub mod direct;
pub mod encoded;
pub mod foreign_return;

use crate::expansion::Target;
use crate::returned::handle::HandleTarget;
use crate::type_ref::TypeRef;

verus! {

/// How the Rust function receives a parameter.
#[derive(Clone, Copy, Debug, Eq, PartialEq, Structural)]
pub enum Receive {
    ByValue,
    ByRef,
    ByMutRef,
    /// A receive mode this expansion does not know.
    Other,
}

/// How a value parameter crosses the boundary.
pub enum ParamPlan {
    /// Passed as it is, or by its layout.
    Direct { ty: TypeRef, receive: Receive },
    /// Passed as an encoded buffer.
    Encoded { receive: Receive },
    /// Passed as a handle to a class or a callback.
    Handle { target: HandleTarget, receive: Receive },
    ScalarOption,
    DirectVec,
    /// A plan this expansion does not know.
    Other,
}

/// A parameter that goes into Rust.
pub enum IncomingParam {
    Value(ParamPlan),
    /// A foreign closure.
    Closure,
}

/// How records cross by value on `target`: in their `Passable` form on
/// native targets, and by a pointer to their bytes on WebAssembly.
pub open spec fn records_by_pointer(target: Target) -> bool {
    target == Target::Wasm32
}

/// Whether reading the parameter can fail, so that the wrapper needs a
/// failure return: a record read through a pointer, and every parameter
/// that is not passed directly.
pub open spec fn spec_requires_failure_return(param: IncomingParam, target: Target) -> bool {
    match param {
        IncomingParam::Value(ParamPlan::Direct { ty, .. }) => records_by_pointer(target)
            && ty is Record,
        _ => true,
    }
}

/// Whether the wrapper needs a failure return for `param`.
pub fn requires_failure_return(param: &IncomingParam, target: Target) -> (requires: bool)
    ensures
        requires == spec_requires_failure_return(*param, target),
{
    match param {
        IncomingParam::Value(ParamPlan::Direct { ty, .. }) => {
            matches!(target, Target::Wasm32) && matches!(ty, TypeRef::Record(_))
        },
        IncomingParam::Value(ParamPlan::Encoded { .. })
        | IncomingParam::Value(ParamPlan::Handle { .. })
        | IncomingParam::Value(ParamPlan::ScalarOption)
        | IncomingParam::Value(ParamPlan::DirectVec)
        | IncomingParam::Closure => true,
        IncomingParam::Value(_) => true,
    }
}

} // verus!
