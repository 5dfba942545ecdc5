//! Vectors of plain values returned as a buffer.
use vstd::prelude::*;

use crate::expansion::Target;
use crate::returned::FailureReturn;

verus! {

/// What a vector-returning wrapper gives back when it fails.
pub struct Failure;

/// The failure return of a vector-returning wrapper on `target`.
pub open spec fn failure_on(target: Target) -> FailureReturn {
    match target {
        Target::Native => FailureReturn::EmptyBuffer,
        Target::Wasm32 => FailureReturn::Nothing,
    }
}

impl Failure {
    /// An empty buffer on native targets; on WebAssembly the result is
    /// written through the return area, so the wrapper returns nothing.
    pub fn render(self, target: Target) -> (failure: FailureReturn)
        ensures
            failure == failure_on(target),
    {
        match target {
            Target::Native => FailureReturn::EmptyBuffer,
            Target::Wasm32 => FailureReturn::Nothing,
        }
    }
}

} // verus!
