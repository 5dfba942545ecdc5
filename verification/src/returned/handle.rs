//! Handles to classes and callbacks returned across the boundary.
use vstd::prelude::*;

use crate::expansion::{ExpansionError, ExpansionErrorView};
use crate::returned::FailureReturn;
use crate::source_names::{accepted, checked_path, checked_view, parses_as_path};
use crate::text::{join, join_strings, views};

verus! {

/// What a returned handle refers to.
#[derive(Clone, Copy, Debug, Eq, PartialEq, Structural)]
pub enum HandleTarget {
    Class,
    Callback,
    /// A handle target this expansion does not know.
    Other,
}

/// What a handle-returning wrapper gives back when it fails.
pub struct Failure;

/// The input of a handle failure: the handle's target.
pub struct FailureInput {
    pub target: HandleTarget,
}

impl FailureInput {
    pub fn new(target: HandleTarget) -> (input: Self)
        ensures
            input.target == target,
    {
        FailureInput { target }
    }
}

/// The failure return of a handle-returning wrapper, or why there is none.
pub open spec fn failure_of(target: HandleTarget) -> Result<FailureReturn, ExpansionErrorView> {
    match target {
        HandleTarget::Other => Err(
            ExpansionErrorView::UnsupportedExpansion("unknown handle return failure"@),
        ),
        _ => Ok(FailureReturn::NullHandle),
    }
}

impl Failure {
    /// The carrier's null handle for classes and callbacks.
    pub fn render(self, input: FailureInput) -> (failure: Result<FailureReturn, ExpansionError>)
        ensures
            crate::returned::failure_view(failure) == failure_of(input.target),
    {
        match input.target {
            HandleTarget::Class | HandleTarget::Callback => Ok(FailureReturn::NullHandle),
            HandleTarget::Other => Err(
                ExpansionError::UnsupportedExpansion("unknown handle return failure"),
            ),
        }
    }
}

/// A callback's local handle type, by its module segments under the crate.
pub struct LocalHandlePath {
    pub segments: Vec<String>,
}

/// The path text of a local handle type.
pub open spec fn local_handle_text(segments: Seq<String>) -> Seq<char> {
    "crate::"@ + join(views(segments), "::"@)
}

impl LocalHandlePath {
    pub fn new(segments: Vec<String>) -> (path: Self)
        ensures
            path.segments@ == segments@,
    {
        LocalHandlePath { segments }
    }

    /// The handle type's path under the crate, which must be a Rust path.
    pub fn tokens(&self) -> (path: Result<String, ExpansionError>)
        ensures
            checked_view(path) == accepted(
                local_handle_text(self.segments@),
                parses_as_path(local_handle_text(self.segments@)),
                "callback local handle path is not Rust"@,
            ),
    {
        proof {
            reveal_strlit("crate::");
        }
        let mut text = "crate::".to_owned();
        let suffix = join_strings(&self.segments, "::");
        text.append(suffix.as_str());
        checked_path(text.as_str(), "callback local handle path is not Rust")
    }
}

} // verus!
