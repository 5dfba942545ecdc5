//! Decisions the wrapper expansion makes before it renders any code.
use vstd::prelude::*;

verus! {

/// The platform a wrapper is expanded for.
#[derive(Clone, Copy, Debug, Eq, PartialEq, Structural)]
pub enum Target {
    /// A native C ABI.
    Native,
    /// WebAssembly with 32-bit pointers.
    Wasm32,
}

/// Why an expansion cannot be rendered.
#[derive(Clone, Copy, Debug, Eq, PartialEq)]
pub enum ExpansionError {
    /// The source declaration does not match what its binding describes.
    SourceSyntaxMismatch(&'static str),
    /// The binding asks for an expansion that is not supported.
    UnsupportedExpansion(&'static str),
}

/// What an [`ExpansionError`] says.
pub enum ExpansionErrorView {
    SourceSyntaxMismatch(Seq<char>),
    UnsupportedExpansion(Seq<char>),
}

impl View for ExpansionError {
    type V = ExpansionErrorView;

    open spec fn view(&self) -> ExpansionErrorView {
        match *self {
            ExpansionError::SourceSyntaxMismatch(reason) => ExpansionErrorView::SourceSyntaxMismatch(
                reason@,
            ),
            ExpansionError::UnsupportedExpansion(reason) => ExpansionErrorView::UnsupportedExpansion(
                reason@,
            ),
        }
    }
}

/// A check result taken by its view.
pub open spec fn check_view(result: Result<(), ExpansionError>) -> Result<(), ExpansionErrorView> {
    match result {
        Ok(()) => Ok(()),
        Err(error) => Err(error@),
    }
}

/// A record layout size or alignment in bytes, as a `usize`; a layout too
/// large for the target's `usize` is rejected.
pub fn layout_size(bytes: u64) -> (size: Result<usize, ExpansionError>)
    ensures
        match size {
            Ok(size) => bytes <= usize::MAX && size == bytes,
            Err(error) => bytes > usize::MAX && error@ == ExpansionErrorView::SourceSyntaxMismatch(
                "record layout is too large"@,
            ),
        },
{
    if bytes as u128 <= usize::MAX as u128 {
        Ok(bytes as usize)
    } else {
        Err(ExpansionError::SourceSyntaxMismatch("record layout is too large"))
    }
}

} // verus!
