//! Exported callables: the Rust call a wrapper makes, and whether the
//! wrapper needs an early failure return.
use vstd::prelude::*;

use crate::arguments::{Execution, Tokens as ArgumentTokens};
use crate::expansion::{ExpansionError, ExpansionErrorView};
use crate::param::{IncomingParam, requires_failure_return, spec_requires_failure_return};
use crate::returned::{
    Failure, FailureInput, FailureReturn, Invocation, Tokens as ReturnTokens, failure_of,
    statements, write_statements,
};
use crate::text::{join, join_strings, views};
use crate::ast::SourceVisibility;
use crate::source_names::{checked_ident, parses_as_ident, visibility, visibility_text};

verus! {

/// What a wrapper calls: a free function, an associated function of a
/// type, or a method on a receiver.
pub enum RustCallTarget {
    Function(String),
    Associated { owner: String, method: String },
    Method { receiver: String, method: String },
}

/// The Rust call a wrapper makes, and the name its locals are derived from.
pub struct RustCall {
    pub owner: String,
    pub target: RustCallTarget,
}

/// The text of a call of `callee` with `arguments`.
pub open spec fn call_text(callee: Seq<char>, arguments: Seq<Seq<char>>) -> Seq<char> {
    callee + "("@ + join(arguments, ", "@) + ")"@
}

/// The text of the call `target` makes with `arguments`.
pub open spec fn expression_text(target: RustCallTarget, arguments: Seq<Seq<char>>) -> Seq<char> {
    match target {
        RustCallTarget::Function(function) => call_text(function@, arguments),
        RustCallTarget::Associated { owner, method } => call_text(
            owner@ + "::"@ + method@,
            arguments,
        ),
        RustCallTarget::Method { receiver, method } => call_text(
            receiver@ + "."@ + method@,
            arguments,
        ),
    }
}

impl RustCall {
    /// A call of the free function `function`.
    pub fn function(function: String) -> (call: Self)
        ensures
            call.owner@ == function@,
            call.target matches RustCallTarget::Function(f) && f@ == function@,
    {
        RustCall { owner: function.clone(), target: RustCallTarget::Function(function) }
    }

    /// A call of the associated function `method` of `owner`.
    pub fn associated(owner: String, method: String) -> (call: Self)
        ensures
            call.owner@ == method@,
            call.target matches RustCallTarget::Associated { owner: o, method: m } && o@ == owner@
                && m@ == method@,
    {
        RustCall { owner: method.clone(), target: RustCallTarget::Associated { owner, method } }
    }

    /// A call of the method `method` on `receiver`.
    pub fn method(receiver: String, method: String) -> (call: Self)
        ensures
            call.owner@ == method@,
            call.target matches RustCallTarget::Method { receiver: r, method: m } && r@ == receiver@
                && m@ == method@,
    {
        RustCall { owner: method.clone(), target: RustCallTarget::Method { receiver, method } }
    }

    /// The call's text with `arguments`, separated by commas.
    pub fn expression(&self, arguments: &Vec<String>) -> (text: String)
        ensures
            text@ == expression_text(self.target, views(arguments@)),
    {
        proof {
            reveal_strlit("(");
            reveal_strlit(")");
            reveal_strlit("::");
            reveal_strlit(".");
            reveal_strlit(", ");
        }
        let mut text = match &self.target {
            RustCallTarget::Function(function) => function.clone(),
            RustCallTarget::Associated { owner, method } => {
                let mut callee = owner.clone();
                callee.append("::");
                callee.append(method.as_str());
                callee
            },
            RustCallTarget::Method { receiver, method } => {
                let mut callee = receiver.clone();
                callee.append(".");
                callee.append(method.as_str());
                callee
            },
        };
        text.append("(");
        let joined = join_strings(arguments, ", ");
        text.append(joined.as_str());
        text.append(")");
        text
    }
}

/// What the receiver of a method contributes to its wrapper, and whether
/// reading it can fail.
pub struct ReceiverTokens {
    pub ffi_parameters: Vec<String>,
    pub conversions: Vec<String>,
    pub writebacks: Vec<String>,
    pub requires_failure_return: bool,
}

impl ReceiverTokens {
    /// No receiver: a free or associated function.
    pub fn none() -> (receiver: Self)
        ensures
            receiver.ffi_parameters@.len() == 0,
            receiver.conversions@.len() == 0,
            receiver.writebacks@.len() == 0,
            !receiver.requires_failure_return,
    {
        ReceiverTokens {
            ffi_parameters: Vec::new(),
            conversions: Vec::new(),
            writebacks: Vec::new(),
            requires_failure_return: false,
        }
    }

    pub fn new(
        ffi_parameters: Vec<String>,
        conversions: Vec<String>,
        writebacks: Vec<String>,
        requires_failure_return: bool,
    ) -> (receiver: Self)
        ensures
            receiver.ffi_parameters@ == ffi_parameters@,
            receiver.conversions@ == conversions@,
            receiver.writebacks@ == writebacks@,
            receiver.requires_failure_return == requires_failure_return,
    {
        ReceiverTokens { ffi_parameters, conversions, writebacks, requires_failure_return }
    }

    /// Whether reading the receiver can fail.
    pub fn requires_failure_return(&self) -> (requires: bool)
        ensures
            requires == self.requires_failure_return,
    {
        self.requires_failure_return
    }
}

/// An exported synchronous callable: how it runs, its parameters, its
/// receiver, and its error form, return plan and platform.
pub struct Renderer {
    pub execution: Execution,
    pub params: Vec<IncomingParam>,
    pub receiver: ReceiverTokens,
    pub failure: FailureInput,
}

/// Whether some parameter or the receiver can fail to be read.
pub open spec fn needs_failure(renderer: Renderer) -> bool {
    renderer.receiver.requires_failure_return || exists|i: int|
        0 <= i < renderer.params@.len() && #[trigger] spec_requires_failure_return(
            renderer.params@[i],
            renderer.failure.target,
        )
}

impl Renderer {
    /// The failure return the wrapper needs: one exactly when reading some
    /// parameter or the receiver can fail, and then the one its return plan
    /// calls for.
    pub fn failure(&self) -> (failure: Result<Option<FailureReturn>, ExpansionError>)
        ensures
            needs_failure(*self) ==> match failure {
                Ok(Some(f)) => failure_of(self.failure) == Ok::<FailureReturn, ExpansionErrorView>(f),
                Ok(None) => false,
                Err(error) => failure_of(self.failure) == Err::<FailureReturn, ExpansionErrorView>(
                    error@,
                ),
            },
            !needs_failure(*self) ==> failure matches Ok(None),
    {
        let mut needed = self.receiver.requires_failure_return();
        let mut i: usize = 0;
        while i < self.params.len() && !needed
            invariant
                i <= self.params.len(),
                needed ==> needs_failure(*self),
                !needed ==> !self.receiver.requires_failure_return,
                !needed ==> forall|j: int|
                    0 <= j < i ==> !#[trigger] spec_requires_failure_return(
                        self.params@[j],
                        self.failure.target,
                    ),
            decreases self.params.len() - i,
        {
            if requires_failure_return(&self.params[i], self.failure.target) {
                needed = true;
            }
            i = i + 1;
        }
        if !needed {
            return Ok(None);
        }
        match Failure.render(&self.failure) {
            Ok(failure) => Ok(Some(failure)),
            Err(error) => Err(error),
        }
    }

    /// Refuses an asynchronous callable, which is exported through its
    /// future instead, and otherwise works out the failure return.
    pub fn render(&self) -> (failure: Result<Option<FailureReturn>, ExpansionError>)
        ensures
            self.execution == Execution::Asynchronous ==> (failure matches Err(error) && error@
                == ExpansionErrorView::UnsupportedExpansion("record async exported callable"@)),
            self.execution != Execution::Asynchronous && needs_failure(*self) ==> match failure {
                Ok(Some(f)) => failure_of(self.failure) == Ok::<FailureReturn, ExpansionErrorView>(f),
                Ok(None) => false,
                Err(error) => failure_of(self.failure) == Err::<FailureReturn, ExpansionErrorView>(
                    error@,
                ),
            },
            self.execution != Execution::Asynchronous && !needs_failure(*self) ==> failure matches Ok(
                None,
            ),
    {
        if matches!(self.execution, Execution::Asynchronous) {
            return Err(ExpansionError::UnsupportedExpansion("record async exported callable"));
        }
        self.failure()
    }
}

/// An exported wrapper: the helper items, then the `cfg` attribute,
/// `no_mangle`, the visibility, `unsafe` exactly when the wrapper takes
/// foreign parameters, and the `extern "C"` function named `symbol` with
/// those parameters, its return type and its body.
pub open spec fn spec_wrapper(
    cfg: Seq<char>,
    visibility: Seq<char>,
    symbol: Seq<char>,
    items: Seq<Seq<char>>,
    ffi_parameters: Seq<Seq<char>>,
    return_type: Seq<char>,
    body: Seq<char>,
) -> Seq<char> {
    statements(items) + cfg + " #[unsafe(no_mangle)] "@ + visibility + (if ffi_parameters.len() > 0 {
        " unsafe"@
    } else {
        Seq::empty()
    }) + " extern \"C\" fn "@ + symbol + "("@ + join(ffi_parameters, ", "@) + ") "@ + return_type
        + " { "@ + body + " }"@
}

/// `first` followed by `second`.
fn gather(first: &[String], second: &[String]) -> (joined: Vec<String>)
    ensures
        joined@ == first@ + second@,
{
    let mut joined: Vec<String> = Vec::new();
    let mut i: usize = 0;
    while i < first.len()
        invariant
            i <= first.len(),
            joined@ == first@.take(i as int),
        decreases first.len() - i,
    {
        joined.push(first[i].clone());
        proof {
            assert(first@.take(i + 1) =~= first@.take(i as int).push(first@[i as int]));
        }
        i = i + 1;
    }
    let mut j: usize = 0;
    while j < second.len()
        invariant
            i == first.len(),
            j <= second.len(),
            joined@ == first@ + second@.take(j as int),
        decreases second.len() - j,
    {
        joined.push(second[j].clone());
        proof {
            assert(second@.take(j + 1) =~= second@.take(j as int).push(second@[j as int]));
        }
        j = j + 1;
    }
    proof {
        assert(first@.take(i as int) =~= first@);
        assert(second@.take(j as int) =~= second@);
    }
    joined
}

impl Renderer {
    /// The call the wrapper makes with the rendered arguments: the
    /// receiver's conversions before the arguments', the call of
    /// `rust_call` with the Rust arguments in order, and the arguments'
    /// write-backs before the receiver's.
    pub fn invocation(&self, rust_call: &RustCall, arguments: &ArgumentTokens) -> (invocation: Invocation)
        ensures
            invocation.conversions@ == self.receiver.conversions@ + arguments@.conversions,
            invocation.call@ == expression_text(rust_call.target, views(arguments@.rust_arguments)),
            invocation.writebacks@ == arguments@.writebacks + self.receiver.writebacks@,
    {
        let conversions = gather(self.receiver.conversions.as_slice(), arguments.conversions());
        let writebacks = gather(arguments.writebacks(), self.receiver.writebacks.as_slice());
        let none: Vec<String> = Vec::new();
        let rust_arguments = gather(arguments.rust_arguments(), none.as_slice());
        proof {
            assert(rust_arguments@ =~= arguments@.rust_arguments);
        }
        let call = rust_call.expression(&rust_arguments);
        Invocation { conversions, call, writebacks }
    }

    /// Writes the exported wrapper; see [`spec_wrapper`]. Its items are the
    /// arguments' helper items and then the return's; its foreign
    /// parameters are the receiver's, the arguments' and then the
    /// return's.
    pub fn wrapper(
        &self,
        cfg: &str,
        visibility: &str,
        symbol: &str,
        arguments: &ArgumentTokens,
        return_items: &Vec<String>,
        return_ffi_parameters: &Vec<String>,
        returned: &ReturnTokens,
    ) -> (text: String)
        ensures
            text@ == spec_wrapper(
                cfg@,
                visibility@,
                symbol@,
                views(arguments@.items + return_items@),
                views(self.receiver.ffi_parameters@ + arguments@.ffi_parameters + return_ffi_parameters@),
                returned.return_type@,
                returned.body@,
            ),
    {
        let items = gather(arguments.items(), return_items.as_slice());
        let leading = gather(self.receiver.ffi_parameters.as_slice(), arguments.ffi_parameters());
        let ffi_parameters = gather(leading.as_slice(), return_ffi_parameters.as_slice());
        let mut text = write_statements(&items);
        text.append(cfg);
        text.append(" #[unsafe(no_mangle)] ");
        text.append(visibility);
        if ffi_parameters.len() > 0 {
            text.append(" unsafe");
        }
        text.append(" extern \"C\" fn ");
        text.append(symbol);
        text.append("(");
        let joined = join_strings(&ffi_parameters, ", ");
        text.append(joined.as_str());
        text.append(") ");
        text.append(returned.return_type.as_str());
        text.append(" { ");
        text.append(returned.body.as_str());
        text.append(" }");
        proof {
            reveal_strlit("");
            assert(""@ =~= Seq::<char>::empty());
        }
        text
    }
}

/// How a free function is exported: the call of the function by its name,
/// and the visibility its wrapper is written with.
pub struct FunctionExport {
    pub call: RustCall,
    pub visibility: String,
}

/// The export of the free function `name`, declared with `declared`: the
/// name must be a Rust identifier, and then the wrapper takes the
/// function's own visibility.
pub fn function_export(name: &str, declared: &SourceVisibility) -> (result: Result<FunctionExport, ExpansionError>)
    ensures
        match result {
            Ok(export) => parses_as_ident(name@) && export.call.owner@ == name@ && (export.call.target matches RustCallTarget::Function(
                function,
            ) && function@ == name@) && visibility_text(*declared) == Ok::<
                Seq<char>,
                ExpansionErrorView,
            >(export.visibility@),
            Err(error) => if !parses_as_ident(name@) {
                error@ == ExpansionErrorView::SourceSyntaxMismatch(
                    "source function name is not a Rust identifier"@,
                )
            } else {
                visibility_text(*declared) == Err::<Seq<char>, ExpansionErrorView>(error@)
            },
        },
{
    let function = match checked_ident(name, "source function name is not a Rust identifier") {
        Ok(function) => function,
        Err(error) => return Err(error),
    };
    let written = match visibility(declared) {
        Ok(written) => written,
        Err(error) => return Err(error),
    };
    Ok(FunctionExport { call: RustCall::function(function), visibility: written })
}

} // verus!
