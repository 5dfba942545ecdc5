//! The argument list of an exported callable: each parameter is rendered on
//! its own, and the pieces are gathered in parameter order.
use vstd::prelude::*;

use crate::expansion::{ExpansionError, ExpansionErrorView};

verus! {

/// How the binding says a callable runs.
#[derive(Clone, Copy, Debug, Eq, PartialEq, Structural)]
pub enum Execution {
    Synchronous,
    Asynchronous,
    /// An execution model this expansion does not know.
    Other,
}

/// What one rendered parameter contributes to a wrapper: helper items,
/// foreign parameters, conversions before the call, write-backs after it,
/// and the argument handed to the Rust function.
pub struct ParamTokens {
    pub items: Vec<String>,
    pub ffi_parameters: Vec<String>,
    pub conversions: Vec<String>,
    pub writebacks: Vec<String>,
    pub argument: String,
}

/// One of the lists a parameter contributes to.
#[derive(Clone, Copy, Debug, Eq, PartialEq, Structural)]
pub enum Part {
    Items,
    FfiParameters,
    Conversions,
    Writebacks,
}

/// The list `which` of one parameter.
pub open spec fn part(param: ParamTokens, which: Part) -> Seq<String> {
    match which {
        Part::Items => param.items@,
        Part::FfiParameters => param.ffi_parameters@,
        Part::Conversions => param.conversions@,
        Part::Writebacks => param.writebacks@,
    }
}

/// The first error among the rendered parameters, in parameter order.
pub open spec fn first_error(rendered: Seq<Result<ParamTokens, ExpansionError>>) -> Option<
    ExpansionError,
>
    decreases rendered.len(),
{
    if rendered.len() == 0 {
        None
    } else {
        match first_error(rendered.drop_last()) {
            Some(error) => Some(error),
            None => match rendered.last() {
                Ok(_) => None,
                Err(error) => Some(error),
            },
        }
    }
}

/// The lists `which` of the rendered parameters, concatenated in order.
pub open spec fn gathered(rendered: Seq<Result<ParamTokens, ExpansionError>>, which: Part) -> Seq<
    String,
>
    decreases rendered.len(),
{
    if rendered.len() == 0 {
        Seq::empty()
    } else {
        gathered(rendered.drop_last(), which) + match rendered.last() {
            Ok(param) => part(param, which),
            Err(_) => Seq::empty(),
        }
    }
}

/// The Rust arguments of the rendered parameters, in order.
pub open spec fn arguments(rendered: Seq<Result<ParamTokens, ExpansionError>>) -> Seq<String>
    decreases rendered.len(),
{
    if rendered.len() == 0 {
        Seq::empty()
    } else {
        arguments(rendered.drop_last()) + match rendered.last() {
            Ok(param) => seq![param.argument],
            Err(_) => Seq::empty(),
        }
    }
}

/// The gathered pieces of a whole argument list.
pub struct Tokens {
    items: Vec<String>,
    ffi_parameters: Vec<String>,
    conversions: Vec<String>,
    writebacks: Vec<String>,
    rust_arguments: Vec<String>,
}

/// The lists of a [`Tokens`].
pub struct TokensView {
    pub items: Seq<String>,
    pub ffi_parameters: Seq<String>,
    pub conversions: Seq<String>,
    pub writebacks: Seq<String>,
    pub rust_arguments: Seq<String>,
}

impl View for Tokens {
    type V = TokensView;

    closed spec fn view(&self) -> TokensView {
        TokensView {
            items: self.items@,
            ffi_parameters: self.ffi_parameters@,
            conversions: self.conversions@,
            writebacks: self.writebacks@,
            rust_arguments: self.rust_arguments@,
        }
    }
}

impl Tokens {
    pub fn items(&self) -> (items: &[String])
        ensures
            items@ == self@.items,
    {
        self.items.as_slice()
    }

    pub fn ffi_parameters(&self) -> (ffi_parameters: &[String])
        ensures
            ffi_parameters@ == self@.ffi_parameters,
    {
        self.ffi_parameters.as_slice()
    }

    pub fn conversions(&self) -> (conversions: &[String])
        ensures
            conversions@ == self@.conversions,
    {
        self.conversions.as_slice()
    }

    pub fn writebacks(&self) -> (writebacks: &[String])
        ensures
            writebacks@ == self@.writebacks,
    {
        self.writebacks.as_slice()
    }

    pub fn rust_arguments(&self) -> (rust_arguments: &[String])
        ensures
            rust_arguments@ == self@.rust_arguments,
    {
        self.rust_arguments.as_slice()
    }
}

/// A callable's argument list: how it runs, how many parameters the
/// binding and the source declare, and each parameter as rendered.
pub struct Input {
    pub execution: Execution,
    pub binding_parameters: usize,
    pub source_parameters: usize,
    pub rendered: Vec<Result<ParamTokens, ExpansionError>>,
}

/// The error for a binding and a source that disagree on the parameters.
pub open spec fn count_mismatch() -> ExpansionErrorView {
    ExpansionErrorView::SourceSyntaxMismatch(
        "source parameter count does not match binding parameter count"@,
    )
}

/// What rendering `input`'s parameters gives, whatever its execution. The
/// binding and the source must declare as many parameters, and each
/// binding parameter must have been rendered once.
pub open spec fn rendered_as(input: Input, result: Result<Tokens, ExpansionError>) -> bool {
    if input.binding_parameters != input.source_parameters || input.rendered@.len()
        != input.binding_parameters {
        result matches Err(error) && error@ == count_mismatch()
    } else {
        match first_error(input.rendered@) {
            Some(error) => result matches Err(e) && e == error,
            None => result matches Ok(tokens) && tokens@ == TokensView {
                items: gathered(input.rendered@, Part::Items),
                ffi_parameters: gathered(input.rendered@, Part::FfiParameters),
                conversions: gathered(input.rendered@, Part::Conversions),
                writebacks: gathered(input.rendered@, Part::Writebacks),
                rust_arguments: arguments(input.rendered@),
            },
        }
    }
}

fn append_all(out: &mut Vec<String>, more: &Vec<String>)
    ensures
        final(out)@ == old(out)@ + more@,
{
    let ghost start = out@;
    let mut i: usize = 0;
    while i < more.len()
        invariant
            i <= more.len(),
            out@ == start + more@.take(i as int),
        decreases more.len() - i,
    {
        out.push(more[i].clone());
        proof {
            assert(more@.take(i + 1) =~= more@.take(i as int).push(more@[i as int]));
        }
        i = i + 1;
    }
    proof {
        assert(more@.take(more.len() as int) =~= more@);
    }
}

impl Input {
    pub fn new(
        execution: Execution,
        binding_parameters: usize,
        source_parameters: usize,
        rendered: Vec<Result<ParamTokens, ExpansionError>>,
    ) -> (input: Self)
        ensures
            input.execution == execution,
            input.binding_parameters == binding_parameters,
            input.source_parameters == source_parameters,
            input.rendered@ == rendered@,
    {
        Input { execution, binding_parameters, source_parameters, rendered }
    }

    fn render(self) -> (result: Result<Tokens, ExpansionError>)
        ensures
            rendered_as(self, result),
    {
        if self.binding_parameters != self.source_parameters || self.rendered.len()
            != self.binding_parameters {
            return Err(
                ExpansionError::SourceSyntaxMismatch(
                    "source parameter count does not match binding parameter count",
                ),
            );
        }
        let rendered = &self.rendered;
        let mut items: Vec<String> = Vec::new();
        let mut ffi_parameters: Vec<String> = Vec::new();
        let mut conversions: Vec<String> = Vec::new();
        let mut writebacks: Vec<String> = Vec::new();
        let mut rust_arguments: Vec<String> = Vec::new();
        let mut i: usize = 0;
        while i < rendered.len()
            invariant
                i <= rendered.len(),
                self.binding_parameters == self.source_parameters,
                self.rendered@.len() == self.binding_parameters,
                rendered@ == self.rendered@,
                first_error(rendered@.take(i as int)) is None,
                items@ == gathered(rendered@.take(i as int), Part::Items),
                ffi_parameters@ == gathered(rendered@.take(i as int), Part::FfiParameters),
                conversions@ == gathered(rendered@.take(i as int), Part::Conversions),
                writebacks@ == gathered(rendered@.take(i as int), Part::Writebacks),
                rust_arguments@ == arguments(rendered@.take(i as int)),
            decreases rendered.len() - i,
        {
            let ghost prefix = rendered@.take(i as int);
            let ghost next = rendered@.take(i + 1);
            proof {
                assert(next.drop_last() =~= prefix);
                assert(next.last() == rendered@[i as int]);
            }
            match &rendered[i] {
                Err(error) => {
                    proof {
                        assert(first_error(next) == Some(*error));
                        lemma_first_error_extends(rendered@, i + 1);
                    }
                    return Err(*error);
                },
                Ok(param) => {
                    append_all(&mut items, &param.items);
                    append_all(&mut ffi_parameters, &param.ffi_parameters);
                    append_all(&mut conversions, &param.conversions);
                    append_all(&mut writebacks, &param.writebacks);
                    rust_arguments.push(param.argument.clone());
                },
            }
            i = i + 1;
        }
        proof {
            assert(rendered@.take(rendered.len() as int) =~= rendered@);
        }
        Ok(Tokens { items, ffi_parameters, conversions, writebacks, rust_arguments })
    }
}

/// Once a prefix holds an error, every longer prefix has that same first
/// error.
proof fn lemma_first_error_extends(rendered: Seq<Result<ParamTokens, ExpansionError>>, n: int)
    requires
        0 <= n <= rendered.len(),
        first_error(rendered.take(n)) is Some,
    ensures
        first_error(rendered) == first_error(rendered.take(n)),
    decreases rendered.len() - n,
{
    if n < rendered.len() {
        assert(rendered.take(n + 1).drop_last() =~= rendered.take(n));
        lemma_first_error_extends(rendered, n + 1);
    } else {
        assert(rendered.take(n) =~= rendered);
    }
}

/// Renders the arguments of a synchronous callable.
pub struct SyncRenderer;

/// Renders the arguments of an asynchronous callable.
pub struct AsyncRenderer;

impl SyncRenderer {
    /// Refuses an asynchronous or unknown execution, and otherwise renders
    /// the arguments.
    pub fn render(self, input: Input) -> (result: Result<Tokens, ExpansionError>)
        ensures
            input.execution == Execution::Asynchronous ==> (result matches Err(error) && error@
                == ExpansionErrorView::UnsupportedExpansion("async function"@)),
            input.execution == Execution::Other ==> (result matches Err(error) && error@
                == ExpansionErrorView::UnsupportedExpansion("unknown execution"@)),
            input.execution == Execution::Synchronous ==> rendered_as(input, result),
    {
        match input.execution {
            Execution::Synchronous => input.render(),
            Execution::Asynchronous => Err(ExpansionError::UnsupportedExpansion("async function")),
            Execution::Other => Err(ExpansionError::UnsupportedExpansion("unknown execution")),
        }
    }
}

impl AsyncRenderer {
    /// Refuses a synchronous or unknown execution, and otherwise renders the
    /// arguments.
    pub fn render(self, input: Input) -> (result: Result<Tokens, ExpansionError>)
        ensures
            input.execution == Execution::Synchronous ==> (result matches Err(error) && error@
                == ExpansionErrorView::UnsupportedExpansion("sync function"@)),
            input.execution == Execution::Other ==> (result matches Err(error) && error@
                == ExpansionErrorView::UnsupportedExpansion("unknown execution"@)),
            input.execution == Execution::Asynchronous ==> rendered_as(input, result),
    {
        match input.execution {
            Execution::Asynchronous => input.render(),
            Execution::Synchronous => Err(ExpansionError::UnsupportedExpansion("sync function")),
            Execution::Other => Err(ExpansionError::UnsupportedExpansion("unknown execution")),
        }
    }
}

/// Without a failed parameter, each rendered parameter gives one argument.
proof fn lemma_arguments_len(rendered: Seq<Result<ParamTokens, ExpansionError>>)
    requires
        first_error(rendered) is None,
    ensures
        arguments(rendered).len() == rendered.len(),
    decreases rendered.len(),
{
    if rendered.len() > 0 {
        lemma_arguments_len(rendered.drop_last());
    }
}

/// An argument list that renders has one Rust argument per binding
/// parameter, in the binding's order.
pub proof fn lemma_one_argument_per_parameter(input: Input, result: Result<Tokens, ExpansionError>)
    requires
        rendered_as(input, result),
        result is Ok,
    ensures
        result matches Ok(tokens) && tokens@.rust_arguments.len() == input.binding_parameters,
{
    lemma_arguments_len(input.rendered@);
}

} // verus!
