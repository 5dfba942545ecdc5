//! The parameters of a returned closure's invoke function: how each
//! argument the foreign caller passes becomes the value the Rust closure
//! is called with.
use vstd::prelude::*;

use crate::arguments::ParamTokens;
use crate::expansion::{ExpansionError, ExpansionErrorView};
use crate::incoming::{self, Conversion, InputView, spec_owned};
use crate::names::{ClosureArgument, indexed};
use crate::param::direct::spec_passable_in;
use crate::returned::closure_write::InvokeParameters;
use crate::returned::encoded::{BufferShape, NativeBufferShape, WasmBufferShape};
use crate::returned::{statements, write_statements};
use crate::text::views;
use crate::type_ref::{TypeRef, primitive_name, primitive_spelling};

verus! {

/// How the binding passes one parameter of a returned closure.
pub enum InvokeParameterPlan {
    /// Passed directly as this binding type.
    Direct(TypeRef),
    /// Passed as an encoded buffer of this shape, decoded as `conversion`
    /// says.
    Encoded { shape: BufferShape, conversion: Conversion },
    /// A foreign closure, with the tokens its parameter renderer wrote and
    /// the types of its FFI parameters.
    Closure { tokens: ParamTokens, ffi_parameter_types: Vec<String> },
    /// A plan this expansion does not know.
    Other,
}

/// One parameter of a returned closure: its plan and its Rust type.
pub struct InvokeParameterInput {
    pub plan: InvokeParameterPlan,
    pub rust_type: String,
}

/// What one parameter contributes to the invoke function.
pub ghost struct InvokeParameterView {
    pub items: Seq<Seq<char>>,
    pub ffi_parameters: Seq<Seq<char>>,
    pub ffi_parameter_types: Seq<Seq<char>>,
    pub conversion: Seq<char>,
    pub argument: Seq<char>,
}

/// The error for a parameter the invoke function cannot take.
pub open spec fn unsupported_shape() -> ExpansionErrorView {
    ExpansionErrorView::UnsupportedExpansion("closure return invoke parameter shape"@)
}

/// What the parameter at `index` contributes, its argument being
/// `__boltffi_arg{index}` and the statement that leaves on failure
/// `failure`:
/// - a primitive arrives as itself;
/// - any other direct value arrives in its `Passable::In` form and is
///   unpacked;
/// - an encoded value arrives as a pointer and a length, in the slice
///   shape only, and is decoded;
/// - a closure brings what its renderer wrote, its conversions one after
///   another.
pub open spec fn spec_invoke_parameter(
    input: InvokeParameterInput,
    index: usize,
    failure: Seq<char>,
) -> Result<InvokeParameterView, ExpansionErrorView> {
    let argument = indexed("__boltffi_arg"@, index, ""@);
    match input.plan {
        InvokeParameterPlan::Direct(TypeRef::Primitive(primitive)) => Ok(
            InvokeParameterView {
                items: Seq::empty(),
                ffi_parameters: seq![argument + ": "@ + primitive_spelling(primitive)],
                ffi_parameter_types: seq![primitive_spelling(primitive)],
                conversion: Seq::empty(),
                argument,
            },
        ),
        InvokeParameterPlan::Direct(_) => Ok(
            InvokeParameterView {
                items: Seq::empty(),
                ffi_parameters: seq![argument + ": "@ + spec_passable_in(input.rust_type@)],
                ffi_parameter_types: seq![spec_passable_in(input.rust_type@)],
                conversion: "let "@ + argument + ": "@ + input.rust_type@ + " = unsafe { <"@
                    + input.rust_type@ + " as ::boltffi::__private::Passable>::unpack("@ + argument
                    + ") };"@,
                argument,
            },
        ),
        InvokeParameterPlan::Encoded { shape, conversion } => match shape {
            BufferShape::Native(NativeBufferShape::Slice) | BufferShape::Wasm32(
                WasmBufferShape::Slice,
            ) => {
                let pointer = indexed("__boltffi_arg"@, index, "_ptr"@);
                let length = indexed("__boltffi_arg"@, index, "_len"@);
                match spec_owned(
                    InputView { pointer, length, failure },
                    conversion@,
                    input.rust_type@,
                    argument,
                    false,
                ) {
                    Ok(decoded) => Ok(
                        InvokeParameterView {
                            items: Seq::empty(),
                            ffi_parameters: seq![pointer + ": *const u8"@, length + ": usize"@],
                            ffi_parameter_types: seq!["*const u8"@, "usize"@],
                            conversion: decoded,
                            argument,
                        },
                    ),
                    Err(error) => Err(error),
                }
            },
            BufferShape::Native(_) => Err(
                ExpansionErrorView::UnsupportedExpansion(
                    "native closure return invoke encoded parameter shape"@,
                ),
            ),
            BufferShape::Wasm32(_) => Err(
                ExpansionErrorView::UnsupportedExpansion(
                    "wasm closure return invoke encoded parameter shape"@,
                ),
            ),
        },
        InvokeParameterPlan::Closure { tokens, ffi_parameter_types } => Ok(
            InvokeParameterView {
                items: views(tokens.items@),
                ffi_parameters: views(tokens.ffi_parameters@),
                ffi_parameter_types: views(ffi_parameter_types@),
                conversion: statements(views(tokens.conversions@)),
                argument: tokens.argument@,
            },
        ),
        InvokeParameterPlan::Other => Err(unsupported_shape()),
    }
}

/// What the parameters `inputs` contribute together, each at its index:
/// their items, FFI parameters and types one list after another, and one
/// conversion and one argument each, in order; or the first error.
pub open spec fn spec_invoke_parameters(inputs: Seq<InvokeParameterInput>, failure: Seq<char>) -> Result<
    InvokeParameterView,
    ExpansionErrorView,
>
    decreases inputs.len(),
{
    if inputs.len() == 0 {
        Ok(
            InvokeParameterView {
                items: Seq::empty(),
                ffi_parameters: Seq::empty(),
                ffi_parameter_types: Seq::empty(),
                conversion: Seq::empty(),
                argument: Seq::empty(),
            },
        )
    } else {
        match spec_invoke_parameters(inputs.drop_last(), failure) {
            Err(error) => Err(error),
            Ok(before) => match spec_invoke_parameter(
                inputs.last(),
                (inputs.len() - 1) as usize,
                failure,
            ) {
                Err(error) => Err(error),
                Ok(last) => Ok(
                    InvokeParameterView {
                        items: before.items + last.items,
                        ffi_parameters: before.ffi_parameters + last.ffi_parameters,
                        ffi_parameter_types: before.ffi_parameter_types + last.ffi_parameter_types,
                        conversion: Seq::empty(),
                        argument: Seq::empty(),
                    },
                ),
            },
        }
    }
}

/// The conversions of the parameters `inputs`, one each, in order.
pub open spec fn spec_invoke_conversions(inputs: Seq<InvokeParameterInput>, failure: Seq<char>) -> Seq<Seq<char>>
    decreases inputs.len(),
{
    if inputs.len() == 0 {
        Seq::empty()
    } else {
        spec_invoke_conversions(inputs.drop_last(), failure) + match spec_invoke_parameter(
            inputs.last(),
            (inputs.len() - 1) as usize,
            failure,
        ) {
            Ok(last) => seq![last.conversion],
            Err(_) => Seq::empty(),
        }
    }
}

/// The arguments of the parameters `inputs`, one each, in order.
pub open spec fn spec_invoke_arguments(inputs: Seq<InvokeParameterInput>, failure: Seq<char>) -> Seq<Seq<char>>
    decreases inputs.len(),
{
    if inputs.len() == 0 {
        Seq::empty()
    } else {
        spec_invoke_arguments(inputs.drop_last(), failure) + match spec_invoke_parameter(
            inputs.last(),
            (inputs.len() - 1) as usize,
            failure,
        ) {
            Ok(last) => seq![last.argument],
            Err(_) => Seq::empty(),
        }
    }
}

/// The error for a closure whose source and binding disagree on the
/// parameters.
pub open spec fn count_mismatch() -> ExpansionErrorView {
    ExpansionErrorView::SourceSyntaxMismatch(
        "source closure parameter count does not match binding invoke parameter count"@,
    )
}

/// The lists of [`InvokeParameters`] taken by their views.
pub open spec fn parameters_match(
    parameters: InvokeParameters,
    inputs: Seq<InvokeParameterInput>,
    failure: Seq<char>,
) -> bool {
    match spec_invoke_parameters(inputs, failure) {
        Ok(gathered) => views(parameters.items@) == gathered.items && views(parameters.ffi_parameters@)
            == gathered.ffi_parameters && views(parameters.ffi_parameter_types@)
            == gathered.ffi_parameter_types && views(parameters.conversions@)
            == spec_invoke_conversions(inputs, failure) && views(parameters.arguments@)
            == spec_invoke_arguments(inputs, failure),
        Err(_) => false,
    }
}

/// A parameter's tokens, with its conversion as one statement.
struct Written {
    items: Vec<String>,
    ffi_parameters: Vec<String>,
    ffi_parameter_types: Vec<String>,
    conversion: String,
    argument: String,
}

spec fn written_view(written: Written) -> InvokeParameterView {
    InvokeParameterView {
        items: views(written.items@),
        ffi_parameters: views(written.ffi_parameters@),
        ffi_parameter_types: views(written.ffi_parameter_types@),
        conversion: written.conversion@,
        argument: written.argument@,
    }
}

fn copied(items: &Vec<String>) -> (copy: Vec<String>)
    ensures
        copy@ == items@,
{
    let mut copy: Vec<String> = Vec::new();
    let mut i: usize = 0;
    while i < items.len()
        invariant
            i <= items.len(),
            copy@ == items@.take(i as int),
        decreases items.len() - i,
    {
        copy.push(items[i].clone());
        proof {
            assert(items@.take(i + 1) =~= items@.take(i as int).push(items@[i as int]));
        }
        i = i + 1;
    }
    proof {
        assert(items@.take(i as int) =~= items@);
    }
    copy
}

fn one(text: String) -> (list: Vec<String>)
    ensures
        views(list@) == seq![text@],
{
    let mut list: Vec<String> = Vec::new();
    list.push(text);
    proof {
        assert(views(list@) =~= seq![text@]);
    }
    list
}

fn two(first: String, second: String) -> (list: Vec<String>)
    ensures
        views(list@) == seq![first@, second@],
{
    let mut list: Vec<String> = Vec::new();
    list.push(first);
    list.push(second);
    proof {
        assert(views(list@) =~= seq![first@, second@]);
    }
    list
}

fn invoke_parameter(input: &InvokeParameterInput, index: usize, failure: &str) -> (result: Result<Written, ExpansionError>)
    ensures
        match spec_invoke_parameter(*input, index, failure@) {
            Ok(expected) => result matches Ok(written) && written_view(written) == expected,
            Err(error) => result matches Err(e) && e@ == error,
        },
{
    proof {
        reveal_strlit("");
        assert(""@ =~= Seq::<char>::empty());
        assert(views(Seq::<String>::empty()) =~= Seq::<Seq<char>>::empty());
    }
    let names = ClosureArgument::new(index);
    let argument = names.value();
    let rust_type = input.rust_type.as_str();
    match &input.plan {
        InvokeParameterPlan::Direct(TypeRef::Primitive(primitive)) => {
            let ty = primitive_name(*primitive);
            let mut parameter = argument.clone();
            parameter.append(": ");
            parameter.append(ty);
            Ok(
                Written {
                    items: Vec::new(),
                    ffi_parameters: one(parameter),
                    ffi_parameter_types: one(ty.to_owned()),
                    conversion: String::new(),
                    argument,
                },
            )
        },
        InvokeParameterPlan::Direct(_) => {
            let mut passable = "<".to_owned();
            passable.append(rust_type);
            passable.append(" as ::boltffi::__private::Passable>::In");
            let mut parameter = argument.clone();
            parameter.append(": ");
            parameter.append(passable.as_str());
            let mut conversion = "let ".to_owned();
            conversion.append(argument.as_str());
            conversion.append(": ");
            conversion.append(rust_type);
            conversion.append(" = unsafe { <");
            conversion.append(rust_type);
            conversion.append(" as ::boltffi::__private::Passable>::unpack(");
            conversion.append(argument.as_str());
            conversion.append(") };");
            Ok(
                Written {
                    items: Vec::new(),
                    ffi_parameters: one(parameter),
                    ffi_parameter_types: one(passable),
                    conversion,
                    argument,
                },
            )
        },
        InvokeParameterPlan::Encoded { shape, conversion } => {
            match shape {
                BufferShape::Native(NativeBufferShape::Slice) | BufferShape::Wasm32(
                    WasmBufferShape::Slice,
                ) => {},
                BufferShape::Native(_) => {
                    return Err(
                        ExpansionError::UnsupportedExpansion(
                            "native closure return invoke encoded parameter shape",
                        ),
                    );
                },
                BufferShape::Wasm32(_) => {
                    return Err(
                        ExpansionError::UnsupportedExpansion(
                            "wasm closure return invoke encoded parameter shape",
                        ),
                    );
                },
            }
            let pointer = names.pointer();
            let length = names.length();
            let mut pointer_parameter = pointer.clone();
            pointer_parameter.append(": *const u8");
            let mut length_parameter = length.clone();
            length_parameter.append(": usize");
            let decode = incoming::Input { pointer, length, failure: failure.to_owned() };
            let decoded = match decode.owned(conversion, rust_type, argument.as_str(), false) {
                Ok(decoded) => decoded,
                Err(error) => return Err(error),
            };
            Ok(
                Written {
                    items: Vec::new(),
                    ffi_parameters: two(pointer_parameter, length_parameter),
                    ffi_parameter_types: two("*const u8".to_owned(), "usize".to_owned()),
                    conversion: decoded,
                    argument,
                },
            )
        },
        InvokeParameterPlan::Closure { tokens, ffi_parameter_types } => Ok(
            Written {
                items: copied(&tokens.items),
                ffi_parameters: copied(&tokens.ffi_parameters),
                ffi_parameter_types: copied(ffi_parameter_types),
                conversion: write_statements(&tokens.conversions),
                argument: tokens.argument.clone(),
            },
        ),
        InvokeParameterPlan::Other => Err(
            ExpansionError::UnsupportedExpansion("closure return invoke parameter shape"),
        ),
    }
}

fn append_all(out: &mut Vec<String>, more: &Vec<String>)
    ensures
        final(out)@ == old(out)@ + more@,
{
    let ghost start = out@;
    let mut i: usize = 0;
    while i < more.len()
        invariant
            i <= more.len(),
            out@ == start + more@.take(i as int),
        decreases more.len() - i,
    {
        out.push(more[i].clone());
        proof {
            assert(more@.take(i + 1) =~= more@.take(i as int).push(more@[i as int]));
        }
        i = i + 1;
    }
    proof {
        assert(more@.take(more.len() as int) =~= more@);
    }
}

proof fn lemma_views_concat(a: Seq<String>, b: Seq<String>)
    ensures
        views(a + b) == views(a) + views(b),
{
    assert(views(a + b) =~= views(a) + views(b));
}

proof fn lemma_invoke_error_sticks(inputs: Seq<InvokeParameterInput>, failure: Seq<char>, n: int)
    requires
        0 <= n <= inputs.len(),
        spec_invoke_parameters(inputs.take(n), failure) is Err,
    ensures
        spec_invoke_parameters(inputs, failure) == spec_invoke_parameters(inputs.take(n), failure),
    decreases inputs.len() - n,
{
    if n < inputs.len() {
        assert(inputs.take(n + 1).drop_last() =~= inputs.take(n));
        lemma_invoke_error_sticks(inputs, failure, n + 1);
    } else {
        assert(inputs.take(n) =~= inputs);
    }
}

/// The invoke parameters of a returned closure: the binding and the source
/// must declare as many parameters, and each must have been given once;
/// then each is rendered at its index; see [`spec_invoke_parameter`].
pub fn invoke_parameters(
    binding_parameters: usize,
    source_parameters: usize,
    inputs: &Vec<InvokeParameterInput>,
    failure: &str,
) -> (result: Result<InvokeParameters, ExpansionError>)
    ensures
        binding_parameters != source_parameters || inputs@.len() != binding_parameters ==> (result matches Err(
            error,
        ) && error@ == count_mismatch()),
        binding_parameters == source_parameters && inputs@.len() == binding_parameters ==> match spec_invoke_parameters(
            inputs@,
            failure@,
        ) {
            Ok(_) => result matches Ok(parameters) && parameters_match(parameters, inputs@, failure@),
            Err(error) => result matches Err(e) && e@ == error,
        },
{
    if binding_parameters != source_parameters || inputs.len() != binding_parameters {
        return Err(
            ExpansionError::SourceSyntaxMismatch(
                "source closure parameter count does not match binding invoke parameter count",
            ),
        );
    }
    let mut items: Vec<String> = Vec::new();
    let mut ffi_parameters: Vec<String> = Vec::new();
    let mut ffi_parameter_types: Vec<String> = Vec::new();
    let mut conversions: Vec<String> = Vec::new();
    let mut arguments: Vec<String> = Vec::new();
    let mut i: usize = 0;
    while i < inputs.len()
        invariant
            i <= inputs.len(),
            binding_parameters == source_parameters,
            inputs@.len() == binding_parameters,
            match spec_invoke_parameters(inputs@.take(i as int), failure@) {
                Ok(gathered) => views(items@) == gathered.items && views(ffi_parameters@)
                    == gathered.ffi_parameters && views(ffi_parameter_types@)
                    == gathered.ffi_parameter_types,
                Err(_) => false,
            },
            views(conversions@) == spec_invoke_conversions(inputs@.take(i as int), failure@),
            views(arguments@) == spec_invoke_arguments(inputs@.take(i as int), failure@),
        decreases inputs.len() - i,
    {
        proof {
            assert(inputs@.take(i + 1).drop_last() =~= inputs@.take(i as int));
            assert(inputs@.take(i + 1).last() == inputs@[i as int]);
            assert(inputs@.take(i + 1).len() == i + 1);
        }
        let written = match invoke_parameter(&inputs[i], i, failure) {
            Ok(written) => written,
            Err(error) => {
                proof {
                    lemma_invoke_error_sticks(inputs@, failure@, i + 1);
                }
                return Err(error);
            },
        };
        let ghost old_items = items@;
        let ghost old_ffi = ffi_parameters@;
        let ghost old_types = ffi_parameter_types@;
        let ghost old_conversions = conversions@;
        let ghost old_arguments = arguments@;
        append_all(&mut items, &written.items);
        append_all(&mut ffi_parameters, &written.ffi_parameters);
        append_all(&mut ffi_parameter_types, &written.ffi_parameter_types);
        conversions.push(written.conversion);
        arguments.push(written.argument);
        proof {
            lemma_views_concat(old_items, written.items@);
            lemma_views_concat(old_ffi, written.ffi_parameters@);
            lemma_views_concat(old_types, written.ffi_parameter_types@);
            lemma_views_concat(old_conversions, seq![written.conversion]);
            lemma_views_concat(old_arguments, seq![written.argument]);
            assert(old_conversions.push(written.conversion) =~= old_conversions + seq![written.conversion]);
            assert(old_arguments.push(written.argument) =~= old_arguments + seq![written.argument]);
            assert(views(seq![written.conversion]) =~= seq![written.conversion@]);
            assert(views(seq![written.argument]) =~= seq![written.argument@]);
        }
        i = i + 1;
    }
    proof {
        assert(inputs@.take(inputs.len() as int) =~= inputs@);
    }
    Ok(InvokeParameters { items, ffi_parameters, ffi_parameter_types, conversions, arguments })
}

/// Once every parameter of a returned closure renders, its invoke
/// function calls the closure with exactly one argument per parameter,
/// each converted by exactly one statement.
pub proof fn lemma_one_argument_per_invoke_parameter(inputs: Seq<InvokeParameterInput>, failure: Seq<char>)
    requires
        spec_invoke_parameters(inputs, failure) is Ok,
    ensures
        spec_invoke_arguments(inputs, failure).len() == inputs.len(),
        spec_invoke_conversions(inputs, failure).len() == inputs.len(),
    decreases inputs.len(),
{
    if inputs.len() > 0 {
        lemma_one_argument_per_invoke_parameter(inputs.drop_last(), failure);
    }
}

} // verus!
