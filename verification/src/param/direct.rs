//! Parameters passed directly: primitives by value, records by their
//! layout, and the other passable types through their `Passable` form.
use vstd::prelude::*;

use crate::ast::Primitive;
use crate::expansion::{ExpansionError, ExpansionErrorView, Target};
use crate::param::{IncomingParam, ParamPlan, Receive, spec_requires_failure_return};
use crate::type_ref::{self, TypeRef, primitive_spelling};
use crate::arguments::ParamTokens;
use crate::names::{Parameter, derived};

verus! {

/// How the argument is handed to the Rust function: `x`, `&x` or `&mut x`.
#[derive(Clone, Copy, Debug, Eq, PartialEq, Structural)]
pub enum Argument {
    Value,
    Ref,
    MutRef,
}

/// The type of the foreign parameter.
pub enum FfiType {
    /// A Rust type, spelled out.
    Rust(String),
    /// The `Passable::In` form of the Rust type.
    Passable,
    /// A `*const u8` to a record's bytes.
    ConstBytes,
    /// A `*mut u8` to a record's bytes, written back after the call.
    MutBytes,
}

/// The statement that turns the foreign parameter into the Rust value.
#[derive(Clone, Copy, Debug, Eq, PartialEq, Structural)]
pub enum Conversion {
    /// Rebinds the parameter as mutable.
    Rebind,
    /// Unpacks the `Passable::In` form, into a mutable binding or not.
    Unpack { mutable: bool },
    /// Checks the record pointer for null, failing the call if it is, and
    /// reads the record; through the write-back pointer when `through_out`.
    ReadRecord { through_out: bool },
}

/// How one direct parameter is rendered.
pub struct Plan {
    pub ffi_type: FfiType,
    pub conversion: Option<Conversion>,
    /// Whether the record is written back through its pointer after the call.
    pub writes_back: bool,
    pub argument: Argument,
}

/// A direct parameter: its lowered type, how it is received, and the
/// platform.
pub struct Input {
    pub ty: TypeRef,
    pub receive: Receive,
    pub target: Target,
}

/// A record parameter: how it is received, and the platform.
pub struct RecordInput {
    pub receive: Receive,
    pub target: Target,
}

/// The argument form of a receive mode.
pub open spec fn argument_of(receive: Receive) -> Result<Argument, ExpansionErrorView> {
    match receive {
        Receive::ByValue => Ok(Argument::Value),
        Receive::ByRef => Ok(Argument::Ref),
        Receive::ByMutRef => Ok(Argument::MutRef),
        Receive::Other => Err(
            ExpansionErrorView::UnsupportedExpansion("unknown direct parameter receive mode"@),
        ),
    }
}

/// The error for a record received in an unknown mode.
pub open spec fn unknown_record_receive() -> ExpansionErrorView {
    ExpansionErrorView::UnsupportedExpansion("unknown direct record receive mode"@)
}

/// Whether `result` renders a primitive parameter.
pub open spec fn primitive_plan(primitive: Primitive, receive: Receive, result: Result<Plan, ExpansionError>) -> bool {
    match argument_of(receive) {
        Ok(argument) => result matches Ok(plan) && plan.ffi_type matches FfiType::Rust(name)
            && name@ == primitive_spelling(primitive) && plan.conversion == (if receive
            == Receive::ByMutRef {
            Some(Conversion::Rebind)
        } else {
            None
        }) && !plan.writes_back && plan.argument == argument,
        Err(error) => result matches Err(e) && e@ == error,
    }
}

/// Whether `result` renders a parameter through its `Passable` form.
pub open spec fn passable_plan(receive: Receive, result: Result<Plan, ExpansionError>) -> bool {
    match argument_of(receive) {
        Ok(argument) => result matches Ok(plan) && plan.ffi_type is Passable && plan.conversion
            == Some(Conversion::Unpack { mutable: receive == Receive::ByMutRef })
            && !plan.writes_back && plan.argument == argument,
        Err(error) => result matches Err(e) && e@ == error,
    }
}

/// Whether `result` renders a record passed by pointer on WebAssembly.
pub open spec fn wasm_record_plan(receive: Receive, result: Result<Plan, ExpansionError>) -> bool {
    match argument_of(receive) {
        Ok(argument) => result matches Ok(plan) && (if receive == Receive::ByMutRef {
            plan.ffi_type is MutBytes
        } else {
            plan.ffi_type is ConstBytes
        }) && plan.conversion == Some(
            Conversion::ReadRecord { through_out: receive == Receive::ByMutRef },
        ) && plan.writes_back == (receive == Receive::ByMutRef) && plan.argument == argument,
        Err(_) => result matches Err(e) && e@ == unknown_record_receive(),
    }
}

/// Whether `result` renders a record parameter on `target`.
pub open spec fn record_plan(input: RecordInput, result: Result<Plan, ExpansionError>) -> bool {
    match input.target {
        Target::Native => passable_plan(input.receive, result),
        Target::Wasm32 => wasm_record_plan(input.receive, result),
    }
}

/// Whether `result` renders the direct parameter `input`.
pub open spec fn direct_plan(input: Input, result: Result<Plan, ExpansionError>) -> bool {
    match input.ty {
        TypeRef::Primitive(primitive) => primitive_plan(primitive, input.receive, result),
        TypeRef::Record(_) => record_plan(
            RecordInput { receive: input.receive, target: input.target },
            result,
        ),
        _ => passable_plan(input.receive, result),
    }
}

/// A direct parameter needs a failure return exactly when its rendering
/// reads a record through a pointer, the one read that can fail.
pub proof fn lemma_failure_return_iff_pointer_read(
    input: Input,
    result: Result<Plan, ExpansionError>,
)
    requires
        input.receive != Receive::Other,
        direct_plan(input, result),
    ensures
        result matches Ok(plan) && (spec_requires_failure_return(
            IncomingParam::Value(ParamPlan::Direct { ty: input.ty, receive: input.receive }),
            input.target,
        ) <==> plan.conversion matches Some(Conversion::ReadRecord { .. })),
{
}

/// Renders direct parameters.
pub struct Renderer;

/// Renders record parameters.
pub struct Record;

impl Renderer {
    /// The argument form of a receive mode.
    pub fn argument(receive: Receive) -> (argument: Result<Argument, ExpansionError>)
        ensures
            match argument {
                Ok(argument) => argument_of(receive) == Ok::<Argument, ExpansionErrorView>(
                    argument,
                ),
                Err(error) => argument_of(receive) == Err::<Argument, ExpansionErrorView>(
                    error@,
                ),
            },
    {
        match receive {
            Receive::ByValue => Ok(Argument::Value),
            Receive::ByRef => Ok(Argument::Ref),
            Receive::ByMutRef => Ok(Argument::MutRef),
            Receive::Other => Err(
                ExpansionError::UnsupportedExpansion("unknown direct parameter receive mode"),
            ),
        }
    }

    /// Primitives pass as themselves, records by their layout, and every
    /// other type through its `Passable` form.
    pub fn render(self, input: Input) -> (result: Result<Plan, ExpansionError>)
        ensures
            direct_plan(input, result),
    {
        match input.ty {
            TypeRef::Primitive(primitive) => primitive_param(primitive, input.receive),
            TypeRef::Record(_) => Record.render(RecordInput { receive: input.receive, target: input.target }),
            _ => passable_param(input.receive),
        }
    }
}

impl Record {
    /// A record passes through its `Passable` form on native targets and
    /// by a pointer to its bytes on WebAssembly.
    pub fn render(self, input: RecordInput) -> (result: Result<Plan, ExpansionError>)
        ensures
            record_plan(input, result),
    {
        match input.target {
            Target::Native => passable_param(input.receive),
            Target::Wasm32 => wasm_record_param(input.receive),
        }
    }
}

fn primitive_param(primitive: Primitive, receive: Receive) -> (result: Result<Plan, ExpansionError>)
    ensures
        primitive_plan(primitive, receive, result),
{
    let ffi_type = match type_ref::Renderer.render(&TypeRef::Primitive(primitive)) {
        Ok(name) => name,
        Err(error) => return Err(error),
    };
    let conversion = match receive {
        Receive::ByMutRef => Some(Conversion::Rebind),
        _ => None,
    };
    let argument = match Renderer::argument(receive) {
        Ok(argument) => argument,
        Err(error) => return Err(error),
    };
    Ok(Plan { ffi_type: FfiType::Rust(ffi_type), conversion, writes_back: false, argument })
}

fn passable_param(receive: Receive) -> (result: Result<Plan, ExpansionError>)
    ensures
        passable_plan(receive, result),
{
    let conversion = match receive {
        Receive::ByMutRef => Conversion::Unpack { mutable: true },
        _ => Conversion::Unpack { mutable: false },
    };
    let argument = match Renderer::argument(receive) {
        Ok(argument) => argument,
        Err(error) => return Err(error),
    };
    Ok(Plan { ffi_type: FfiType::Passable, conversion: Some(conversion), writes_back: false, argument })
}

fn wasm_record_param(receive: Receive) -> (result: Result<Plan, ExpansionError>)
    ensures
        wasm_record_plan(receive, result),
{
    let (ffi_type, conversion, writes_back) = match receive {
        Receive::ByMutRef => (FfiType::MutBytes, Conversion::ReadRecord { through_out: true }, true),
        Receive::ByValue | Receive::ByRef => (
            FfiType::ConstBytes,
            Conversion::ReadRecord { through_out: false },
            false,
        ),
        Receive::Other => return Err(
            ExpansionError::UnsupportedExpansion("unknown direct record receive mode"),
        ),
    };
    let argument = match Renderer::argument(receive) {
        Ok(argument) => argument,
        Err(error) => return Err(error),
    };
    Ok(Plan { ffi_type, conversion: Some(conversion), writes_back, argument })
}

/// `<rust_type as Passable>::In`, the form a passable value crosses in.
pub open spec fn spec_passable_in(rust_type: Seq<char>) -> Seq<char> {
    "<"@ + rust_type + " as ::boltffi::__private::Passable>::In"@
}

/// The foreign parameter's type as text.
pub open spec fn spec_ffi_type(ffi_type: FfiType, rust_type: Seq<char>) -> Seq<char> {
    match ffi_type {
        FfiType::Rust(name) => name@,
        FfiType::Passable => spec_passable_in(rust_type),
        FfiType::ConstBytes => "*const u8"@,
        FfiType::MutBytes => "*mut u8"@,
    }
}

/// The read of a record from the pointer `pointer` into `ident`, after the
/// null check that leaves with `failure`.
pub open spec fn spec_record_read(
    ident: Seq<char>,
    pointer: Seq<char>,
    rust_type: Seq<char>,
    failure: Seq<char>,
    mutable: bool,
) -> Seq<char> {
    "if "@ + pointer
        + ".is_null() { ::boltffi::__private::set_last_error(format!(\"{}: null direct record pointer\", stringify!("@
        + ident + "))); "@ + failure + " } let "@ + (if mutable {
        "mut "@
    } else {
        Seq::empty()
    }) + ident + ": "@ + rust_type
        + " = unsafe { let __boltffi_value = ::core::ptr::read_unaligned("@ + pointer
        + " as *const "@ + spec_passable_in(rust_type) + "); <"@ + rust_type
        + " as ::boltffi::__private::Passable>::unpack(__boltffi_value) };"@
}

/// The statement a conversion writes for the parameter `ident`; a record
/// read through its write-back pointer first moves the pointer there.
pub open spec fn spec_conversion(
    conversion: Conversion,
    ident: Seq<char>,
    rust_type: Seq<char>,
    failure: Seq<char>,
) -> Seq<char> {
    match conversion {
        Conversion::Rebind => "let mut "@ + ident + " = "@ + ident + ";"@,
        Conversion::Unpack { mutable } => "let "@ + (if mutable {
            "mut "@
        } else {
            Seq::empty()
        }) + ident + ": "@ + rust_type + " = unsafe { <"@ + rust_type
            + " as ::boltffi::__private::Passable>::unpack("@ + ident + ") };"@,
        Conversion::ReadRecord { through_out } => if through_out {
            "let "@ + derived(ident, "_out"@) + " = "@ + ident + "; "@ + spec_record_read(
                ident,
                derived(ident, "_out"@),
                rust_type,
                failure,
                true,
            )
        } else {
            spec_record_read(ident, ident, rust_type, failure, false)
        },
    }
}

/// The write of a mutable record back through its pointer.
pub open spec fn spec_record_writeback(ident: Seq<char>, rust_type: Seq<char>) -> Seq<char> {
    "unsafe { ::core::ptr::write_unaligned("@ + derived(ident, "_out"@) + " as *mut "@
        + spec_passable_in(rust_type) + ", ::boltffi::__private::Passable::pack("@ + ident
        + ")); }"@
}

/// The argument handed to the Rust function.
pub open spec fn spec_argument(argument: Argument, ident: Seq<char>) -> Seq<char> {
    match argument {
        Argument::Value => ident,
        Argument::Ref => "&"@ + ident,
        Argument::MutRef => "&mut "@ + ident,
    }
}

/// The foreign parameter `plan` declares for `ident`.
pub open spec fn spec_plan_ffi_parameters(plan: Plan, ident: Seq<char>, rust_type: Seq<char>) -> Seq<Seq<char>> {
    seq![ident + ": "@ + spec_ffi_type(plan.ffi_type, rust_type)]
}

/// The plan's conversion, if it has one.
pub open spec fn spec_plan_conversions(
    plan: Plan,
    ident: Seq<char>,
    rust_type: Seq<char>,
    failure: Seq<char>,
) -> Seq<Seq<char>> {
    match plan.conversion {
        Some(conversion) => seq![spec_conversion(conversion, ident, rust_type, failure)],
        None => Seq::empty(),
    }
}

/// The plan's write-back, if it has one.
pub open spec fn spec_plan_writebacks(plan: Plan, ident: Seq<char>, rust_type: Seq<char>) -> Seq<Seq<char>> {
    if plan.writes_back {
        seq![spec_record_writeback(ident, rust_type)]
    } else {
        Seq::empty()
    }
}

/// Whether `tokens` are what `plan` writes for the parameter `ident` of
/// Rust type `rust_type`, leaving with `failure` when its pointer is null:
/// one foreign parameter, the plan's conversion if any, the write-back if
/// the plan has one, the argument, and no helper items.
pub open spec fn plan_tokens(
    plan: Plan,
    ident: Seq<char>,
    rust_type: Seq<char>,
    failure: Seq<char>,
    tokens: ParamTokens,
) -> bool {
    &&& tokens.items@.len() == 0
    &&& crate::text::views(tokens.ffi_parameters@) == spec_plan_ffi_parameters(plan, ident, rust_type)
    &&& crate::text::views(tokens.conversions@) == spec_plan_conversions(plan, ident, rust_type, failure)
    &&& crate::text::views(tokens.writebacks@) == spec_plan_writebacks(plan, ident, rust_type)
    &&& tokens.argument@ == spec_argument(plan.argument, ident)
}

fn passable_in(rust_type: &str) -> (text: String)
    ensures
        text@ == spec_passable_in(rust_type@),
{
    let mut text = "<".to_owned();
    text.append(rust_type);
    text.append(" as ::boltffi::__private::Passable>::In");
    text
}

fn ffi_type_text(ffi_type: &FfiType, rust_type: &str) -> (text: String)
    ensures
        text@ == spec_ffi_type(*ffi_type, rust_type@),
{
    match ffi_type {
        FfiType::Rust(name) => name.clone(),
        FfiType::Passable => {
            let mut text = "<".to_owned();
            text.append(rust_type);
            text.append(" as ::boltffi::__private::Passable>::In");
            text
        },
        FfiType::ConstBytes => "*const u8".to_owned(),
        FfiType::MutBytes => "*mut u8".to_owned(),
    }
}

fn record_read(ident: &str, pointer: &str, rust_type: &str, failure: &str, mutable: bool) -> (text: String)
    ensures
        text@ == spec_record_read(ident@, pointer@, rust_type@, failure@, mutable),
{
    let mut text = "if ".to_owned();
    text.append(pointer);
    text.append(".is_null() { ::boltffi::__private::set_last_error(format!(\"{}: null direct record pointer\", stringify!(");
    text.append(ident);
    text.append("))); ");
    text.append(failure);
    text.append(" } let ");
    if mutable {
        text.append("mut ");
    }
    text.append(ident);
    text.append(": ");
    text.append(rust_type);
    text.append(" = unsafe { let __boltffi_value = ::core::ptr::read_unaligned(");
    text.append(pointer);
    text.append(" as *const ");
    let passable = passable_in(rust_type);
    text.append(passable.as_str());
    text.append("); <");
    text.append(rust_type);
    text.append(" as ::boltffi::__private::Passable>::unpack(__boltffi_value) };");
    proof {
        reveal_strlit("");
        assert(""@ =~= Seq::<char>::empty());
    }
    text
}

fn conversion_text(conversion: Conversion, ident: &str, rust_type: &str, failure: &str) -> (text: String)
    ensures
        text@ == spec_conversion(conversion, ident@, rust_type@, failure@),
{
    match conversion {
        Conversion::Rebind => {
            let mut text = "let mut ".to_owned();
            text.append(ident);
            text.append(" = ");
            text.append(ident);
            text.append(";");
            text
        },
        Conversion::Unpack { mutable } => {
            let mut text = "let ".to_owned();
            if mutable {
                text.append("mut ");
            }
            text.append(ident);
            text.append(": ");
            text.append(rust_type);
            text.append(" = unsafe { <");
            text.append(rust_type);
            text.append(" as ::boltffi::__private::Passable>::unpack(");
            text.append(ident);
            text.append(") };");
            proof {
                reveal_strlit("");
                assert(""@ =~= Seq::<char>::empty());
            }
            text
        },
        Conversion::ReadRecord { through_out } => {
            if through_out {
                let out = Parameter::new(ident).writeback();
                let mut text = "let ".to_owned();
                text.append(out.as_str());
                text.append(" = ");
                text.append(ident);
                text.append("; ");
                let read = record_read(ident, out.as_str(), rust_type, failure, true);
                text.append(read.as_str());
                text
            } else {
                record_read(ident, ident, rust_type, failure, false)
            }
        },
    }
}

fn record_writeback(ident: &str, rust_type: &str) -> (text: String)
    ensures
        text@ == spec_record_writeback(ident@, rust_type@),
{
    let out = Parameter::new(ident).writeback();
    let mut text = "unsafe { ::core::ptr::write_unaligned(".to_owned();
    text.append(out.as_str());
    text.append(" as *mut ");
    let passable = passable_in(rust_type);
    text.append(passable.as_str());
    text.append(", ::boltffi::__private::Passable::pack(");
    text.append(ident);
    text.append(")); }");
    text
}

impl Plan {
    /// Writes the parameter `ident` of Rust type `rust_type` as this plan
    /// says, leaving with `failure` where a record pointer is null; see
    /// [`plan_tokens`].
    pub fn tokens(&self, ident: &str, rust_type: &str, failure: &str) -> (tokens: ParamTokens)
        ensures
            plan_tokens(*self, ident@, rust_type@, failure@, tokens),
    {
        let mut parameter = ident.to_owned();
        parameter.append(": ");
        let ffi_type = ffi_type_text(&self.ffi_type, rust_type);
        parameter.append(ffi_type.as_str());
        let mut ffi_parameters: Vec<String> = Vec::new();
        ffi_parameters.push(parameter);
        let mut conversions: Vec<String> = Vec::new();
        match self.conversion {
            Some(conversion) => conversions.push(conversion_text(conversion, ident, rust_type, failure)),
            None => {},
        }
        let mut writebacks: Vec<String> = Vec::new();
        if self.writes_back {
            writebacks.push(record_writeback(ident, rust_type));
        }
        let argument = match self.argument {
            Argument::Value => ident.to_owned(),
            Argument::Ref => {
                let mut text = "&".to_owned();
                text.append(ident);
                text
            },
            Argument::MutRef => {
                let mut text = "&mut ".to_owned();
                text.append(ident);
                text
            },
        };
        let tokens = ParamTokens { items: Vec::new(), ffi_parameters, conversions, writebacks, argument };
        proof {
            assert(crate::text::views(tokens.ffi_parameters@) =~= seq![
                ident@ + ": "@ + spec_ffi_type(self.ffi_type, rust_type@),
            ]);
            assert(crate::text::views(tokens.conversions@) =~= match self.conversion {
                Some(conversion) => seq![spec_conversion(conversion, ident@, rust_type@, failure@)],
                None => Seq::empty(),
            });
            assert(crate::text::views(tokens.writebacks@) =~= if self.writes_back {
                seq![spec_record_writeback(ident@, rust_type@)]
            } else {
                Seq::empty()
            });
        }
        tokens
    }
}

impl Renderer {
    /// Renders the direct parameter `input`, named `ident` and of Rust
    /// type `rust_type`, into its tokens: the plan [`Renderer::render`]
    /// chooses, written by [`Plan::tokens`].
    pub fn tokens(self, input: Input, ident: &str, rust_type: &str, failure: &str) -> (result: Result<ParamTokens, ExpansionError>)
        ensures
            match result {
                Ok(tokens) => exists|plan: Plan|
                    #[trigger] direct_plan(input, Ok(plan)) && plan_tokens(
                        plan,
                        ident@,
                        rust_type@,
                        failure@,
                        tokens,
                    ),
                Err(error) => direct_plan(input, Err(error)),
            },
    {
        match Renderer.render(input) {
            Ok(plan) => {
                let tokens = plan.tokens(ident, rust_type, failure);
                proof {
                    assert(direct_plan(input, Ok(plan)));
                }
                Ok(tokens)
            },
            Err(error) => Err(error),
        }
    }
}

} // verus!
