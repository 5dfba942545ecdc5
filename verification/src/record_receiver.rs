//! The receiver of a record's exported method: whether it has one, how the
//! wrapper reads it, and the Rust call it makes.
use vstd::prelude::*;

use crate::expansion::{ExpansionError, ExpansionErrorView, Target};
use crate::export::{ReceiverTokens, RustCall, RustCallTarget};
use crate::incoming::{self, Conversion, spec_owned};
use crate::names::{Parameter, derived};
use crate::param::direct::{
    Plan, Record, RecordInput, record_plan, spec_plan_conversions, spec_plan_ffi_parameters,
    spec_plan_writebacks,
};
use crate::text::views;
use crate::param::{Receive, records_by_pointer};
use crate::source_names::{parses_as_type, record_type};

verus! {

/// How a record's method receives the record.
#[derive(Clone, Copy, Debug, Eq, PartialEq, Structural)]
pub enum ReceiverKind {
    /// An initializer: there is no record yet.
    NoReceiver,
    /// The record crosses in its own layout.
    Direct,
    /// The record crosses encoded.
    Encoded,
}

/// How the wrapper reads the receiver.
pub enum ReceiverPlan {
    /// No receiver: the method is called as an associated function.
    Absent,
    /// Read as a direct record parameter with this plan.
    Direct(Plan),
    /// Decoded from its buffer and received this way.
    Encoded(Receive),
}

/// A rendered receiver: how it is read, the call the wrapper makes, and
/// whether reading it can fail so that the wrapper needs a failure return.
pub struct RenderedReceiver {
    pub plan: ReceiverPlan,
    pub call: RustCall,
    pub requires_failure_return: bool,
}

/// Whether `call` calls `method` of the type `record`.
pub open spec fn calls_associated(call: RustCall, record: Seq<char>, method: Seq<char>) -> bool {
    &&& call.owner@ == method
    &&& call.target matches RustCallTarget::Associated { owner, method: m } && owner@ == record
        && m@ == method
}

/// Whether `call` calls `method` on the local `receiver`.
pub open spec fn calls_method(call: RustCall, receiver: Seq<char>, method: Seq<char>) -> bool {
    &&& call.owner@ == method
    &&& call.target matches RustCallTarget::Method { receiver: r, method: m } && r@ == receiver
        && m@ == method
}

/// Whether `result` renders the receiver of `method` of the record type
/// `record` on `target`, the receiver local being `receiver`:
/// - without a receive mode the method is called on the type, and an
///   initializer may have none;
/// - a direct record is read by the record parameter plan, which cannot
///   write a mutable receiver back on native targets, and needs the
///   record's name to be a type;
/// - an encoded record is decoded, which cannot give a mutable receiver
///   and can always fail.
pub open spec fn rendered_receiver(
    kind: ReceiverKind,
    receive: Option<Receive>,
    target: Target,
    record: Seq<char>,
    receiver: Seq<char>,
    method: Seq<char>,
    result: Result<RenderedReceiver, ExpansionError>,
) -> bool {
    match (kind, receive) {
        (ReceiverKind::NoReceiver, Some(_)) => result matches Err(e) && e@
            == ExpansionErrorView::SourceSyntaxMismatch(
            "initializer binding unexpectedly has a receiver"@,
        ),
        (_, None) => result matches Ok(r) && r.plan is Absent && !r.requires_failure_return
            && calls_associated(r.call, record, method),
        (ReceiverKind::Direct, Some(mode)) => if mode == Receive::ByMutRef && target
            == Target::Native {
            result matches Err(e) && e@ == ExpansionErrorView::UnsupportedExpansion(
                "mutable direct record receiver without writeback"@,
            )
        } else if !parses_as_type(record) {
            result matches Err(e) && e@ == ExpansionErrorView::SourceSyntaxMismatch(
                "source record name is not a Rust type"@,
            )
        } else {
            let input = RecordInput { receive: mode, target };
            match result {
                Ok(r) => r.plan matches ReceiverPlan::Direct(plan) && record_plan(input, Ok(plan))
                    && r.requires_failure_return == records_by_pointer(target) && calls_method(
                    r.call,
                    receiver,
                    method,
                ),
                Err(e) => record_plan(input, Err(e)),
            }
        },
        (ReceiverKind::Encoded, Some(mode)) => if mode == Receive::ByMutRef {
            result matches Err(e) && e@ == ExpansionErrorView::UnsupportedExpansion(
                "mutable encoded record receiver without writeback"@,
            )
        } else {
            result matches Ok(r) && r.plan == ReceiverPlan::Encoded(mode) && r.requires_failure_return
                && calls_method(r.call, receiver, method)
        },
    }
}

impl ReceiverKind {
    /// Renders the receiver of `method` of the record type `record`. The
    /// failure return that a fallible read needs is rendered with the
    /// wrapper, from `requires_failure_return`.
    pub fn render(
        self,
        receive: Option<Receive>,
        target: Target,
        record: &str,
        receiver: &str,
        method: &str,
    ) -> (result: Result<RenderedReceiver, ExpansionError>)
        ensures
            rendered_receiver(self, receive, target, record@, receiver@, method@, result),
    {
        match (self, receive) {
            (ReceiverKind::NoReceiver, Some(_)) => Err(
                ExpansionError::SourceSyntaxMismatch(
                    "initializer binding unexpectedly has a receiver",
                ),
            ),
            (_, None) => Ok(
                RenderedReceiver {
                    plan: ReceiverPlan::Absent,
                    call: RustCall::associated(record.to_owned(), method.to_owned()),
                    requires_failure_return: false,
                },
            ),
            (ReceiverKind::Direct, Some(mode)) => {
                if matches!(mode, Receive::ByMutRef) && matches!(target, Target::Native) {
                    return Err(
                        ExpansionError::UnsupportedExpansion(
                            "mutable direct record receiver without writeback",
                        ),
                    );
                }
                if let Err(error) = record_type(record) {
                    return Err(error);
                }
                let plan = match Record.render(RecordInput { receive: mode, target }) {
                    Ok(plan) => plan,
                    Err(error) => return Err(error),
                };
                Ok(
                    RenderedReceiver {
                        plan: ReceiverPlan::Direct(plan),
                        call: RustCall::method(receiver.to_owned(), method.to_owned()),
                        requires_failure_return: matches!(target, Target::Wasm32),
                    },
                )
            },
            (ReceiverKind::Encoded, Some(mode)) => {
                if matches!(mode, Receive::ByMutRef) {
                    return Err(
                        ExpansionError::UnsupportedExpansion(
                            "mutable encoded record receiver without writeback",
                        ),
                    );
                }
                Ok(
                    RenderedReceiver {
                        plan: ReceiverPlan::Encoded(mode),
                        call: RustCall::method(receiver.to_owned(), method.to_owned()),
                        requires_failure_return: true,
                    },
                )
            },
        }
    }
}

/// The statement that decodes an encoded receiver into the local
/// `receiver`, from the pointer and length named after it.
pub open spec fn decodes_receiver(conversion: Seq<char>, record: Seq<char>, receiver: Seq<char>, failure: Seq<char>) -> bool {
    spec_owned(
        incoming::InputView {
            pointer: derived(receiver, "_ptr"@),
            length: derived(receiver, "_len"@),
            failure,
        },
        incoming::ConversionView::Unchanged,
        record,
        receiver,
        false,
    ) == Ok::<Seq<char>, ExpansionErrorView>(conversion)
}

/// Whether `tokens` are what the receiver read by `plan` contributes to the
/// wrapper, the record type being `record`, the receiver local `receiver`,
/// and the statement that leaves on failure `failure`:
/// - without a receiver, nothing;
/// - a direct record, what its parameter plan writes for the local;
/// - an encoded record, its pointer and length parameters and the
///   statement that decodes them.
pub open spec fn receiver_tokens(
    plan: ReceiverPlan,
    record: Seq<char>,
    receiver: Seq<char>,
    failure: Seq<char>,
    tokens: ReceiverTokens,
) -> bool {
    match plan {
        ReceiverPlan::Absent => tokens.ffi_parameters@.len() == 0 && tokens.conversions@.len() == 0
            && tokens.writebacks@.len() == 0,
        ReceiverPlan::Direct(p) => views(tokens.ffi_parameters@) == spec_plan_ffi_parameters(
            p,
            receiver,
            record,
        ) && views(tokens.conversions@) == spec_plan_conversions(p, receiver, record, failure)
            && views(tokens.writebacks@) == spec_plan_writebacks(p, receiver, record),
        ReceiverPlan::Encoded(_) => views(tokens.ffi_parameters@) == seq![
            derived(receiver, "_ptr"@) + ": *const u8"@,
            derived(receiver, "_len"@) + ": usize"@,
        ] && tokens.conversions@.len() == 1 && decodes_receiver(
            tokens.conversions@[0]@,
            record,
            receiver,
            failure,
        ) && tokens.writebacks@.len() == 0,
    }
}

impl RenderedReceiver {
    /// What the receiver contributes to the wrapper of a method of the
    /// record type `record`, read into the local `receiver` and leaving
    /// with `failure` when it cannot be read; see [`receiver_tokens`].
    pub fn tokens(&self, record: &str, receiver: &str, failure: &str) -> (tokens: ReceiverTokens)
        ensures
            receiver_tokens(self.plan, record@, receiver@, failure@, tokens),
            tokens.requires_failure_return == self.requires_failure_return,
    {
        match &self.plan {
            ReceiverPlan::Absent => {
                let mut tokens = ReceiverTokens::none();
                tokens.requires_failure_return = self.requires_failure_return;
                tokens
            },
            ReceiverPlan::Direct(plan) => {
                let written = plan.tokens(receiver, record, failure);
                ReceiverTokens::new(
                    written.ffi_parameters,
                    written.conversions,
                    written.writebacks,
                    self.requires_failure_return,
                )
            },
            ReceiverPlan::Encoded(_) => {
                let names = Parameter::new(receiver);
                let pointer = names.pointer();
                let length = names.length();
                let mut pointer_parameter = pointer.clone();
                pointer_parameter.append(": *const u8");
                let mut length_parameter = length.clone();
                length_parameter.append(": usize");
                let input = incoming::Input { pointer, length, failure: failure.to_owned() };
                let decoded = input.owned(&Conversion::Unchanged, record, receiver, false);
                let mut conversions: Vec<String> = Vec::new();
                match decoded {
                    Ok(text) => conversions.push(text),
                    Err(_) => {
                        proof {
                            assert(false);
                        }
                    },
                }
                let mut ffi_parameters: Vec<String> = Vec::new();
                ffi_parameters.push(pointer_parameter);
                ffi_parameters.push(length_parameter);
                proof {
                    assert(views(ffi_parameters@) =~= seq![
                        derived(receiver@, "_ptr"@) + ": *const u8"@,
                        derived(receiver@, "_len"@) + ": usize"@,
                    ]);
                    assert(spec_owned(input@, incoming::ConversionView::Unchanged, record@, receiver@, false) == Ok::<
                        Seq<char>,
                        ExpansionErrorView,
                    >(conversions@[0]@));
                }
                ReceiverTokens::new(ffi_parameters, conversions, Vec::new(), self.requires_failure_return)
            },
        }
    }
}

} // verus!
