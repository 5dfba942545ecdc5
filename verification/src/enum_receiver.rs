//! The receiver of an enum's exported method: called on the type when the
//! method takes none, otherwise read as a direct or an encoded parameter.
use vstd::prelude::*;

use crate::expansion::{ExpansionError, ExpansionErrorView, Target};
use crate::export::{ReceiverTokens, RustCall};
use crate::param::Receive;
use crate::param::direct::{
    Input, Renderer, direct_plan, spec_plan_conversions, spec_plan_ffi_parameters,
    spec_plan_writebacks, Plan,
};
use crate::param::encoded::{DecodeBorrow, EncodedParamInput, encoded_param, spec_encoded_param};
use crate::record_receiver::{calls_associated, calls_method};
use crate::returned::encoded::BufferShape;
use crate::source_names::{enum_type, parses_as_type};
use crate::text::views;
use crate::transform::{CustomConverters, all_registered};
use crate::type_ref::TypeRef;
use crate::wire::CodecNode;

verus! {

/// How the binding passes an enum receiver.
pub enum EnumReceiver {
    /// Directly, as this binding type.
    Direct { ty: TypeRef },
    /// Encoded with `codec` in a buffer of this shape, and taken by the
    /// method as `borrow` says.
    Encoded { codec: CodecNode, shape: BufferShape, borrow: DecodeBorrow },
}

/// A rendered enum receiver: what it adds to the wrapper, and the call.
pub struct RenderedEnumReceiver {
    pub tokens: ReceiverTokens,
    pub call: RustCall,
}

/// Whether `tokens` add nothing and cannot fail.
pub open spec fn no_receiver(tokens: ReceiverTokens) -> bool {
    tokens.ffi_parameters@.len() == 0 && tokens.conversions@.len() == 0 && tokens.writebacks@.len()
        == 0 && !tokens.requires_failure_return
}

/// Whether `result` renders the receiver of `method` of the enum
/// `enumeration`, read into the local `receiver` on `target` and leaving
/// with `failure` when it cannot be read:
/// - without a receive mode the method is called on the type;
/// - a mutable receiver is refused, since nothing writes it back;
/// - a direct receiver needs the enum's name to be a type and is what the
///   direct parameter plan writes, which cannot fail here;
/// - an encoded receiver is what the encoded parameter renderer writes,
///   and can fail.
pub open spec fn rendered_enum_receiver(
    kind: EnumReceiver,
    receive: Option<Receive>,
    target: Target,
    enumeration: Seq<char>,
    receiver: Seq<char>,
    method: Seq<char>,
    failure: Seq<char>,
    table: Seq<CustomConverters>,
    result: Result<RenderedEnumReceiver, ExpansionError>,
) -> bool {
    match receive {
        None => result matches Ok(r) && no_receiver(r.tokens) && calls_associated(
            r.call,
            enumeration,
            method,
        ),
        Some(mode) => match kind {
            EnumReceiver::Direct { ty } => if mode == Receive::ByMutRef {
                result matches Err(e) && e@ == ExpansionErrorView::UnsupportedExpansion(
                    "mutable enum receiver without writeback"@,
                )
            } else if !parses_as_type(enumeration) {
                result matches Err(e) && e@ == ExpansionErrorView::SourceSyntaxMismatch(
                    "source enum name is not a Rust type"@,
                )
            } else {
                let input = Input { ty, receive: mode, target };
                match result {
                    Ok(r) => exists|plan: Plan|
                        #[trigger] direct_plan(input, Ok(plan)) && views(r.tokens.ffi_parameters@)
                            == spec_plan_ffi_parameters(plan, receiver, enumeration) && views(
                            r.tokens.conversions@,
                        ) == spec_plan_conversions(plan, receiver, enumeration, Seq::empty())
                            && views(r.tokens.writebacks@) == spec_plan_writebacks(
                            plan,
                            receiver,
                            enumeration,
                        ) && !r.tokens.requires_failure_return && calls_method(
                            r.call,
                            receiver,
                            method,
                        ),
                    Err(e) => direct_plan(input, Err(e)),
                }
            },
            EnumReceiver::Encoded { codec, shape, borrow } => if mode == Receive::ByMutRef {
                result matches Err(e) && e@ == ExpansionErrorView::UnsupportedExpansion(
                    "mutable encoded enum receiver without writeback"@,
                )
            } else {
                exists|input: EncodedParamInput|
                    input.shape == shape && input.codec == codec && input.rust_type@ == enumeration
                        && input.borrow == borrow && input.ident@ == receiver && input.failure@
                        == failure && !input.writeback && match #[trigger] spec_encoded_param(
                        input,
                        table,
                    ) {
                        Ok(expected) => result matches Ok(r) && views(r.tokens.ffi_parameters@)
                            == expected.ffi_parameters && views(r.tokens.conversions@)
                            == expected.conversions && views(r.tokens.writebacks@)
                            == expected.writebacks && r.tokens.requires_failure_return
                            && calls_method(r.call, receiver, method),
                        Err(error) => result matches Err(e) && e@ == error,
                    }
            },
        },
    }
}

impl EnumReceiver {
    /// Renders the receiver of `method` of the enum `enumeration`; see
    /// [`rendered_enum_receiver`].
    pub fn render(
        self,
        receive: Option<Receive>,
        target: Target,
        enumeration: &str,
        receiver: &str,
        method: &str,
        failure: &str,
        table: &Vec<CustomConverters>,
    ) -> (result: Result<RenderedEnumReceiver, ExpansionError>)
        requires
            self matches EnumReceiver::Encoded { codec, .. } ==> all_registered(codec, table@),
        ensures
            rendered_enum_receiver(
                self,
                receive,
                target,
                enumeration@,
                receiver@,
                method@,
                failure@,
                table@,
                result,
            ),
    {
        let mode = match receive {
            None => {
                return Ok(
                    RenderedEnumReceiver {
                        tokens: ReceiverTokens::none(),
                        call: RustCall::associated(enumeration.to_owned(), method.to_owned()),
                    },
                );
            },
            Some(mode) => mode,
        };
        match self {
            EnumReceiver::Direct { ty } => {
                if mode == Receive::ByMutRef {
                    return Err(ExpansionError::UnsupportedExpansion("mutable enum receiver without writeback"));
                }
                if let Err(error) = enum_type(enumeration) {
                    return Err(error);
                }
                let input = Input { ty, receive: mode, target };
                match Renderer.tokens(input, receiver, enumeration, "") {
                    Ok(written) => {
                        proof {
                            reveal_strlit("");
                            assert(""@ =~= Seq::<char>::empty());
                        }
                        Ok(
                            RenderedEnumReceiver {
                                tokens: ReceiverTokens::new(
                                    written.ffi_parameters,
                                    written.conversions,
                                    written.writebacks,
                                    false,
                                ),
                                call: RustCall::method(receiver.to_owned(), method.to_owned()),
                            },
                        )
                    },
                    Err(error) => Err(error),
                }
            },
            EnumReceiver::Encoded { codec, shape, borrow } => {
                if mode == Receive::ByMutRef {
                    return Err(
                        ExpansionError::UnsupportedExpansion("mutable encoded enum receiver without writeback"),
                    );
                }
                let input = EncodedParamInput {
                    shape,
                    codec,
                    rust_type: enumeration.to_owned(),
                    borrow,
                    ident: receiver.to_owned(),
                    failure: failure.to_owned(),
                    writeback: false,
                };
                let result = match encoded_param(&input, table) {
                    Ok(written) => Ok(
                        RenderedEnumReceiver {
                            tokens: ReceiverTokens::new(
                                written.ffi_parameters,
                                written.conversions,
                                written.writebacks,
                                true,
                            ),
                            call: RustCall::method(receiver.to_owned(), method.to_owned()),
                        },
                    ),
                    Err(error) => Err(error),
                };
                result
            },
        }
    }
}

} // verus!
