//! Exported `async` functions: which parameters can be moved into the
//! future that the wrapper starts.
use vstd::prelude::*;

use crate::expansion::{ExpansionError, ExpansionErrorView, check_view};
use crate::param::{IncomingParam, ParamPlan, Receive};
use crate::returned::handle::HandleTarget;
use crate::returned::ReturnPlan;
use crate::type_ref::{self, TypeRef, spelling};

verus! {

/// The parameters of an `async` function, checked before its wrapper is
/// rendered.
pub struct AsyncParameters {
    pub params: Vec<IncomingParam>,
}

/// Whether a parameter received as `receive` can move into a future: only
/// owned values can.
pub open spec fn receive_check(receive: Receive) -> Result<(), ExpansionErrorView> {
    match receive {
        Receive::ByValue => Ok(()),
        Receive::ByRef | Receive::ByMutRef => Err(
            ExpansionErrorView::UnsupportedExpansion("async reference parameter"@),
        ),
        Receive::Other => Err(ExpansionErrorView::UnsupportedExpansion("async receive mode"@)),
    }
}

/// Whether one parameter can move into a future.
pub open spec fn param_check(param: IncomingParam) -> Result<(), ExpansionErrorView> {
    match param {
        IncomingParam::Value(ParamPlan::Direct { receive, .. }) => receive_check(receive),
        IncomingParam::Value(ParamPlan::Encoded { receive }) => receive_check(receive),
        IncomingParam::Value(ParamPlan::Handle { target, receive }) => match receive_check(
            receive,
        ) {
            Err(error) => Err(error),
            Ok(()) => match target {
                HandleTarget::Class => Ok(()),
                HandleTarget::Callback => Err(
                    ExpansionErrorView::UnsupportedExpansion("async callback handle parameter"@),
                ),
                HandleTarget::Other => Err(
                    ExpansionErrorView::UnsupportedExpansion("async handle parameter"@),
                ),
            },
        },
        IncomingParam::Value(ParamPlan::ScalarOption) => Ok(()),
        IncomingParam::Value(ParamPlan::DirectVec) => Ok(()),
        IncomingParam::Value(ParamPlan::Other) => Err(
            ExpansionErrorView::UnsupportedExpansion("async parameter shape"@),
        ),
        IncomingParam::Closure => Err(
            ExpansionErrorView::UnsupportedExpansion("async closure parameter"@),
        ),
    }
}

impl AsyncParameters {
    pub fn new(params: Vec<IncomingParam>) -> (parameters: Self)
        ensures
            parameters.params@ == params@,
    {
        AsyncParameters { params }
    }

    /// Checks the parameters in order and stops at the first that cannot
    /// move into a future.
    pub fn validate(&self) -> (result: Result<(), ExpansionError>)
        ensures
            result is Ok <==> forall|i: int|
                0 <= i < self.params@.len() ==> #[trigger] param_check(self.params@[i]) is Ok,
            result matches Err(error) ==> exists|k: int|
                0 <= k < self.params@.len() && param_check(self.params@[k]) == Err::<
                    (),
                    ExpansionErrorView,
                >(error@) && forall|i: int| 0 <= i < k ==> #[trigger] param_check(
                    self.params@[i],
                ) is Ok,
    {
        let mut i: usize = 0;
        while i < self.params.len()
            invariant
                i <= self.params.len(),
                forall|j: int| 0 <= j < i ==> #[trigger] param_check(self.params@[j]) is Ok,
            decreases self.params.len() - i,
        {
            let checked = self.validate_param(&self.params[i]);
            match checked {
                Ok(()) => {},
                Err(error) => {
                    assert(param_check(self.params@[i as int]) == Err::<(), ExpansionErrorView>(
                        error@,
                    ));
                    return Err(error);
                },
            }
            i = i + 1;
        }
        Ok(())
    }

    /// Whether one parameter can move into a future.
    pub fn validate_param(&self, param: &IncomingParam) -> (result: Result<(), ExpansionError>)
        ensures
            check_view(result) == param_check(*param),
    {
        match param {
            IncomingParam::Value(ParamPlan::Direct { receive, .. })
            | IncomingParam::Value(ParamPlan::Encoded { receive }) => self.validate_receive(*receive),
            IncomingParam::Value(ParamPlan::Handle { target, receive }) => {
                match self.validate_receive(*receive) {
                    Ok(()) => {},
                    Err(error) => return Err(error),
                }
                match target {
                    HandleTarget::Class => Ok(()),
                    HandleTarget::Callback => Err(
                        ExpansionError::UnsupportedExpansion("async callback handle parameter"),
                    ),
                    HandleTarget::Other => Err(
                        ExpansionError::UnsupportedExpansion("async handle parameter"),
                    ),
                }
            },
            IncomingParam::Value(ParamPlan::ScalarOption)
            | IncomingParam::Value(ParamPlan::DirectVec) => Ok(()),
            IncomingParam::Value(_) => Err(
                ExpansionError::UnsupportedExpansion("async parameter shape"),
            ),
            IncomingParam::Closure => Err(
                ExpansionError::UnsupportedExpansion("async closure parameter"),
            ),
        }
    }

    /// Whether a parameter received as `receive` can move into a future.
    pub fn validate_receive(&self, receive: Receive) -> (result: Result<(), ExpansionError>)
        ensures
            check_view(result) == receive_check(receive),
    {
        match receive {
            Receive::ByValue => Ok(()),
            Receive::ByRef | Receive::ByMutRef => Err(
                ExpansionError::UnsupportedExpansion("async reference parameter"),
            ),
            Receive::Other => Err(ExpansionError::UnsupportedExpansion("async receive mode")),
        }
    }
}

/// How an infallible async call's completion hands back its value: the
/// wrapper's return type, the pattern and body for a ready result, and the
/// body for a call that produced nothing.
pub struct PlainComplete {
    pub return_type: String,
    pub ok_pattern: String,
    pub ok_body: String,
    pub err_body: String,
}

/// What the plan's own renderers wrote for a value-carrying plan: the
/// return type, the value read from the `__boltffi_result` local, and the
/// value of an empty answer.
pub struct CompletionValues {
    pub return_type: String,
    pub value: String,
    pub empty: String,
}

/// The completion of an infallible async call with return `plan`, whose
/// source return type is `rust_type`. A void call answers nothing; a
/// primitive is answered as is, or its default; another plain value is
/// packed, or zeroed; a handle is answered in its carrier; the encoded,
/// scalar-option and vector plans answer what their renderers wrote. Any
/// other plan has no async form.
pub open spec fn spec_plain_complete(
    plan: ReturnPlan,
    rust_type: Seq<char>,
    values: (Seq<char>, Seq<char>, Seq<char>),
) -> Result<(Seq<char>, Seq<char>, Seq<char>, Seq<char>), ExpansionErrorView> {
    let result = "__boltffi_result"@;
    match plan {
        ReturnPlan::Void => Ok((Seq::empty(), "_"@, Seq::empty(), Seq::empty())),
        ReturnPlan::DirectPrimitive(primitive) => match spelling(TypeRef::Primitive(primitive)) {
            Some(ty) => Ok(("-> "@ + ty, "result"@, "result"@, "Default::default()"@)),
            None => Err(ExpansionErrorView::UnsupportedExpansion("type reference"@)),
        },
        ReturnPlan::Direct => Ok(
            (
                "-> <"@ + rust_type + " as ::boltffi::__private::Passable>::Out"@,
                result,
                "::boltffi::__private::Passable::pack("@ + result + ")"@,
                "unsafe { ::core::mem::MaybeUninit::zeroed().assume_init() }"@,
            ),
        ),
        ReturnPlan::Handle { .. } => Ok(("-> "@ + values.0, result, values.1, values.2)),
        ReturnPlan::Encoded { .. } | ReturnPlan::ScalarOption | ReturnPlan::DirectVec => Ok(
            (values.0, result, values.1, values.2),
        ),
        _ => Err(ExpansionErrorView::UnsupportedExpansion("async return shape"@)),
    }
}

impl PlainComplete {
    /// Writes the completion of an infallible async call; see
    /// [`spec_plain_complete`].
    pub fn new(plan: &ReturnPlan, rust_type: &str, values: &CompletionValues) -> (result: Result<Self, ExpansionError>)
        ensures
            match (result, spec_plain_complete(
                *plan,
                rust_type@,
                (values.return_type@, values.value@, values.empty@),
            )) {
                (Ok(complete), Ok(expected)) => (complete.return_type@, complete.ok_pattern@, complete.ok_body@, complete.err_body@) == expected,
                (Err(error), Err(expected)) => error@ == expected,
                _ => false,
            },
    {
        match plan {
            ReturnPlan::Void => {
                let complete = PlainComplete {
                    return_type: String::new(),
                    ok_pattern: "_".to_owned(),
                    ok_body: String::new(),
                    err_body: String::new(),
                };
                Ok(complete)
            },
            ReturnPlan::DirectPrimitive(primitive) => {
                let ty = match type_ref::Renderer.render(&TypeRef::Primitive(*primitive)) {
                    Ok(ty) => ty,
                    Err(error) => return Err(error),
                };
                let mut return_type = "-> ".to_owned();
                return_type.append(ty.as_str());
                Ok(
                    PlainComplete {
                        return_type,
                        ok_pattern: "result".to_owned(),
                        ok_body: "result".to_owned(),
                        err_body: "Default::default()".to_owned(),
                    },
                )
            },
            ReturnPlan::Direct => {
                let mut return_type = "-> <".to_owned();
                return_type.append(rust_type);
                return_type.append(" as ::boltffi::__private::Passable>::Out");
                let mut ok_body = "::boltffi::__private::Passable::pack(".to_owned();
                ok_body.append("__boltffi_result");
                ok_body.append(")");
                Ok(
                    PlainComplete {
                        return_type,
                        ok_pattern: "__boltffi_result".to_owned(),
                        ok_body,
                        err_body: "unsafe { ::core::mem::MaybeUninit::zeroed().assume_init() }".to_owned(),
                    },
                )
            },
            ReturnPlan::Handle { .. } => {
                let mut return_type = "-> ".to_owned();
                return_type.append(values.return_type.as_str());
                Ok(
                    PlainComplete {
                        return_type,
                        ok_pattern: "__boltffi_result".to_owned(),
                        ok_body: values.value.clone(),
                        err_body: values.empty.clone(),
                    },
                )
            },
            ReturnPlan::Encoded { .. } | ReturnPlan::ScalarOption | ReturnPlan::DirectVec => Ok(
                PlainComplete {
                    return_type: values.return_type.clone(),
                    ok_pattern: "__boltffi_result".to_owned(),
                    ok_body: values.value.clone(),
                    err_body: values.empty.clone(),
                },
            ),
            _ => Err(ExpansionError::UnsupportedExpansion("async return shape")),
        }
    }
}

/// A completed async call hands back the result it bound: for a direct
/// return the ok body packs exactly the value its ok pattern binds, and it
/// differs from the error body; for a primitive the ok body is the bound
/// value itself.
pub proof fn lemma_completion_answers_the_bound_result(
    rust_type: Seq<char>,
    values: (Seq<char>, Seq<char>, Seq<char>),
    primitive: crate::ast::Primitive,
)
    ensures
        spec_plain_complete(ReturnPlan::Direct, rust_type, values) matches Ok((_, pattern, ok, err))
            && ok == "::boltffi::__private::Passable::pack("@ + pattern + ")"@ && ok != err,
        spec_plain_complete(ReturnPlan::DirectPrimitive(primitive), rust_type, values) matches Ok(
            (_, pattern, ok, _),
        ) ==> ok == pattern,
{
    reveal_strlit("::boltffi::__private::Passable::pack(");
    reveal_strlit("unsafe { ::core::mem::MaybeUninit::zeroed().assume_init() }");
    if let Ok((_, pattern, ok, err)) = spec_plain_complete(ReturnPlan::Direct, rust_type, values) {
        assert(ok[0] == ':' && err[0] == 'u');
    }
}

} // verus!
