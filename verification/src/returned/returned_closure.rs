//! A closure that Rust hands to the foreign side: how it is boxed as a
//! context, how the invoke function borrows it back, and how a nullable
//! one is written.
use vstd::prelude::*;

use crate::expansion::{ExpansionError, ExpansionErrorView};
use crate::text::{join, join_strings, views};

verus! {

/// The `Fn` trait a returned closure is called through.
#[derive(Clone, Copy, Debug, Eq, PartialEq, Structural)]
pub enum ClosureForm {
    Fn,
    FnMut,
    FnOnce,
    FunctionPointer,
}

/// How the source returns the closure.
#[derive(Clone, Copy, Debug, Eq, PartialEq, Structural)]
pub enum ReturnedClosureKind {
    /// `impl Fn..`.
    ImplTrait,
    /// A function pointer.
    FunctionPointer,
    /// `Box<dyn Fn..>`.
    Boxed,
    /// `Option<Box<dyn Fn..>>`.
    NullableBoxed,
}

/// A returned closure: its kind and form, and the Rust types of its
/// parameters and of its return, where it has one.
pub struct ReturnedClosure {
    pub kind: ReturnedClosureKind,
    pub form: ClosureForm,
    pub parameters: Vec<String>,
    pub return_type: Option<String>,
}

/// The trait a form is called through; a function pointer is called as
/// `Fn`.
pub open spec fn spec_trait_ident(form: ClosureForm) -> Seq<char> {
    match form {
        ClosureForm::FnMut => "FnMut"@,
        ClosureForm::FnOnce => "FnOnce"@,
        _ => "Fn"@,
    }
}

/// The boxed trait object the closure is stored as.
pub open spec fn spec_trait_object(closure: ReturnedClosure) -> Seq<char> {
    "Box<dyn "@ + spec_trait_ident(closure.form) + "("@ + join(views(closure.parameters@), ", "@)
        + ")"@ + match closure.return_type {
        Some(ty) => " -> "@ + ty@,
        None => Seq::empty(),
    } + " + 'static>"@
}

/// The type of the context: the trait object, held in an `Option` for a
/// closure that is called once.
pub open spec fn spec_context_type(closure: ReturnedClosure) -> Seq<char> {
    if closure.form == ClosureForm::FnOnce {
        "Option<"@ + spec_trait_object(closure) + ">"@
    } else {
        spec_trait_object(closure)
    }
}

/// The context value made from the local `value`, or why the pairing of
/// kind and form has none.
pub open spec fn spec_context_value(closure: ReturnedClosure, value: Seq<char>) -> Result<
    Seq<char>,
    ExpansionErrorView,
> {
    let boxed = "Box::new("@ + value + ") as "@ + spec_trait_object(closure);
    match (closure.kind, closure.form) {
        (ReturnedClosureKind::ImplTrait, ClosureForm::Fn)
        | (ReturnedClosureKind::ImplTrait, ClosureForm::FnMut)
        | (ReturnedClosureKind::FunctionPointer, ClosureForm::FunctionPointer) => Ok(boxed),
        (ReturnedClosureKind::ImplTrait, ClosureForm::FnOnce) => Ok("Some("@ + boxed + ")"@),
        (ReturnedClosureKind::Boxed, ClosureForm::Fn)
        | (ReturnedClosureKind::Boxed, ClosureForm::FnMut)
        | (ReturnedClosureKind::NullableBoxed, _) => Ok(value),
        (ReturnedClosureKind::Boxed, ClosureForm::FnOnce) => Ok("Some("@ + value + ")"@),
        _ => Err(ExpansionErrorView::UnsupportedExpansion("closure return form"@)),
    }
}

/// How the invoke function borrows the closure from `context`: shared,
/// mutable, or taken out once.
pub open spec fn spec_context_binding(closure: ReturnedClosure, context: Seq<char>) -> Seq<char> {
    match closure.form {
        ClosureForm::FnMut => "&mut *("@ + context + ")"@,
        ClosureForm::FnOnce => "(&mut *("@ + context
            + ")).take().expect(\"closure already invoked\")"@,
        _ => "&*("@ + context + ")"@,
    }
}

/// The write of the closure held in `value`: `present` for a closure that
/// is always there; for a nullable one, `present` on the unwrapped closure
/// and `absent` when there is none.
pub open spec fn spec_write_body(
    closure: ReturnedClosure,
    value: Seq<char>,
    present: Seq<char>,
    absent: Seq<char>,
) -> Result<Seq<char>, ExpansionErrorView> {
    if closure.kind != ReturnedClosureKind::NullableBoxed {
        Ok(present)
    } else {
        let unwrapped = match closure.form {
            ClosureForm::Fn | ClosureForm::FnMut => Some(value),
            ClosureForm::FnOnce => Some("Some("@ + value + ")"@),
            _ => None,
        };
        match unwrapped {
            Some(present_value) => Ok(
                "match "@ + value + " { Some("@ + value + ") => { let "@ + value + ": "@
                    + spec_context_type(closure) + " = "@ + present_value + "; "@ + present
                    + " } None => { "@ + absent + " } }"@,
            ),
            None => Err(ExpansionErrorView::UnsupportedExpansion("closure return form"@)),
        }
    }
}

/// A text result taken by its view.
pub open spec fn text_view(result: Result<String, ExpansionError>) -> Result<Seq<char>, ExpansionErrorView> {
    match result {
        Ok(text) => Ok(text@),
        Err(error) => Err(error@),
    }
}

impl ReturnedClosure {
    /// The boxed trait object the closure is stored as.
    pub fn trait_object(&self) -> (text: String)
        ensures
            text@ == spec_trait_object(*self),
    {
        let mut text = "Box<dyn ".to_owned();
        match self.form {
            ClosureForm::FnMut => text.append("FnMut"),
            ClosureForm::FnOnce => text.append("FnOnce"),
            _ => text.append("Fn"),
        }
        text.append("(");
        let parameters = join_strings(&self.parameters, ", ");
        text.append(parameters.as_str());
        text.append(")");
        match &self.return_type {
            Some(ty) => {
                text.append(" -> ");
                text.append(ty.as_str());
            },
            None => {
                proof {
                    assert(text@ + Seq::<char>::empty() =~= text@);
                }
            },
        }
        text.append(" + 'static>");
        text
    }

    /// The type of the context.
    pub fn context_type(&self) -> (text: String)
        ensures
            text@ == spec_context_type(*self),
    {
        let object = self.trait_object();
        if matches!(self.form, ClosureForm::FnOnce) {
            let mut text = "Option<".to_owned();
            text.append(object.as_str());
            text.append(">");
            text
        } else {
            object
        }
    }

    /// The context value made from the local `value`.
    pub fn context_value(&self, value: &str) -> (result: Result<String, ExpansionError>)
        ensures
            text_view(result) == spec_context_value(*self, value@),
    {
        let mut boxed = "Box::new(".to_owned();
        boxed.append(value);
        boxed.append(") as ");
        let object = self.trait_object();
        boxed.append(object.as_str());
        match (self.kind, self.form) {
            (ReturnedClosureKind::ImplTrait, ClosureForm::Fn)
            | (ReturnedClosureKind::ImplTrait, ClosureForm::FnMut)
            | (ReturnedClosureKind::FunctionPointer, ClosureForm::FunctionPointer) => Ok(boxed),
            (ReturnedClosureKind::ImplTrait, ClosureForm::FnOnce) => {
                let mut text = "Some(".to_owned();
                text.append(boxed.as_str());
                text.append(")");
                Ok(text)
            },
            (ReturnedClosureKind::Boxed, ClosureForm::Fn)
            | (ReturnedClosureKind::Boxed, ClosureForm::FnMut)
            | (ReturnedClosureKind::NullableBoxed, _) => Ok(value.to_owned()),
            (ReturnedClosureKind::Boxed, ClosureForm::FnOnce) => {
                let mut text = "Some(".to_owned();
                text.append(value);
                text.append(")");
                Ok(text)
            },
            _ => Err(ExpansionError::UnsupportedExpansion("closure return form")),
        }
    }

    /// How the invoke function borrows the closure from `context`.
    pub fn context_binding(&self, context: &str) -> (text: String)
        ensures
            text@ == spec_context_binding(*self, context@),
    {
        let mut text = match self.form {
            ClosureForm::FnMut => "&mut *(".to_owned(),
            ClosureForm::FnOnce => "(&mut *(".to_owned(),
            _ => "&*(".to_owned(),
        };
        text.append(context);
        match self.form {
            ClosureForm::FnOnce => text.append(")).take().expect(\"closure already invoked\")"),
            _ => text.append(")"),
        }
        text
    }

    /// The write of the closure held in `value`.
    pub fn write_body(&self, value: &str, present: &str, absent: &str) -> (result: Result<String, ExpansionError>)
        ensures
            text_view(result) == spec_write_body(*self, value@, present@, absent@),
    {
        if !matches!(self.kind, ReturnedClosureKind::NullableBoxed) {
            return Ok(present.to_owned());
        }
        let present_value = match self.form {
            ClosureForm::Fn | ClosureForm::FnMut => value.to_owned(),
            ClosureForm::FnOnce => {
                let mut text = "Some(".to_owned();
                text.append(value);
                text.append(")");
                text
            },
            _ => return Err(ExpansionError::UnsupportedExpansion("closure return form")),
        };
        let mut text = "match ".to_owned();
        text.append(value);
        text.append(" { Some(");
        text.append(value);
        text.append(") => { let ");
        text.append(value);
        text.append(": ");
        let context_type = self.context_type();
        text.append(context_type.as_str());
        text.append(" = ");
        text.append(present_value.as_str());
        text.append("; ");
        text.append(present);
        text.append(" } None => { ");
        text.append(absent);
        text.append(" } }");
        Ok(text)
    }
}

} // verus!
