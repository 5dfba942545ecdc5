//! The Rust spelling of a lowered type reference, as a generated wrapper
//! writes it in a signature.
use vstd::prelude::*;

use crate::ast::{Primitive, RecordId};
use crate::expansion::{ExpansionError, ExpansionErrorView};

verus! {

/// A type as the binding lowers it.
#[derive(Debug, Eq, PartialEq)]
pub enum TypeRef {
    Primitive(Primitive),
    String,
    Bytes,
    Optional(Box<TypeRef>),
    Sequence(Box<TypeRef>),
    Result { ok: Box<TypeRef>, err: Box<TypeRef> },
    /// A record passed by its layout.
    Record(RecordId),
    /// Any other kind of type the binding describes (enumerations, classes,
    /// callbacks, custom types, maps).
    Other,
}

/// The Rust name of a primitive.
pub open spec fn primitive_spelling(primitive: Primitive) -> Seq<char> {
    match primitive {
        Primitive::Bool => "bool"@,
        Primitive::I8 => "i8"@,
        Primitive::U8 => "u8"@,
        Primitive::I16 => "i16"@,
        Primitive::U16 => "u16"@,
        Primitive::I32 => "i32"@,
        Primitive::U32 => "u32"@,
        Primitive::I64 => "i64"@,
        Primitive::U64 => "u64"@,
        Primitive::ISize => "isize"@,
        Primitive::USize => "usize"@,
        Primitive::F32 => "f32"@,
        Primitive::F64 => "f64"@,
    }
}

/// The Rust spelling of a type reference, or `None` where the type has no
/// spelling here.
pub open spec fn spelling(ty: TypeRef) -> Option<Seq<char>>
    decreases ty,
{
    match ty {
        TypeRef::Primitive(primitive) => Some(primitive_spelling(primitive)),
        TypeRef::String => Some("String"@),
        TypeRef::Bytes => Some("Vec<u8>"@),
        TypeRef::Optional(inner) => match spelling(*inner) {
            Some(inner) => Some("Option<"@ + inner + ">"@),
            None => None,
        },
        TypeRef::Sequence(element) => match spelling(*element) {
            Some(element) => Some("Vec<"@ + element + ">"@),
            None => None,
        },
        TypeRef::Result { ok, err } => match (spelling(*ok), spelling(*err)) {
            (Some(ok), Some(err)) => Some("Result<"@ + ok + ", "@ + err + ">"@),
            _ => None,
        },
        TypeRef::Record(_) => None,
        TypeRef::Other => None,
    }
}

/// Renders type references as Rust types.
pub struct Renderer;

/// The Rust name of a primitive.
pub fn primitive_name(primitive: Primitive) -> (name: &'static str)
    ensures
        name@ == primitive_spelling(primitive),
{
    proof {
        reveal_strlit("bool");
        reveal_strlit("i8");
        reveal_strlit("u8");
        reveal_strlit("i16");
        reveal_strlit("u16");
        reveal_strlit("i32");
        reveal_strlit("u32");
        reveal_strlit("i64");
        reveal_strlit("u64");
        reveal_strlit("isize");
        reveal_strlit("usize");
        reveal_strlit("f32");
        reveal_strlit("f64");
    }
    match primitive {
        Primitive::Bool => "bool",
        Primitive::I8 => "i8",
        Primitive::U8 => "u8",
        Primitive::I16 => "i16",
        Primitive::U16 => "u16",
        Primitive::I32 => "i32",
        Primitive::U32 => "u32",
        Primitive::I64 => "i64",
        Primitive::U64 => "u64",
        Primitive::ISize => "isize",
        Primitive::USize => "usize",
        Primitive::F32 => "f32",
        Primitive::F64 => "f64",
    }
}

fn unsupported() -> (error: ExpansionError)
    ensures
        error@ == ExpansionErrorView::UnsupportedExpansion("type reference"@),
{
    ExpansionError::UnsupportedExpansion("type reference")
}

impl Renderer {
    /// The Rust type that `ty` is written as; records and the other kinds
    /// are refused as an unsupported type reference.
    pub fn render(self, ty: &TypeRef) -> (rendered: Result<String, ExpansionError>)
        ensures
            match rendered {
                Ok(text) => spelling(*ty) == Some(text@),
                Err(error) => spelling(*ty) is None && error@
                    == ExpansionErrorView::UnsupportedExpansion("type reference"@),
            },
        decreases ty,
    {
        proof {
            reveal_strlit("String");
            reveal_strlit("Vec<u8>");
            reveal_strlit("Option<");
            reveal_strlit("Vec<");
            reveal_strlit("Result<");
            reveal_strlit(", ");
            reveal_strlit(">");
        }
        match ty {
            TypeRef::Primitive(p) => Ok(primitive_name(*p).to_owned()),
            TypeRef::String => Ok("String".to_owned()),
            TypeRef::Bytes => Ok("Vec<u8>".to_owned()),
            TypeRef::Optional(inner) => {
                let inner = match Renderer.render(inner) {
                    Ok(inner) => inner,
                    Err(error) => return Err(error),
                };
                let mut text = "Option<".to_owned();
                text.append(inner.as_str());
                text.append(">");
                Ok(text)
            },
            TypeRef::Sequence(element) => {
                let element = match Renderer.render(element) {
                    Ok(element) => element,
                    Err(error) => return Err(error),
                };
                let mut text = "Vec<".to_owned();
                text.append(element.as_str());
                text.append(">");
                Ok(text)
            },
            TypeRef::Result { ok, err } => {
                let ok = match Renderer.render(ok) {
                    Ok(ok) => ok,
                    Err(error) => return Err(error),
                };
                let err = match Renderer.render(err) {
                    Ok(err) => err,
                    Err(error) => return Err(error),
                };
                let mut text = "Result<".to_owned();
                text.append(ok.as_str());
                text.append(", ");
                text.append(err.as_str());
                text.append(">");
                Ok(text)
            },
            _ => Err(unsupported()),
        }
    }
}

} // verus!
