//! The contract model that a scan produces: visibilities, user
//! attributes, declared identities and type expressions.
use vstd::prelude::*;

verus! {

/// Where a declaration may be seen from.
#[derive(Debug, Eq, PartialEq)]
pub enum SourceVisibility {
    Public,
    /// Restricted to a path, such as `crate` or `crate::ffi`.
    Restricted(String),
    Private,
}

/// A position in a source file.
#[derive(Clone, Copy, Debug, Eq, PartialEq)]
pub struct SourceSpan {
    pub line: usize,
    pub column: usize,
}

/// What a scan records of where a declaration came from.
#[derive(Debug, Eq, PartialEq)]
pub struct Source {
    pub visibility: SourceVisibility,
    pub span: Option<SourceSpan>,
}

impl Source {
    pub fn new(visibility: SourceVisibility, span: Option<SourceSpan>) -> (source: Self)
        ensures
            source == (Source { visibility, span }),
    {
        Source { visibility, span }
    }
}

/// The input of a user attribute carried into the contract.
#[derive(Debug, Eq, PartialEq)]
pub enum AttributeInput {
    Empty,
}

/// An attribute the contract keeps for the bindings, such as `error`.
#[derive(Debug, Eq, PartialEq)]
pub struct UserAttr {
    /// The segments of the attribute's path.
    pub path: Vec<String>,
    pub input: AttributeInput,
}

/// The identity of an exported record: its fully qualified source path.
#[derive(Debug, Eq, PartialEq)]
pub struct RecordId(pub String);

/// The identity of an exported enum.
#[derive(Debug, Eq, PartialEq)]
pub struct EnumId(pub String);

/// The identity of an exported callback trait.
#[derive(Debug, Eq, PartialEq)]
pub struct TraitId(pub String);

/// The identity of an exported class.
#[derive(Debug, Eq, PartialEq)]
pub struct ClassId(pub String);

/// A primitive type that crosses the boundary as is.
#[derive(Clone, Copy, Debug, Eq, PartialEq, Structural)]
pub enum Primitive {
    Bool,
    I8,
    U8,
    I16,
    U16,
    I32,
    U32,
    I64,
    U64,
    ISize,
    USize,
    F32,
    F64,
}

/// Which `Fn` trait a closure is written with.
#[derive(Clone, Copy, Debug, Eq, PartialEq, Structural)]
pub enum ClosureTrait {
    Fn,
    FnMut,
    FnOnce,
}

/// How a closure is written: by its `Fn` trait alone, as `impl` or as a
/// boxed trait object of that trait, or as a plain `fn` pointer.
#[derive(Clone, Copy, Debug, Eq, PartialEq, Structural)]
pub enum ClosureKind {
    Fn,
    FnMut,
    FnOnce,
    ImplTrait(ClosureTrait),
    BoxedTraitObject(ClosureTrait),
    FunctionPointer,
}

/// The `Fn` trait of a closure written by its trait alone.
pub open spec fn closure_trait(kind: ClosureKind) -> ClosureTrait {
    match kind {
        ClosureKind::FnMut => ClosureTrait::FnMut,
        ClosureKind::FnOnce => ClosureTrait::FnOnce,
        _ => ClosureTrait::Fn,
    }
}

/// A closure of `kind`'s trait, written as `impl` or, when boxed, as a
/// boxed trait object.
pub open spec fn written_closure(kind: ClosureKind, boxed: bool) -> ClosureKind {
    if boxed {
        ClosureKind::BoxedTraitObject(closure_trait(kind))
    } else {
        ClosureKind::ImplTrait(closure_trait(kind))
    }
}

/// Writes a closure of `kind`'s trait as `impl` or as a boxed trait
/// object; see [`written_closure`].
pub fn write_closure(kind: ClosureKind, boxed: bool) -> (written: ClosureKind)
    ensures
        written == written_closure(kind, boxed),
{
    let trait_kind = match kind {
        ClosureKind::FnMut => ClosureTrait::FnMut,
        ClosureKind::FnOnce => ClosureTrait::FnOnce,
        _ => ClosureTrait::Fn,
    };
    if boxed {
        ClosureKind::BoxedTraitObject(trait_kind)
    } else {
        ClosureKind::ImplTrait(trait_kind)
    }
}

/// Whether a handle must be present or may be absent.
#[derive(Clone, Copy, Debug, Eq, PartialEq, Structural)]
pub enum HandlePresence {
    Required,
    Nullable,
}

/// How a callback trait is used where a type is written.
#[derive(Clone, Copy, Debug, Eq, PartialEq, Structural)]
pub enum TraitUseForm {
    /// `impl Trait`
    ImplTrait,
    /// `Box<dyn Trait>`
    BoxedDyn,
    /// `Arc<dyn Trait>`
    ArcDyn,
}

/// What a callable returns.
#[derive(Debug, Eq, PartialEq)]
pub enum ReturnDef {
    Void,
    Value(TypeExpr),
}

/// The signature of an inline closure.
#[derive(Debug, Eq, PartialEq)]
pub struct ClosureType {
    pub kind: ClosureKind,
    pub parameters: Vec<TypeExpr>,
    pub output: ReturnDef,
}

/// A type in the contract.
#[derive(Debug, Eq, PartialEq)]
pub enum TypeExpr {
    Primitive(Primitive),
    String,
    /// A borrowed string, `&str`.
    Str,
    /// A borrowed slice, `&[T]`.
    Slice(Box<TypeExpr>),
    Vec(Box<TypeExpr>),
    Option(Box<TypeExpr>),
    Result { ok: Box<TypeExpr>, err: Box<TypeExpr> },
    MapOf { key: Box<TypeExpr>, value: Box<TypeExpr> },
    Tuple(Vec<TypeExpr>),
    Unit,
    Closure { signature: Box<ClosureType>, presence: HandlePresence },
    /// A byte buffer: `Vec<u8>` or `&[u8]`.
    Bytes,
    /// `Self` inside an impl block.
    SelfType,
    /// A declared record.
    Record(RecordId),
    /// A declared enum.
    Enum(EnumId),
    /// A declared class, passed by handle.
    Class { id: ClassId, presence: HandlePresence },
    /// A declared callback trait, in one of its use forms.
    Trait { id: TraitId, form: TraitUseForm, presence: HandlePresence },
}

/// What a [`TypeExpr`] denotes, with its lists as sequences.
pub enum TypeView {
    Primitive(Primitive),
    String,
    Str,
    Slice(Box<TypeView>),
    Vec(Box<TypeView>),
    Option(Box<TypeView>),
    Result { ok: Box<TypeView>, err: Box<TypeView> },
    MapOf { key: Box<TypeView>, value: Box<TypeView> },
    Tuple(Seq<TypeView>),
    Unit,
    Closure {
        kind: ClosureKind,
        parameters: Seq<TypeView>,
        output: ReturnView,
        presence: HandlePresence,
    },
    Bytes,
    SelfType,
    Record(Seq<char>),
    Enum(Seq<char>),
    Class { path: Seq<char>, presence: HandlePresence },
    Trait { path: Seq<char>, form: TraitUseForm, presence: HandlePresence },
}

/// What a [`ReturnDef`] denotes.
pub enum ReturnView {
    Void,
    Value(Box<TypeView>),
}

/// The view of a type expression.
pub open spec fn type_view(ty: TypeExpr) -> TypeView
    decreases ty,
{
    match ty {
        TypeExpr::Primitive(p) => TypeView::Primitive(p),
        TypeExpr::String => TypeView::String,
        TypeExpr::Str => TypeView::Str,
        TypeExpr::Slice(element) => TypeView::Slice(Box::new(type_view(*element))),
        TypeExpr::Vec(element) => TypeView::Vec(Box::new(type_view(*element))),
        TypeExpr::Option(inner) => TypeView::Option(Box::new(type_view(*inner))),
        TypeExpr::Result { ok, err } => TypeView::Result {
            ok: Box::new(type_view(*ok)),
            err: Box::new(type_view(*err)),
        },
        TypeExpr::MapOf { key, value } => TypeView::MapOf {
            key: Box::new(type_view(*key)),
            value: Box::new(type_view(*value)),
        },
        TypeExpr::Tuple(elements) => TypeView::Tuple(type_views(elements@)),
        TypeExpr::Unit => TypeView::Unit,
        TypeExpr::Closure { signature, presence } => TypeView::Closure {
            kind: signature.kind,
            parameters: type_views(signature.parameters@),
            output: return_view(signature.output),
            presence,
        },
        TypeExpr::Bytes => TypeView::Bytes,
        TypeExpr::SelfType => TypeView::SelfType,
        TypeExpr::Record(id) => TypeView::Record(id.0@),
        TypeExpr::Enum(id) => TypeView::Enum(id.0@),
        TypeExpr::Class { id, presence } => TypeView::Class { path: id.0@, presence },
        TypeExpr::Trait { id, form, presence } => TypeView::Trait { path: id.0@, form, presence },
    }
}

/// The views of a list of type expressions.
pub open spec fn type_views(types: Seq<TypeExpr>) -> Seq<TypeView>
    decreases types,
{
    if types.len() == 0 {
        Seq::empty()
    } else {
        type_views(types.drop_last()).push(type_view(types.last()))
    }
}

/// The view of a return position.
pub open spec fn return_view(output: ReturnDef) -> ReturnView
    decreases output,
{
    match output {
        ReturnDef::Void => ReturnView::Void,
        ReturnDef::Value(ty) => ReturnView::Value(Box::new(type_view(ty))),
    }
}

impl TypeExpr {
    pub fn vec(element: TypeExpr) -> (ty: Self)
        ensures
            ty == TypeExpr::Vec(Box::new(element)),
    {
        TypeExpr::Vec(Box::new(element))
    }

    pub fn option(inner: TypeExpr) -> (ty: Self)
        ensures
            ty == TypeExpr::Option(Box::new(inner)),
    {
        TypeExpr::Option(Box::new(inner))
    }

    pub fn result(ok: TypeExpr, err: TypeExpr) -> (ty: Self)
        ensures
            ty == (TypeExpr::Result { ok: Box::new(ok), err: Box::new(err) }),
    {
        TypeExpr::Result { ok: Box::new(ok), err: Box::new(err) }
    }

    pub fn map(key: TypeExpr, value: TypeExpr) -> (ty: Self)
        ensures
            ty == (TypeExpr::MapOf { key: Box::new(key), value: Box::new(value) }),
    {
        TypeExpr::MapOf { key: Box::new(key), value: Box::new(value) }
    }

    pub fn tuple(elements: Vec<TypeExpr>) -> (ty: Self)
        ensures
            ty == TypeExpr::Tuple(elements),
    {
        TypeExpr::Tuple(elements)
    }

    /// An inline closure, which must be passed.
    pub fn closure(signature: ClosureType) -> (ty: Self)
        ensures
            ty == (TypeExpr::Closure {
                signature: Box::new(signature),
                presence: HandlePresence::Required,
            }),
    {
        TypeExpr::Closure { signature: Box::new(signature), presence: HandlePresence::Required }
    }
}

impl ClosureType {
    pub fn new(kind: ClosureKind, parameters: Vec<TypeExpr>, output: ReturnDef) -> (ty: Self)
        ensures
            ty == (ClosureType { kind, parameters, output }),
    {
        ClosureType { kind, parameters, output }
    }
}

} // verus!
