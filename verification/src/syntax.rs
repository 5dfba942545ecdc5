//! The parts of Rust source syntax that the scanner reads, held as plain
//! values: paths, types, attributes, visibilities and items.
use vstd::prelude::*;

verus! {

/// A path such as `crate::geometry::Point<u32>`.
#[derive(Debug, Eq, PartialEq)]
pub struct SynPath {
    /// Whether the path starts with `::`.
    pub leading_colon: bool,
    pub segments: Vec<SynPathSegment>,
}

/// One segment of a path, with the arguments written after it.
#[derive(Debug, Eq, PartialEq)]
pub struct SynPathSegment {
    pub ident: String,
    pub arguments: PathArguments,
}

/// The arguments of a path segment: none, `<...>`, or `(...) -> ...`.
#[derive(Debug, Eq, PartialEq)]
pub enum PathArguments {
    /// No arguments.
    Bare,
    AngleBracketed(Vec<SynGenericArgument>),
    Parenthesized { inputs: Vec<SynType>, output: SynReturnType },
}

/// One argument between angle brackets.
#[derive(Debug, Eq, PartialEq)]
pub enum SynGenericArgument {
    Type(SynType),
    /// A lifetime, spelled with its quote, as in `'a`.
    Lifetime(String),
    Const,
    AssocType { ident: String, ty: SynType },
    AssocConst { ident: String },
    Constraint { ident: String },
    Other,
}

/// The return position of a function signature or an `Fn` bound.
#[derive(Debug, Eq, PartialEq)]
pub enum SynReturnType {
    Default,
    Type(Box<SynType>),
}

/// A bound in `impl ...` or `dyn ...`.
#[derive(Debug, Eq, PartialEq)]
pub enum SynTypeParamBound {
    Trait(TraitBound),
    /// A lifetime bound, spelled with its quote.
    Lifetime(String),
    Other,
}

/// A trait bound.
#[derive(Debug, Eq, PartialEq)]
pub struct TraitBound {
    /// Whether the bound is written with a modifier such as `?`.
    pub modified: bool,
    /// Whether the bound is written with `for<...>`.
    pub higher_ranked: bool,
    pub path: SynPath,
}

/// A bare function pointer type such as `fn(u32) -> i64`.
#[derive(Debug, Eq, PartialEq)]
pub struct BareFn {
    pub higher_ranked: bool,
    pub unsafety: bool,
    pub abi: bool,
    pub variadic: bool,
    pub inputs: Vec<SynType>,
    pub output: SynReturnType,
}

/// A type as written in source.
#[derive(Debug, Eq, PartialEq)]
pub enum SynType {
    /// `(T)`
    Paren(Box<SynType>),
    /// An invisible group left by macro expansion.
    Group(Box<SynType>),
    /// A path type; `qself` tells whether it is written `<T as Trait>::...`.
    Path { qself: bool, path: SynPath },
    /// `&T` or `&mut T`.
    Reference { mutable: bool, elem: Box<SynType> },
    /// `dyn A + B`
    TraitObject(Vec<SynTypeParamBound>),
    /// `impl A + B`
    ImplTrait(Vec<SynTypeParamBound>),
    /// `(A, B)`; `()` when empty.
    Tuple(Vec<SynType>),
    /// `[T]`
    Slice(Box<SynType>),
    /// `fn(...) -> ...`
    BareFn(BareFn),
    /// Any other shape, such as an array or a pointer.
    Other,
}

/// The meta of an attribute: a bare path, a list, or a name-value pair.
#[derive(Debug, Eq, PartialEq)]
pub enum Meta {
    Path,
    /// `path(tokens)`, with the tokens as rendered text.
    List { tokens: String },
    NameValue,
}

/// An outer attribute such as `#[boltffi::data(impl)]`.
#[derive(Debug, Eq, PartialEq)]
pub struct SynAttribute {
    pub path: SynPath,
    pub meta: Meta,
}

/// The visibility written on an item.
#[derive(Debug, Eq, PartialEq)]
pub enum SynVisibility {
    /// `pub`
    Public,
    /// `pub(crate)`, `pub(super)`, `pub(in path)`.
    Restricted(SynPath),
    /// No visibility.
    Inherited,
}

/// An item inside an `impl` block.
#[derive(Debug, Eq, PartialEq)]
pub enum SynImplItem {
    Fn { attrs: Vec<SynAttribute>, vis: SynVisibility, ident: String },
    Const { attrs: Vec<SynAttribute>, vis: SynVisibility, ident: String },
    Type { attrs: Vec<SynAttribute>, vis: SynVisibility, ident: String },
    Macro { attrs: Vec<SynAttribute>, path: SynPath },
    /// Tokens that are not parsed as an impl item.
    Other,
}

/// A field of a struct.
#[derive(Debug, Eq, PartialEq)]
pub struct Field {
    /// The field's name; a tuple struct's fields have none.
    pub ident: Option<String>,
    pub vis: SynVisibility,
    pub ty: SynType,
}

/// The fields of a struct.
#[derive(Debug, Eq, PartialEq)]
pub enum SynFields {
    /// `{ .. }` fields.
    Named(Vec<Field>),
    /// `( .. )` fields.
    Unnamed,
    /// No fields: `struct Marker;`.
    Unit,
}

/// An `impl` block.
#[derive(Debug, Eq, PartialEq)]
pub struct SynItemImpl {
    pub self_ty: SynType,
    /// Whether the block declares generic parameters.
    pub has_generic_params: bool,
    /// Whether the block has a `where` clause.
    pub has_where_clause: bool,
    /// Whether the block implements a trait.
    pub is_trait_impl: bool,
    pub items: Vec<SynImplItem>,
}

/// The kind of an item, with what the scanner reads of it.
#[derive(Debug, Eq, PartialEq)]
pub enum ItemKind {
    Const,
    Enum,
    ExternCrate,
    Fn,
    ForeignMod,
    Impl(SynItemImpl),
    Macro,
    /// A module; an inline one carries its items.
    Mod(Option<Vec<SynItem>>),
    Static,
    Struct(SynFields),
    Trait,
    TraitAlias,
    Type,
    Union,
    Use,
    /// Tokens that are not parsed as an item; they carry no attributes.
    Verbatim,
}

/// A top-level item of a module.
#[derive(Debug, Eq, PartialEq)]
pub struct SynItem {
    pub attrs: Vec<SynAttribute>,
    /// The item's name; empty where the item has none.
    pub ident: String,
    pub vis: SynVisibility,
    pub kind: ItemKind,
}

} // verus!
