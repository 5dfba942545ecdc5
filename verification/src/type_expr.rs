//! Scanning a source type against the crate's declared types, from inside
//! one module.
//!
//! A path that names a declared record, enum or class, relative to the
//! module or from `crate`, scans to that declaration; a callback trait is
//! used through `impl Trait`, `Box<dyn Trait>` or `Arc<dyn Trait>`, and
//! an optional class or trait object is a nullable handle. The standard
//! containers are recognized by their accepted paths, `Vec<u8>` and
//! `[u8]` are byte buffers, and parentheses are looked through. Anything
//! else is rejected with its source spelling.
use vstd::prelude::*;

use crate::ast::{
    type_view, type_views, ClassId, ClosureKind, ClosureType, EnumId, HandlePresence, Primitive,
    RecordId, ReturnDef, ReturnView, TraitId, TraitUseForm, TypeExpr, TypeView, return_view,
    write_closure, written_closure,
};
use crate::declared_types::{DeclaredKind, DeclaredTypes};
use crate::error::{ScanError, ScanErrorView};
use crate::path::{path_separator, spec_qualified, spec_resolve, ModulePath};
use crate::spelling::{path_idents, spell_path_idents, spell_type};
use crate::standard::{spec_from_leaf, spec_paths, StandardType};
use crate::syntax::{
    BareFn, PathArguments, SynGenericArgument, SynPath, SynPathSegment, SynReturnType, SynType,
    SynTypeParamBound, TraitBound,
};
use crate::text::{join, text_eq};
use crate::ty::{
    closure_bound, closure_kind, first_closure, first_closure_bound, is_closure_bound, is_unit,
    list_result, primitive, return_result, spec_closure_kind, spec_primitive, type_arg_indices,
    type_arg_positions, type_result,
};

verus! {

/// The error for a type the scanner does not take, with the type spelled
/// as written.
pub open spec fn unsupported(source: SynType) -> ScanErrorView {
    ScanErrorView::UnsupportedType { spelling: spell_type(source) }
}

fn refused(source: &SynType) -> (error: ScanError)
    ensures
        error@ == unsupported(*source),
{
    ScanError::UnsupportedType { spelling: crate::spelling::ty(source) }
}

/// Where a type is scanned from: the declared types of the crate by path,
/// and the segments of the module the type is written in.
pub type Scope = (Map<Seq<char>, DeclaredKind>, Seq<Seq<char>>);

/// The declaration a path names from the scope's module, with its fully
/// qualified path, if it names one.
pub open spec fn spec_lookup(scope: Scope, path: SynPath) -> Option<(Seq<char>, DeclaredKind)> {
    match spec_resolve(scope.1, path) {
        Some(segments) => {
            let qualified = join(segments, path_separator());
            if scope.0.contains_key(qualified) {
                Some((qualified, scope.0[qualified]))
            } else {
                None
            }
        },
        None => None,
    }
}

/// Whether no segment of a path carries arguments.
pub open spec fn is_bare(path: SynPath) -> bool {
    forall|i: int| 0 <= i < path.segments@.len() ==> (#[trigger] path.segments@[i]).arguments is Bare
}

/// The type a declaration is when a type names it: a record, an enum, or
/// a class handle with the given presence. A trait is no type by itself.
pub open spec fn spec_declared(kind: DeclaredKind, path: Seq<char>, presence: HandlePresence) -> Option<TypeView> {
    match kind {
        DeclaredKind::Record => Some(TypeView::Record(path)),
        DeclaredKind::Enum => Some(TypeView::Enum(path)),
        DeclaredKind::Class => Some(TypeView::Class { path, presence }),
        DeclaredKind::Trait => None,
    }
}

/// The contract type a source type scans to from `scope`; `source` is the
/// type as written, which a rejection names.
pub open spec fn spec_scan(scope: Scope, ty: SynType, source: SynType) -> Result<TypeView, ScanErrorView>
    decreases ty,
{
    match ty {
        SynType::Paren(inner) => spec_scan(scope, *inner, source),
        SynType::Group(inner) => spec_scan(scope, *inner, source),
        SynType::Path { qself, path } => if qself {
            Err(unsupported(source))
        } else {
            spec_path(scope, path, source)
        },
        SynType::ImplTrait(bounds) => spec_impl_trait(scope, bounds@, source),
        SynType::Slice(element) => match spec_scan(scope, *element, *element) {
            Ok(TypeView::Primitive(Primitive::U8)) => Ok(TypeView::Bytes),
            Ok(_) => Err(unsupported(source)),
            Err(error) => Err(error),
        },
        SynType::BareFn(function) => spec_bare_fn(scope, function, source, HandlePresence::Required),
        SynType::Tuple(elements) => if elements.len() == 0 {
            Ok(TypeView::Unit)
        } else {
            match spec_list(scope, elements@) {
                Ok(views) => Ok(TypeView::Tuple(views)),
                Err(error) => Err(error),
            }
        },
        _ => Err(unsupported(source)),
    }
}

/// The types a list of source types scans to; the first failure rejects
/// the list.
pub open spec fn spec_list(scope: Scope, types: Seq<SynType>) -> Result<Seq<TypeView>, ScanErrorView>
    decreases types,
{
    if types.len() == 0 {
        Ok(Seq::empty())
    } else {
        match spec_list(scope, types.drop_last()) {
            Err(error) => Err(error),
            Ok(views) => match spec_scan(scope, types.last(), types.last()) {
                Err(error) => Err(error),
                Ok(view) => Ok(views.push(view)),
            },
        }
    }
}

/// A path type: a bare primitive name; else a declaration the path names,
/// which must be written bare and be a record, an enum or a class; else a
/// standard type by its last segment and accepted path; else `Self`.
pub open spec fn spec_path(scope: Scope, path: SynPath, source: SynType) -> Result<TypeView, ScanErrorView>
    decreases path,
{
    let n = path.segments@.len();
    if is_bare(path) && n > 0 && spec_primitive(path.segments@[n - 1].ident@) is Some {
        Ok(TypeView::Primitive(spec_primitive(path.segments@[n - 1].ident@)->0))
    } else {
        match spec_lookup(scope, path) {
            Some((qualified, kind)) => if is_bare(path) {
                match spec_declared(kind, qualified, HandlePresence::Required) {
                    Some(view) => Ok(view),
                    None => Err(unsupported(source)),
                }
            } else {
                Err(unsupported(source))
            },
            None => if n == 0 {
                Err(unsupported(source))
            } else {
                spec_segment(scope, path.segments@[n - 1], spell_path_idents(path), source)
            },
        }
    }
}

/// The standard type a path's last segment names, when the path is one of
/// that type's accepted paths.
pub open spec fn spec_written_standard(leaf: Seq<char>, written: Seq<char>) -> Option<StandardType> {
    match spec_from_leaf(leaf) {
        Some(standard) => if spec_paths(standard).contains(written) {
            Some(standard)
        } else {
            None
        },
        None => None,
    }
}

/// A path that names no declaration, by its last segment and its spelling
/// `written`.
pub open spec fn spec_segment(scope: Scope, segment: SynPathSegment, written: Seq<char>, source: SynType) -> Result<
    TypeView,
    ScanErrorView,
>
    decreases segment,
{
    match spec_written_standard(segment.ident@, written) {
        Some(StandardType::String) => Ok(TypeView::String),
        Some(StandardType::Vec) => match spec_single(scope, segment.arguments, source) {
            Ok(TypeView::Primitive(Primitive::U8)) => Ok(TypeView::Bytes),
            Ok(element) => Ok(TypeView::Vec(Box::new(element))),
            Err(error) => Err(error),
        },
        Some(StandardType::Option) => spec_option(scope, segment.arguments, source),
        Some(StandardType::Result) => match spec_two(scope, segment.arguments, source) {
            Ok((ok, err)) => Ok(TypeView::Result { ok: Box::new(ok), err: Box::new(err) }),
            Err(error) => Err(error),
        },
        Some(StandardType::HashMap) | Some(StandardType::BTreeMap) => match spec_two(
            scope,
            segment.arguments,
            source,
        ) {
            Ok((key, value)) => Ok(TypeView::MapOf { key: Box::new(key), value: Box::new(value) }),
            Err(error) => Err(error),
        },
        Some(StandardType::Box) => spec_trait_object(
            scope,
            segment.arguments,
            source,
            TraitUseForm::BoxedDyn,
            HandlePresence::Required,
        ),
        Some(StandardType::Arc) => spec_trait_object(
            scope,
            segment.arguments,
            source,
            TraitUseForm::ArcDyn,
            HandlePresence::Required,
        ),
        None => if segment.ident@ == "Self"@ {
            Ok(TypeView::SelfType)
        } else {
            Err(unsupported(source))
        },
    }
}

/// The one type argument of a container, scanned; any other count of
/// type arguments rejects the container.
pub open spec fn spec_single(scope: Scope, arguments: PathArguments, source: SynType) -> Result<
    TypeView,
    ScanErrorView,
>
    decreases arguments,
{
    match arguments {
        PathArguments::AngleBracketed(args) => {
            let indices = type_arg_indices(args@);
            if indices.len() == 1 && 0 <= indices[0] < args.len() {
                match args@[indices[0]] {
                    SynGenericArgument::Type(argument) => spec_scan(scope, argument, argument),
                    _ => Err(unsupported(source)),
                }
            } else {
                Err(unsupported(source))
            }
        },
        _ => Err(unsupported(source)),
    }
}

/// The two type arguments of a container, scanned in order.
pub open spec fn spec_two(scope: Scope, arguments: PathArguments, source: SynType) -> Result<
    (TypeView, TypeView),
    ScanErrorView,
>
    decreases arguments,
{
    match arguments {
        PathArguments::AngleBracketed(args) => {
            let indices = type_arg_indices(args@);
            if indices.len() == 2 && 0 <= indices[0] < args.len() && 0 <= indices[1] < args.len() {
                match (args@[indices[0]], args@[indices[1]]) {
                    (SynGenericArgument::Type(first), SynGenericArgument::Type(second)) => match spec_scan(
                        scope,
                        first,
                        first,
                    ) {
                        Err(error) => Err(error),
                        Ok(first) => match spec_scan(scope, second, second) {
                            Err(error) => Err(error),
                            Ok(second) => Ok((first, second)),
                        },
                    },
                    _ => Err(unsupported(source)),
                }
            } else {
                Err(unsupported(source))
            }
        },
        _ => Err(unsupported(source)),
    }
}

/// An `Option`: a boxed closure, a boxed or shared trait object, or a
/// class that may be absent is a nullable handle; anything else is an
/// optional value.
pub open spec fn spec_option(scope: Scope, arguments: PathArguments, source: SynType) -> Result<
    TypeView,
    ScanErrorView,
>
    decreases arguments,
{
    match arguments {
        PathArguments::AngleBracketed(args) => {
            let indices = type_arg_indices(args@);
            if indices.len() == 1 && 0 <= indices[0] < args.len() {
                match args@[indices[0]] {
                    SynGenericArgument::Type(inner) => match spec_nullable(scope, inner) {
                        Some(result) => result,
                        None => match spec_scan(scope, inner, inner) {
                            Ok(view) => Ok(TypeView::Option(Box::new(view))),
                            Err(error) => Err(error),
                        },
                    },
                    _ => Err(unsupported(source)),
                }
            } else {
                Err(unsupported(source))
            }
        },
        _ => Err(unsupported(source)),
    }
}

/// The standard type a path's last segment names, refused where the path
/// names a declaration of the crate.
pub open spec fn spec_standard(scope: Scope, path: SynPath, source: SynType) -> Result<
    Option<StandardType>,
    ScanErrorView,
> {
    let n = path.segments@.len();
    if n == 0 || spec_from_leaf(path.segments@[n - 1].ident@) is None {
        Ok(None)
    } else if spec_lookup(scope, path) is Some {
        Err(unsupported(source))
    } else {
        Ok(spec_written_standard(path.segments@[n - 1].ident@, spell_path_idents(path)))
    }
}

/// The nullable handle an `Option`'s argument `inner` is, if it is one.
pub open spec fn spec_nullable(scope: Scope, inner: SynType) -> Option<Result<TypeView, ScanErrorView>>
    decreases inner,
{
    match inner {
        SynType::Path { qself, path } => {
            let n = path.segments@.len();
            if qself || n == 0 {
                None
            } else {
                let segment = path.segments@[n - 1];
                match spec_standard(scope, path, inner) {
                    Err(error) => Some(Err(error)),
                    Ok(Some(StandardType::Box)) => match spec_boxed_closure(
                        scope,
                        segment.arguments,
                        inner,
                    ) {
                        Some(result) => Some(result),
                        None => Some(
                            spec_trait_object(
                                scope,
                                segment.arguments,
                                inner,
                                TraitUseForm::BoxedDyn,
                                HandlePresence::Nullable,
                            ),
                        ),
                    },
                    Ok(Some(StandardType::Arc)) => Some(
                        spec_trait_object(
                            scope,
                            segment.arguments,
                            inner,
                            TraitUseForm::ArcDyn,
                            HandlePresence::Nullable,
                        ),
                    ),
                    Ok(_) => if is_bare(path) {
                        match spec_lookup(scope, path) {
                            Some((qualified, DeclaredKind::Class)) => Some(
                                Ok(TypeView::Class { path: qualified, presence: HandlePresence::Nullable }),
                            ),
                            _ => None,
                        }
                    } else {
                        None
                    },
                }
            }
        },
        SynType::BareFn(function) => Some(spec_bare_fn(scope, function, inner, HandlePresence::Nullable)),
        _ => None,
    }
}

/// A boxed closure that may be absent: `Box<dyn Fn..(..)>`; a box of one
/// other trait is none, anything else is rejected.
pub open spec fn spec_boxed_closure(scope: Scope, arguments: PathArguments, source: SynType) -> Option<
    Result<TypeView, ScanErrorView>,
>
    decreases arguments,
{
    match arguments {
        PathArguments::AngleBracketed(args) => {
            let indices = type_arg_indices(args@);
            if indices.len() == 1 && 0 <= indices[0] < args.len() {
                match args@[indices[0]] {
                    SynGenericArgument::Type(SynType::TraitObject(bounds)) => if bounds.len() == 1 {
                        match bounds@[0] {
                            SynTypeParamBound::Trait(bound) => if is_closure_bound(bound) {
                                Some(spec_closure(scope, bound, source, HandlePresence::Nullable, true))
                            } else {
                                None
                            },
                            _ => Some(Err(unsupported(source))),
                        }
                    } else {
                        Some(Err(unsupported(source)))
                    },
                    _ => Some(Err(unsupported(source))),
                }
            } else {
                Some(Err(unsupported(source)))
            }
        },
        _ => Some(Err(unsupported(source))),
    }
}

/// `Box<dyn ..>` or `Arc<dyn ..>` of one trait: a boxed closure, or a
/// declared callback trait in the given form.
pub open spec fn spec_trait_object(
    scope: Scope,
    arguments: PathArguments,
    source: SynType,
    form: TraitUseForm,
    presence: HandlePresence,
) -> Result<TypeView, ScanErrorView>
    decreases arguments,
{
    match arguments {
        PathArguments::AngleBracketed(args) => {
            let indices = type_arg_indices(args@);
            if indices.len() == 1 && 0 <= indices[0] < args.len() {
                match args@[indices[0]] {
                    SynGenericArgument::Type(SynType::TraitObject(bounds)) => if bounds.len() == 1 {
                        match bounds@[0] {
                            SynTypeParamBound::Trait(bound) => if is_closure_bound(bound) && form
                                == TraitUseForm::BoxedDyn {
                                spec_closure(scope, bound, source, presence, true)
                            } else {
                                spec_trait_bound(scope, bound, source, form, presence)
                            },
                            _ => Err(unsupported(source)),
                        }
                    } else {
                        Err(unsupported(source))
                    },
                    _ => Err(unsupported(source)),
                }
            } else {
                Err(unsupported(source))
            }
        },
        _ => Err(unsupported(source)),
    }
}

/// The closure an `Fn`-family bound describes; when `checked`, a bound
/// with a modifier or `for<..>` is rejected.
pub open spec fn spec_closure(
    scope: Scope,
    bound: TraitBound,
    source: SynType,
    presence: HandlePresence,
    checked: bool,
) -> Result<TypeView, ScanErrorView>
    decreases bound,
{
    let segments = bound.path.segments@;
    if checked && (bound.modified || bound.higher_ranked) {
        Err(unsupported(source))
    } else if segments.len() == 0 {
        Err(unsupported(source))
    } else {
        match (spec_closure_kind(segments.last().ident@), segments.last().arguments) {
            (Some(kind), PathArguments::Parenthesized { inputs, output }) => match spec_list(
                scope,
                inputs@,
            ) {
                Err(error) => Err(error),
                Ok(parameters) => match spec_return(scope, output) {
                    Err(error) => Err(error),
                    Ok(returned) => Ok(
                        TypeView::Closure {
                            kind: written_closure(kind, checked),
                            parameters,
                            output: returned,
                            presence,
                        },
                    ),
                },
            },
            _ => Err(unsupported(source)),
        }
    }
}

/// A declared callback trait used through a bound: the bound must be
/// plain, written without arguments, and name a declared trait.
pub open spec fn spec_trait_bound(
    scope: Scope,
    bound: TraitBound,
    source: SynType,
    form: TraitUseForm,
    presence: HandlePresence,
) -> Result<TypeView, ScanErrorView> {
    if bound.modified || bound.higher_ranked || !is_bare(bound.path) {
        Err(unsupported(source))
    } else {
        match spec_lookup(scope, bound.path) {
            Some((qualified, DeclaredKind::Trait)) => Ok(
                TypeView::Trait { path: qualified, form, presence },
            ),
            _ => Err(unsupported(source)),
        }
    }
}

/// An `impl` type: its first `Fn`-family bound makes a closure; without
/// one, a single bound must name a declared callback trait.
pub open spec fn spec_impl_trait(scope: Scope, bounds: Seq<SynTypeParamBound>, source: SynType) -> Result<
    TypeView,
    ScanErrorView,
>
    decreases bounds,
{
    match first_closure_bound(bounds) {
        Some(i) => if 0 <= i < bounds.len() {
            match bounds[i] {
                SynTypeParamBound::Trait(bound) => spec_closure(
                    scope,
                    bound,
                    source,
                    HandlePresence::Required,
                    false,
                ),
                _ => Err(unsupported(source)),
            }
        } else {
            Err(unsupported(source))
        },
        None => if bounds.len() == 1 {
            match bounds[0] {
                SynTypeParamBound::Trait(bound) => spec_trait_bound(
                    scope,
                    bound,
                    source,
                    TraitUseForm::ImplTrait,
                    HandlePresence::Required,
                ),
                _ => Err(unsupported(source)),
            }
        } else {
            Err(unsupported(source))
        },
    }
}

/// What a return position records: nothing written, or `()`, is void.
/// A plain `fn` pointer: a closure of its parameters and return; one
/// written with `for<..>`, `unsafe`, an ABI or a variadic part is refused.
pub open spec fn spec_bare_fn(scope: Scope, function: BareFn, source: SynType, presence: HandlePresence) -> Result<
    TypeView,
    ScanErrorView,
>
    decreases function,
{
    if function.higher_ranked || function.unsafety || function.abi || function.variadic {
        Err(unsupported(source))
    } else {
        match spec_list(scope, function.inputs@) {
            Err(error) => Err(error),
            Ok(parameters) => match spec_return(scope, function.output) {
                Err(error) => Err(error),
                Ok(returned) => Ok(
                    TypeView::Closure {
                        kind: ClosureKind::FunctionPointer,
                        parameters,
                        output: returned,
                        presence,
                    },
                ),
            },
        }
    }
}

pub open spec fn spec_return(scope: Scope, output: SynReturnType) -> Result<ReturnView, ScanErrorView>
    decreases output,
{
    match output {
        SynReturnType::Default => Ok(ReturnView::Void),
        SynReturnType::Type(ty) => if is_unit(*ty) {
            Ok(ReturnView::Void)
        } else {
            match spec_scan(scope, *ty, *ty) {
                Ok(view) => Ok(ReturnView::Value(Box::new(view))),
                Err(error) => Err(error),
            }
        },
    }
}

/// A scanner of source types from inside one module of a crate whose
/// types are declared.
pub struct Scanner<'a> {
    pub declared: &'a DeclaredTypes,
    pub module: &'a ModulePath,
}

/// A declaration taken by its view.
pub open spec fn found_view(found: Option<(String, DeclaredKind)>) -> Option<(Seq<char>, DeclaredKind)> {
    match found {
        Some((path, kind)) => Some((path@, kind)),
        None => None,
    }
}

/// A nullable-handle result taken by its view.
pub open spec fn maybe_result(result: Option<Result<TypeExpr, ScanError>>) -> Option<
    Result<TypeView, ScanErrorView>,
> {
    match result {
        Some(r) => Some(type_result(r)),
        None => None,
    }
}

/// Whether no segment of a path carries arguments.
pub fn bare(path: &SynPath) -> (is: bool)
    ensures
        is == is_bare(*path),
{
    let mut i: usize = 0;
    while i < path.segments.len()
        invariant
            i <= path.segments.len(),
            forall|j: int| 0 <= j < i ==> (#[trigger] path.segments@[j]).arguments is Bare,
        decreases path.segments.len() - i,
    {
        match &path.segments[i].arguments {
            PathArguments::Bare => {},
            _ => return false,
        }
        i = i + 1;
    }
    true
}

fn declared_expr(kind: DeclaredKind, path: String, presence: HandlePresence) -> (ty: Option<TypeExpr>)
    ensures
        match (ty, spec_declared(kind, path@, presence)) {
            (Some(t), Some(view)) => type_view(t) == view,
            (None, None) => true,
            _ => false,
        },
{
    match kind {
        DeclaredKind::Record => Some(TypeExpr::Record(RecordId(path))),
        DeclaredKind::Enum => Some(TypeExpr::Enum(EnumId(path))),
        DeclaredKind::Class => Some(TypeExpr::Class { id: ClassId(path), presence }),
        DeclaredKind::Trait => None,
    }
}

fn written_standard(leaf: &str, written: &str) -> (standard: Option<StandardType>)
    ensures
        standard == spec_written_standard(leaf@, written@),
{
    match StandardType::from_leaf(leaf) {
        Some(standard) => if standard.accepts_path(written) {
            Some(standard)
        } else {
            None
        },
        None => None,
    }
}

impl<'a> Scanner<'a> {
    /// The scope this scanner reads from.
    pub open spec fn scope(&self) -> Scope {
        (self.declared@, self.module@)
    }

    /// The declaration `path` names from the module, if any.
    pub fn lookup(&self, path: &SynPath) -> (found: Option<(String, DeclaredKind)>)
        ensures
            found_view(found) == spec_lookup(self.scope(), *path),
    {
        match self.module.resolve(path) {
            Some(qualified) => match self.declared.resolve(qualified.as_str()) {
                Some(declared) => Some((qualified, declared.kind())),
                None => None,
            },
            None => None,
        }
    }

    /// Scans a source type; see [`spec_scan`].
    pub fn scan(&self, ty: &SynType) -> (scanned: Result<TypeExpr, ScanError>)
        ensures
            type_result(scanned) == spec_scan(self.scope(), *ty, *ty),
    {
        self.scan_at(ty, ty)
    }

    fn scan_at(&self, ty: &SynType, source: &SynType) -> (scanned: Result<TypeExpr, ScanError>)
        ensures
            type_result(scanned) == spec_scan(self.scope(), *ty, *source),
        decreases ty,
    {
        match ty {
            SynType::Paren(inner) => self.scan_at(inner, source),
            SynType::Group(inner) => self.scan_at(inner, source),
            SynType::Path { qself, path } => {
                if *qself {
                    Err(refused(source))
                } else {
                    self.path(path, source)
                }
            },
            SynType::ImplTrait(bounds) => self.impl_trait(bounds, source),
            SynType::Slice(element) => match self.scan_at(element, element) {
                Ok(TypeExpr::Primitive(Primitive::U8)) => Ok(TypeExpr::Bytes),
                Ok(_) => Err(refused(source)),
                Err(error) => Err(error),
            },
            SynType::BareFn(function) => self.bare_fn(function, source, HandlePresence::Required),
            SynType::Tuple(elements) => {
                if elements.len() == 0 {
                    Ok(TypeExpr::Unit)
                } else {
                    match self.list(elements) {
                        Ok(types) => Ok(TypeExpr::tuple(types)),
                        Err(error) => Err(error),
                    }
                }
            },
            _ => Err(refused(source)),
        }
    }

    fn list(&self, types: &Vec<SynType>) -> (scanned: Result<Vec<TypeExpr>, ScanError>)
        ensures
            list_result(scanned) == spec_list(self.scope(), types@),
        decreases types,
    {
        let mut scanned: Vec<TypeExpr> = Vec::new();
        let mut i: usize = 0;
        while i < types.len()
            invariant
                i <= types.len(),
                spec_list(self.scope(), types@.take(i as int)) == Ok::<Seq<TypeView>, ScanErrorView>(
                    type_views(scanned@),
                ),
            decreases types.len() - i,
        {
            proof {
                assert(types@.take(i + 1).drop_last() =~= types@.take(i as int));
                assert(types@.take(i + 1).last() == types@[i as int]);
                assert(decreases_to!(types => types@[i as int]));
            }
            match self.scan_at(&types[i], &types[i]) {
                Ok(ty) => {
                    let ghost before = scanned@;
                    scanned.push(ty);
                    proof {
                        assert(scanned@.drop_last() =~= before);
                    }
                },
                Err(error) => {
                    proof {
                        lemma_list_stops(self.scope(), types@, i + 1);
                    }
                    return Err(error);
                },
            }
            i = i + 1;
        }
        proof {
            assert(types@.take(types.len() as int) =~= types@);
        }
        Ok(scanned)
    }

    fn path(&self, path: &SynPath, source: &SynType) -> (scanned: Result<TypeExpr, ScanError>)
        ensures
            type_result(scanned) == spec_path(self.scope(), *path, *source),
        decreases path,
    {
        let n = path.segments.len();
        let is_bare = bare(path);
        if is_bare && n > 0 {
            match primitive(path.segments[n - 1].ident.as_str()) {
                Some(p) => return Ok(TypeExpr::Primitive(p)),
                None => {},
            }
        }
        match self.lookup(path) {
            Some((qualified, kind)) => {
                if is_bare {
                    match declared_expr(kind, qualified, HandlePresence::Required) {
                        Some(ty) => Ok(ty),
                        None => Err(refused(source)),
                    }
                } else {
                    Err(refused(source))
                }
            },
            None => {
                if n == 0 {
                    Err(refused(source))
                } else {
                    let written = path_idents(path);
                    self.segment(&path.segments[n - 1], written.as_str(), source)
                }
            },
        }
    }

    fn segment(&self, segment: &SynPathSegment, written: &str, source: &SynType) -> (scanned: Result<TypeExpr, ScanError>)
        ensures
            type_result(scanned) == spec_segment(self.scope(), *segment, written@, *source),
        decreases segment,
    {
        match written_standard(segment.ident.as_str(), written) {
            Some(StandardType::String) => Ok(TypeExpr::String),
            Some(StandardType::Vec) => match self.single(&segment.arguments, source) {
                Ok(TypeExpr::Primitive(Primitive::U8)) => Ok(TypeExpr::Bytes),
                Ok(element) => Ok(TypeExpr::vec(element)),
                Err(error) => Err(error),
            },
            Some(StandardType::Option) => self.option(&segment.arguments, source),
            Some(StandardType::Result) => match self.two(&segment.arguments, source) {
                Ok((ok, err)) => Ok(TypeExpr::result(ok, err)),
                Err(error) => Err(error),
            },
            Some(StandardType::HashMap) | Some(StandardType::BTreeMap) => match self.two(&segment.arguments, source) {
                Ok((key, value)) => Ok(TypeExpr::map(key, value)),
                Err(error) => Err(error),
            },
            Some(StandardType::Box) => self.trait_object(
                &segment.arguments,
                source,
                TraitUseForm::BoxedDyn,
                HandlePresence::Required,
            ),
            Some(StandardType::Arc) => self.trait_object(
                &segment.arguments,
                source,
                TraitUseForm::ArcDyn,
                HandlePresence::Required,
            ),
            None => {
                proof {
                    reveal_strlit("Self");
                }
                if text_eq(segment.ident.as_str(), "Self") {
                    Ok(TypeExpr::SelfType)
                } else {
                    Err(refused(source))
                }
            },
        }
    }

    fn single(&self, arguments: &PathArguments, source: &SynType) -> (scanned: Result<TypeExpr, ScanError>)
        ensures
            type_result(scanned) == spec_single(self.scope(), *arguments, *source),
        decreases arguments,
    {
        match arguments {
            PathArguments::AngleBracketed(args) => {
                let positions = type_arg_positions(args);
                if positions.len() == 1 {
                    match &args[positions[0]] {
                        SynGenericArgument::Type(argument) => self.scan_at(argument, argument),
                        _ => Err(refused(source)),
                    }
                } else {
                    Err(refused(source))
                }
            },
            _ => Err(refused(source)),
        }
    }

    fn two(&self, arguments: &PathArguments, source: &SynType) -> (scanned: Result<(TypeExpr, TypeExpr), ScanError>)
        ensures
            match spec_two(self.scope(), *arguments, *source) {
                Ok((first, second)) => scanned matches Ok((a, b)) && type_view(a) == first
                    && type_view(b) == second,
                Err(error) => scanned matches Err(e) && e@ == error,
            },
        decreases arguments,
    {
        match arguments {
            PathArguments::AngleBracketed(args) => {
                let positions = type_arg_positions(args);
                if positions.len() == 2 {
                    match (&args[positions[0]], &args[positions[1]]) {
                        (SynGenericArgument::Type(first), SynGenericArgument::Type(second)) => {
                            let first = match self.scan_at(first, first) {
                                Ok(first) => first,
                                Err(error) => return Err(error),
                            };
                            let second = match self.scan_at(second, second) {
                                Ok(second) => second,
                                Err(error) => return Err(error),
                            };
                            Ok((first, second))
                        },
                        _ => Err(refused(source)),
                    }
                } else {
                    Err(refused(source))
                }
            },
            _ => Err(refused(source)),
        }
    }

    fn option(&self, arguments: &PathArguments, source: &SynType) -> (scanned: Result<TypeExpr, ScanError>)
        ensures
            type_result(scanned) == spec_option(self.scope(), *arguments, *source),
        decreases arguments,
    {
        match arguments {
            PathArguments::AngleBracketed(args) => {
                let positions = type_arg_positions(args);
                if positions.len() == 1 {
                    match &args[positions[0]] {
                        SynGenericArgument::Type(inner) => match self.nullable(inner) {
                            Some(result) => result,
                            None => match self.scan_at(inner, inner) {
                                Ok(ty) => Ok(TypeExpr::option(ty)),
                                Err(error) => Err(error),
                            },
                        },
                        _ => Err(refused(source)),
                    }
                } else {
                    Err(refused(source))
                }
            },
            _ => Err(refused(source)),
        }
    }

    fn standard(&self, path: &SynPath, source: &SynType) -> (standard: Result<Option<StandardType>, ScanError>)
        ensures
            match (standard, spec_standard(self.scope(), *path, *source)) {
                (Ok(s), Ok(expected)) => s == expected,
                (Err(e), Err(expected)) => e@ == expected,
                _ => false,
            },
    {
        let n = path.segments.len();
        if n == 0 {
            return Ok(None);
        }
        if StandardType::from_leaf(path.segments[n - 1].ident.as_str()).is_none() {
            return Ok(None);
        }
        if self.lookup(path).is_some() {
            return Err(refused(source));
        }
        let written = path_idents(path);
        Ok(written_standard(path.segments[n - 1].ident.as_str(), written.as_str()))
    }

    fn nullable(&self, inner: &SynType) -> (result: Option<Result<TypeExpr, ScanError>>)
        ensures
            maybe_result(result) == spec_nullable(self.scope(), *inner),
        decreases inner,
    {
        match inner {
            SynType::Path { qself, path } => {
                let n = path.segments.len();
                if *qself || n == 0 {
                    return None;
                }
                let segment = &path.segments[n - 1];
                match self.standard(path, inner) {
                    Err(error) => Some(Err(error)),
                    Ok(Some(StandardType::Box)) => match self.boxed_closure(&segment.arguments, inner) {
                        Some(result) => Some(result),
                        None => Some(
                            self.trait_object(
                                &segment.arguments,
                                inner,
                                TraitUseForm::BoxedDyn,
                                HandlePresence::Nullable,
                            ),
                        ),
                    },
                    Ok(Some(StandardType::Arc)) => Some(
                        self.trait_object(
                            &segment.arguments,
                            inner,
                            TraitUseForm::ArcDyn,
                            HandlePresence::Nullable,
                        ),
                    ),
                    Ok(_) => {
                        if bare(path) {
                            match self.lookup(path) {
                                Some((qualified, DeclaredKind::Class)) => Some(
                                    Ok(TypeExpr::Class { id: ClassId(qualified), presence: HandlePresence::Nullable }),
                                ),
                                _ => None,
                            }
                        } else {
                            None
                        }
                    },
                }
            },
            SynType::BareFn(function) => Some(self.bare_fn(function, inner, HandlePresence::Nullable)),
            _ => None,
        }
    }

    fn boxed_closure(&self, arguments: &PathArguments, source: &SynType) -> (result: Option<Result<TypeExpr, ScanError>>)
        ensures
            maybe_result(result) == spec_boxed_closure(self.scope(), *arguments, *source),
        decreases arguments,
    {
        match arguments {
            PathArguments::AngleBracketed(args) => {
                let positions = type_arg_positions(args);
                if positions.len() == 1 {
                    match &args[positions[0]] {
                        SynGenericArgument::Type(SynType::TraitObject(bounds)) => {
                            if bounds.len() == 1 {
                                match &bounds[0] {
                                    SynTypeParamBound::Trait(bound) => {
                                        if closure_bound(bound) {
                                            Some(self.closure(bound, source, HandlePresence::Nullable, true))
                                        } else {
                                            None
                                        }
                                    },
                                    _ => Some(Err(refused(source))),
                                }
                            } else {
                                Some(Err(refused(source)))
                            }
                        },
                        _ => Some(Err(refused(source))),
                    }
                } else {
                    Some(Err(refused(source)))
                }
            },
            _ => Some(Err(refused(source))),
        }
    }

    fn trait_object(
        &self,
        arguments: &PathArguments,
        source: &SynType,
        form: TraitUseForm,
        presence: HandlePresence,
    ) -> (scanned: Result<TypeExpr, ScanError>)
        ensures
            type_result(scanned) == spec_trait_object(self.scope(), *arguments, *source, form, presence),
        decreases arguments,
    {
        match arguments {
            PathArguments::AngleBracketed(args) => {
                let positions = type_arg_positions(args);
                if positions.len() == 1 {
                    match &args[positions[0]] {
                        SynGenericArgument::Type(SynType::TraitObject(bounds)) => {
                            if bounds.len() == 1 {
                                match &bounds[0] {
                                    SynTypeParamBound::Trait(bound) => {
                                        if closure_bound(bound) && matches!(form, TraitUseForm::BoxedDyn) {
                                            self.closure(bound, source, presence, true)
                                        } else {
                                            self.trait_bound(bound, source, form, presence)
                                        }
                                    },
                                    _ => Err(refused(source)),
                                }
                            } else {
                                Err(refused(source))
                            }
                        },
                        _ => Err(refused(source)),
                    }
                } else {
                    Err(refused(source))
                }
            },
            _ => Err(refused(source)),
        }
    }

    fn closure(&self, bound: &TraitBound, source: &SynType, presence: HandlePresence, checked: bool) -> (scanned: Result<TypeExpr, ScanError>)
        ensures
            type_result(scanned) == spec_closure(self.scope(), *bound, *source, presence, checked),
        decreases bound,
    {
        if checked && (bound.modified || bound.higher_ranked) {
            return Err(refused(source));
        }
        let n = bound.path.segments.len();
        if n == 0 {
            return Err(refused(source));
        }
        let last = &bound.path.segments[n - 1];
        match (closure_kind(last.ident.as_str()), &last.arguments) {
            (Some(kind), PathArguments::Parenthesized { inputs, output }) => {
                let parameters = match self.list(inputs) {
                    Ok(parameters) => parameters,
                    Err(error) => return Err(error),
                };
                let returned = match self.scan_return(output) {
                    Ok(returned) => returned,
                    Err(error) => return Err(error),
                };
                let written = write_closure(kind, checked);
                Ok(TypeExpr::Closure { signature: Box::new(ClosureType::new(written, parameters, returned)), presence })
            },
            _ => Err(refused(source)),
        }
    }

    fn bare_fn(&self, function: &BareFn, source: &SynType, presence: HandlePresence) -> (scanned: Result<TypeExpr, ScanError>)
        ensures
            type_result(scanned) == spec_bare_fn(self.scope(), *function, *source, presence),
        decreases function,
    {
        if function.higher_ranked || function.unsafety || function.abi || function.variadic {
            return Err(refused(source));
        }
        let parameters = match self.list(&function.inputs) {
            Ok(parameters) => parameters,
            Err(error) => return Err(error),
        };
        let returned = match self.scan_return(&function.output) {
            Ok(returned) => returned,
            Err(error) => return Err(error),
        };
        Ok(
            TypeExpr::Closure {
                signature: Box::new(ClosureType::new(ClosureKind::FunctionPointer, parameters, returned)),
                presence,
            },
        )
    }

    fn trait_bound(
        &self,
        bound: &TraitBound,
        source: &SynType,
        form: TraitUseForm,
        presence: HandlePresence,
    ) -> (scanned: Result<TypeExpr, ScanError>)
        ensures
            type_result(scanned) == spec_trait_bound(self.scope(), *bound, *source, form, presence),
    {
        if bound.modified || bound.higher_ranked || !bare(&bound.path) {
            return Err(refused(source));
        }
        match self.lookup(&bound.path) {
            Some((qualified, DeclaredKind::Trait)) => Ok(TypeExpr::Trait { id: TraitId(qualified), form, presence }),
            _ => Err(refused(source)),
        }
    }

    fn impl_trait(&self, bounds: &Vec<SynTypeParamBound>, source: &SynType) -> (scanned: Result<TypeExpr, ScanError>)
        ensures
            type_result(scanned) == spec_impl_trait(self.scope(), bounds@, *source),
        decreases bounds,
    {
        match first_closure(bounds) {
            Some(i) => match &bounds[i] {
                SynTypeParamBound::Trait(bound) => {
                    proof {
                        assert(bounds@[i as int] == SynTypeParamBound::Trait(*bound));
                    }
                    self.closure(bound, source, HandlePresence::Required, false)
                },
                _ => Err(refused(source)),
            },
            None => {
                if bounds.len() == 1 {
                    match &bounds[0] {
                        SynTypeParamBound::Trait(bound) => self.trait_bound(
                            bound,
                            source,
                            TraitUseForm::ImplTrait,
                            HandlePresence::Required,
                        ),
                        _ => Err(refused(source)),
                    }
                } else {
                    Err(refused(source))
                }
            },
        }
    }

    /// Scans a callable's return position; see [`spec_return`].
    pub fn scan_return(&self, output: &SynReturnType) -> (scanned: Result<ReturnDef, ScanError>)
        ensures
            return_result(scanned) == spec_return(self.scope(), *output),
        decreases output,
    {
        match output {
            SynReturnType::Default => Ok(ReturnDef::Void),
            SynReturnType::Type(ty) => {
                let unit = match &**ty {
                    SynType::Tuple(elements) => elements.len() == 0,
                    _ => false,
                };
                if unit {
                    Ok(ReturnDef::Void)
                } else {
                    match self.scan_at(ty, ty) {
                        Ok(scanned) => Ok(ReturnDef::Value(scanned)),
                        Err(error) => Err(error),
                    }
                }
            },
        }
    }
}

/// Once a prefix of a list fails to scan, the whole list fails with the
/// same error.
proof fn lemma_list_stops(scope: Scope, types: Seq<SynType>, n: int)
    requires
        0 <= n <= types.len(),
        spec_list(scope, types.take(n)) is Err,
    ensures
        spec_list(scope, types) == spec_list(scope, types.take(n)),
    decreases types.len() - n,
{
    if n == types.len() {
        assert(types.take(n) =~= types);
    } else {
        assert(types.take(n + 1).drop_last() =~= types.take(n));
        assert(spec_list(scope, types.take(n + 1)) == spec_list(scope, types.take(n)));
        lemma_list_stops(scope, types, n + 1);
    }
}

/// A declared record, enum or class named bare from the module it is
/// declared in scans to that declaration: the index is built before any
/// type is scanned, so where the declaration stands does not matter.
pub proof fn lemma_bare_name_resolves(
    declared: Map<Seq<char>, DeclaredKind>,
    module: Seq<Seq<char>>,
    path: SynPath,
    source: SynType,
)
    requires
        module.len() > 0,
        !path.leading_colon,
        path.segments@.len() == 1,
        path.segments@[0].arguments is Bare,
        path.segments@[0].ident@ != "self"@,
        path.segments@[0].ident@ != "super"@,
        path.segments@[0].ident@ != "crate"@,
        spec_primitive(path.segments@[0].ident@) is None,
        declared.contains_key(spec_qualified(module, path.segments@[0].ident@)),
        declared[spec_qualified(module, path.segments@[0].ident@)] != DeclaredKind::Trait,
    ensures
        spec_path((declared, module), path, source) == Ok::<TypeView, ScanErrorView>(
            spec_declared(
                declared[spec_qualified(module, path.segments@[0].ident@)],
                spec_qualified(module, path.segments@[0].ident@),
                HandlePresence::Required,
            )->0,
        ),
{
    let ident = path.segments@[0].ident@;
    let idents = crate::spelling::segment_idents(path.segments@);
    assert(idents =~= seq![ident]);
    assert(module + idents =~= module.push(ident));
    let joined = join(module.push(ident), path_separator());
    assert(module.push(ident).drop_last() =~= module);
    assert(joined == spec_qualified(module, ident));
    assert(is_bare(path));
}

} // verus!
