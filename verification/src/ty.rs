//! Scanning a source type into a contract type expression.
//!
//! Primitives, `String`, the standard containers (`Vec`, `Option`,
//! `Result`, `HashMap` and `BTreeMap`), tuples and inline `impl Fn`-family
//! closures are recognized; containers are told apart by the last segment
//! of their path. Any other type is rejected with its source spelling
//! rather than dropped.
use vstd::prelude::*;

use crate::ast::{
    return_view, type_view, type_views, ClosureKind, ClosureType, HandlePresence, Primitive,
    ReturnDef, ReturnView, TypeExpr, TypeView,
};
use crate::error::{spec_type_spelling, ScanError, ScanErrorView};
use crate::syntax::{
    SynGenericArgument, PathArguments, SynPathSegment, SynReturnType, SynPath, SynType, TraitBound,
    SynTypeParamBound,
};
use crate::text::text_eq;

verus! {

/// The error for an unsupported source type.
pub open spec fn unsupported(source: SynType) -> ScanErrorView {
    ScanErrorView::UnsupportedType { spelling: spec_type_spelling(source) }
}

/// The primitive a type name denotes, if any.
pub open spec fn spec_primitive(name: Seq<char>) -> Option<Primitive> {
    if name == "bool"@ {
        Some(Primitive::Bool)
    } else if name == "i8"@ {
        Some(Primitive::I8)
    } else if name == "u8"@ {
        Some(Primitive::U8)
    } else if name == "i16"@ {
        Some(Primitive::I16)
    } else if name == "u16"@ {
        Some(Primitive::U16)
    } else if name == "i32"@ {
        Some(Primitive::I32)
    } else if name == "u32"@ {
        Some(Primitive::U32)
    } else if name == "i64"@ {
        Some(Primitive::I64)
    } else if name == "u64"@ {
        Some(Primitive::U64)
    } else if name == "isize"@ {
        Some(Primitive::ISize)
    } else if name == "usize"@ {
        Some(Primitive::USize)
    } else if name == "f32"@ {
        Some(Primitive::F32)
    } else if name == "f64"@ {
        Some(Primitive::F64)
    } else {
        None
    }
}

/// The `Fn` trait a bound's name denotes, if any.
pub open spec fn spec_closure_kind(name: Seq<char>) -> Option<ClosureKind> {
    if name == "Fn"@ {
        Some(ClosureKind::Fn)
    } else if name == "FnMut"@ {
        Some(ClosureKind::FnMut)
    } else if name == "FnOnce"@ {
        Some(ClosureKind::FnOnce)
    } else {
        None
    }
}

/// The positions of the type arguments among `arguments`.
pub open spec fn type_arg_indices(arguments: Seq<SynGenericArgument>) -> Seq<int>
    decreases arguments.len(),
{
    if arguments.len() == 0 {
        Seq::empty()
    } else {
        let before = type_arg_indices(arguments.drop_last());
        match arguments.last() {
            SynGenericArgument::Type(_) => before.push(arguments.len() - 1),
            _ => before,
        }
    }
}

/// Whether a trait bound is an `Fn`, `FnMut` or `FnOnce` bound written with
/// parenthesized arguments.
pub open spec fn is_closure_bound(bound: TraitBound) -> bool {
    let segments = bound.path.segments@;
    segments.len() > 0 && spec_closure_kind(segments.last().ident@) is Some
        && segments.last().arguments is Parenthesized
}

/// The position of the first closure bound among `bounds`, if any.
pub open spec fn first_closure_bound(bounds: Seq<SynTypeParamBound>) -> Option<int>
    decreases bounds.len(),
{
    if bounds.len() == 0 {
        None
    } else {
        match first_closure_bound(bounds.drop_last()) {
            Some(i) => Some(i),
            None => match bounds.last() {
                SynTypeParamBound::Trait(bound) => if is_closure_bound(bound) {
                    Some(bounds.len() - 1)
                } else {
                    None
                },
                _ => None,
            },
        }
    }
}

/// The contract type a source type scans to.
pub open spec fn spec_scan_type(ty: SynType) -> Result<TypeView, ScanErrorView>
    decreases ty,
{
    match ty {
        SynType::ImplTrait(bounds) => spec_impl_closure(bounds@, ty),
        SynType::Tuple(elements) => if elements.len() == 0 {
            Ok(TypeView::Unit)
        } else {
            match spec_scan_list(elements@) {
                Ok(views) => Ok(TypeView::Tuple(views)),
                Err(error) => Err(error),
            }
        },
        SynType::Path { qself, path } => if qself {
            Err(unsupported(ty))
        } else {
            spec_path_type(path, ty)
        },
        _ => Err(unsupported(ty)),
    }
}

/// The types a list of source types scans to; the first failure rejects
/// the list.
pub open spec fn spec_scan_list(types: Seq<SynType>) -> Result<Seq<TypeView>, ScanErrorView>
    decreases types,
{
    if types.len() == 0 {
        Ok(Seq::empty())
    } else {
        match spec_scan_list(types.drop_last()) {
            Err(error) => Err(error),
            Ok(views) => match spec_scan_type(types.last()) {
                Err(error) => Err(error),
                Ok(view) => Ok(views.push(view)),
            },
        }
    }
}

/// A path type, told apart by its last segment.
pub open spec fn spec_path_type(path: SynPath, source: SynType) -> Result<TypeView, ScanErrorView>
    decreases path,
{
    if path.segments.len() == 0 {
        Err(unsupported(source))
    } else {
        spec_segment_type(path.segments@.last(), source)
    }
}

/// The type a path's last segment names.
pub open spec fn spec_segment_type(segment: SynPathSegment, source: SynType) -> Result<
    TypeView,
    ScanErrorView,
>
    decreases segment,
{
    let name = segment.ident@;
    if name == "String"@ {
        Ok(TypeView::String)
    } else if name == "Vec"@ {
        match spec_single_argument(segment.arguments, source) {
            Ok(element) => Ok(TypeView::Vec(Box::new(element))),
            Err(error) => Err(error),
        }
    } else if name == "Option"@ {
        match spec_single_argument(segment.arguments, source) {
            Ok(inner) => Ok(TypeView::Option(Box::new(inner))),
            Err(error) => Err(error),
        }
    } else if name == "Result"@ {
        match spec_two_arguments(segment.arguments, source) {
            Ok((ok, err)) => Ok(TypeView::Result { ok: Box::new(ok), err: Box::new(err) }),
            Err(error) => Err(error),
        }
    } else if name == "HashMap"@ || name == "BTreeMap"@ {
        match spec_two_arguments(segment.arguments, source) {
            Ok((key, value)) => Ok(TypeView::MapOf { key: Box::new(key), value: Box::new(value) }),
            Err(error) => Err(error),
        }
    } else {
        match spec_primitive(name) {
            Some(primitive) => Ok(TypeView::Primitive(primitive)),
            None => Err(unsupported(source)),
        }
    }
}

/// The one type argument of a container; any other count of type
/// arguments rejects the container.
pub open spec fn spec_single_argument(arguments: PathArguments, source: SynType) -> Result<
    TypeView,
    ScanErrorView,
>
    decreases arguments,
{
    match arguments {
        PathArguments::AngleBracketed(args) => {
            let indices = type_arg_indices(args@);
            if indices.len() == 1 && 0 <= indices[0] < args.len() {
                match args@[indices[0]] {
                    SynGenericArgument::Type(argument) => spec_scan_type(argument),
                    _ => Err(unsupported(source)),
                }
            } else {
                Err(unsupported(source))
            }
        },
        _ => Err(unsupported(source)),
    }
}

/// The two type arguments of a container; any other count of type
/// arguments rejects the container.
pub open spec fn spec_two_arguments(arguments: PathArguments, source: SynType) -> Result<
    (TypeView, TypeView),
    ScanErrorView,
>
    decreases arguments,
{
    match arguments {
        PathArguments::AngleBracketed(args) => {
            let indices = type_arg_indices(args@);
            if indices.len() == 2 && 0 <= indices[0] < args.len() && 0 <= indices[1] < args.len() {
                match (args@[indices[0]], args@[indices[1]]) {
                    (SynGenericArgument::Type(first), SynGenericArgument::Type(second)) => match spec_scan_type(
                        first,
                    ) {
                        Err(error) => Err(error),
                        Ok(first) => match spec_scan_type(second) {
                            Err(error) => Err(error),
                            Ok(second) => Ok((first, second)),
                        },
                    },
                    _ => Err(unsupported(source)),
                }
            } else {
                Err(unsupported(source))
            }
        },
        _ => Err(unsupported(source)),
    }
}

/// An `impl` type: the first `Fn`-family bound makes it a closure, which
/// must be passed; without one it is rejected.
pub open spec fn spec_impl_closure(bounds: Seq<SynTypeParamBound>, source: SynType) -> Result<
    TypeView,
    ScanErrorView,
>
    decreases bounds,
{
    match first_closure_bound(bounds) {
        Some(i) => if 0 <= i < bounds.len() {
            match bounds[i] {
                SynTypeParamBound::Trait(bound) => spec_closure(bound, source),
                _ => Err(unsupported(source)),
            }
        } else {
            Err(unsupported(source))
        },
        None => Err(unsupported(source)),
    }
}

/// The closure an `Fn`-family bound describes.
pub open spec fn spec_closure(bound: TraitBound, source: SynType) -> Result<TypeView, ScanErrorView>
    decreases bound,
{
    let segments = bound.path.segments@;
    if segments.len() == 0 {
        Err(unsupported(source))
    } else {
        match (spec_closure_kind(segments.last().ident@), segments.last().arguments) {
            (Some(kind), PathArguments::Parenthesized { inputs, output }) => match spec_scan_list(
                inputs@,
            ) {
                Err(error) => Err(error),
                Ok(parameters) => match spec_scan_return(output) {
                    Err(error) => Err(error),
                    Ok(returned) => Ok(
                        TypeView::Closure {
                            kind,
                            parameters,
                            output: returned,
                            presence: HandlePresence::Required,
                        },
                    ),
                },
            },
            _ => Err(unsupported(source)),
        }
    }
}

/// What a return position records: nothing written, or `()`, is void.
pub open spec fn spec_scan_return(output: SynReturnType) -> Result<ReturnView, ScanErrorView>
    decreases output,
{
    match output {
        SynReturnType::Default => Ok(ReturnView::Void),
        SynReturnType::Type(ty) => if is_unit(*ty) {
            Ok(ReturnView::Void)
        } else {
            match spec_scan_type(*ty) {
                Ok(view) => Ok(ReturnView::Value(Box::new(view))),
                Err(error) => Err(error),
            }
        },
    }
}

/// Whether a type is written `()`.
pub open spec fn is_unit(ty: SynType) -> bool {
    match ty {
        SynType::Tuple(elements) => elements.len() == 0,
        _ => false,
    }
}

/// An explicit `-> ()` records the same void return as no return type.
pub proof fn lemma_unit_return_is_void(elements: Vec<SynType>)
    requires
        elements@.len() == 0,
    ensures
        spec_scan_return(SynReturnType::Type(Box::new(SynType::Tuple(elements)))) == spec_scan_return(
            SynReturnType::Default,
        ),
        spec_scan_return(SynReturnType::Default) == Ok::<ReturnView, ScanErrorView>(ReturnView::Void),
{
}

/// A path type is told apart by its last segment alone: two paths that
/// end in the same segment scan to the same type, whatever leads to it,
/// and are rejected together.
pub proof fn lemma_last_segment_decides(first: SynPath, second: SynPath, a: SynType, b: SynType)
    requires
        first.segments.len() > 0,
        second.segments.len() > 0,
        first.segments@.last() == second.segments@.last(),
    ensures
        spec_path_type(first, a) is Ok <==> spec_path_type(second, b) is Ok,
        spec_path_type(first, a) is Ok ==> spec_path_type(first, a) == spec_path_type(second, b),
{
    let segment = first.segments@.last();
    assert(spec_path_type(first, a) == spec_segment_type(segment, a));
    assert(spec_path_type(second, b) == spec_segment_type(segment, b));
    let single_a = spec_single_argument(segment.arguments, a);
    let single_b = spec_single_argument(segment.arguments, b);
    assert(single_a is Ok ==> single_a == single_b);
    assert(single_a is Ok <==> single_b is Ok);
    let two_a = spec_two_arguments(segment.arguments, a);
    let two_b = spec_two_arguments(segment.arguments, b);
    assert(two_a is Ok ==> two_a == two_b);
    assert(two_a is Ok <==> two_b is Ok);
}

/// A scan result taken by its view.
pub open spec fn type_result(result: Result<TypeExpr, ScanError>) -> Result<TypeView, ScanErrorView> {
    match result {
        Ok(ty) => Ok(type_view(ty)),
        Err(error) => Err(error@),
    }
}

/// A return scan result taken by its view.
pub open spec fn return_result(result: Result<ReturnDef, ScanError>) -> Result<ReturnView, ScanErrorView> {
    match result {
        Ok(returned) => Ok(return_view(returned)),
        Err(error) => Err(error@),
    }
}

/// A list scan result taken by its view.
pub open spec fn list_result(result: Result<Vec<TypeExpr>, ScanError>) -> Result<Seq<TypeView>, ScanErrorView> {
    match result {
        Ok(types) => Ok(type_views(types@)),
        Err(error) => Err(error@),
    }
}

/// Scans a source type into a contract type expression.
pub fn scan_type(ty: &SynType) -> (scanned: Result<TypeExpr, ScanError>)
    ensures
        type_result(scanned) == spec_scan_type(*ty),
    decreases ty,
{
    match ty {
        SynType::ImplTrait(bounds) => impl_closure(bounds, ty),
        SynType::Tuple(elements) => {
            if elements.len() == 0 {
                Ok(TypeExpr::Unit)
            } else {
                match scan_list(elements) {
                    Ok(types) => Ok(TypeExpr::tuple(types)),
                    Err(error) => Err(error),
                }
            }
        },
        SynType::Path { qself, path } => {
            if *qself {
                Err(ScanError::unsupported_type(ty))
            } else {
                path_type(path, ty)
            }
        },
        _ => Err(ScanError::unsupported_type(ty)),
    }
}

/// Scans a callable's return position: nothing written, or `()`, is void.
pub fn scan_return(output: &SynReturnType) -> (scanned: Result<ReturnDef, ScanError>)
    ensures
        return_result(scanned) == spec_scan_return(*output),
    decreases output,
{
    match output {
        SynReturnType::Default => Ok(ReturnDef::Void),
        SynReturnType::Type(ty) => {
            let unit = match &**ty {
                SynType::Tuple(elements) => elements.len() == 0,
                _ => false,
            };
            if unit {
                Ok(ReturnDef::Void)
            } else {
                match scan_type(ty) {
                    Ok(scanned) => Ok(ReturnDef::Value(scanned)),
                    Err(error) => Err(error),
                }
            }
        },
    }
}

/// Once a prefix of a list fails to scan, the whole list fails with the
/// same error.
proof fn lemma_scan_list_stops(types: Seq<SynType>, n: int)
    requires
        0 <= n <= types.len(),
        spec_scan_list(types.take(n)) is Err,
    ensures
        spec_scan_list(types) == spec_scan_list(types.take(n)),
    decreases types.len() - n,
{
    if n == types.len() {
        assert(types.take(n) =~= types);
    } else {
        assert(types.take(n + 1).drop_last() =~= types.take(n));
        assert(spec_scan_list(types.take(n + 1)) == spec_scan_list(types.take(n)));
        lemma_scan_list_stops(types, n + 1);
    }
}

fn scan_list(types: &Vec<SynType>) -> (scanned: Result<Vec<TypeExpr>, ScanError>)
    ensures
        list_result(scanned) == spec_scan_list(types@),
    decreases types,
{
    let mut scanned: Vec<TypeExpr> = Vec::new();
    let mut i: usize = 0;
    while i < types.len()
        invariant
            i <= types.len(),
            spec_scan_list(types@.take(i as int)) == Ok::<Seq<TypeView>, ScanErrorView>(
                type_views(scanned@),
            ),
        decreases types.len() - i,
    {
        proof {
            assert(types@.take(i + 1).drop_last() =~= types@.take(i as int));
            assert(types@.take(i + 1).last() == types@[i as int]);
        }
        match scan_type(&types[i]) {
            Ok(ty) => {
                let ghost before = scanned@;
                scanned.push(ty);
                proof {
                    assert(scanned@.drop_last() =~= before);
                }
            },
            Err(error) => {
                proof {
                    lemma_scan_list_stops(types@, i + 1);
                }
                return Err(error);
            },
        }
        i = i + 1;
    }
    proof {
        assert(types@.take(types.len() as int) =~= types@);
    }
    Ok(scanned)
}

fn path_type(path: &SynPath, source: &SynType) -> (scanned: Result<TypeExpr, ScanError>)
    ensures
        type_result(scanned) == spec_path_type(*path, *source),
    decreases path,
{
    let n = path.segments.len();
    if n == 0 {
        return Err(ScanError::unsupported_type(source));
    }
    segment_type(&path.segments[n - 1], source)
}

fn segment_type(segment: &SynPathSegment, source: &SynType) -> (scanned: Result<TypeExpr, ScanError>)
    ensures
        type_result(scanned) == spec_segment_type(*segment, *source),
    decreases segment,
{
    let name = segment.ident.as_str();
    proof {
        reveal_strlit("String");
        reveal_strlit("Vec");
        reveal_strlit("Option");
        reveal_strlit("Result");
        reveal_strlit("HashMap");
        reveal_strlit("BTreeMap");
    }
    if text_eq(name, "String") {
        Ok(TypeExpr::String)
    } else if text_eq(name, "Vec") {
        match single_argument(&segment.arguments, source) {
            Ok(element) => Ok(TypeExpr::vec(element)),
            Err(error) => Err(error),
        }
    } else if text_eq(name, "Option") {
        match single_argument(&segment.arguments, source) {
            Ok(inner) => Ok(TypeExpr::option(inner)),
            Err(error) => Err(error),
        }
    } else if text_eq(name, "Result") {
        match two_arguments(&segment.arguments, source) {
            Ok((ok, err)) => Ok(TypeExpr::result(ok, err)),
            Err(error) => Err(error),
        }
    } else if text_eq(name, "HashMap") || text_eq(name, "BTreeMap") {
        match two_arguments(&segment.arguments, source) {
            Ok((key, value)) => Ok(TypeExpr::map(key, value)),
            Err(error) => Err(error),
        }
    } else {
        match primitive(name) {
            Some(primitive) => Ok(TypeExpr::Primitive(primitive)),
            None => Err(ScanError::unsupported_type(source)),
        }
    }
}

pub(crate) fn type_arg_positions(arguments: &Vec<SynGenericArgument>) -> (positions: Vec<usize>)
    ensures
        positions@.map_values(|p: usize| p as int) == type_arg_indices(arguments@),
        forall|k: int| 0 <= k < positions@.len() ==> #[trigger] positions@[k] < arguments@.len(),
{
    let mut positions: Vec<usize> = Vec::new();
    let mut i: usize = 0;
    while i < arguments.len()
        invariant
            i <= arguments.len(),
            positions@.map_values(|p: usize| p as int) == type_arg_indices(arguments@.take(i as int)),
            forall|k: int| 0 <= k < positions@.len() ==> #[trigger] positions@[k] < i,
        decreases arguments.len() - i,
    {
        proof {
            assert(arguments@.take(i + 1).drop_last() =~= arguments@.take(i as int));
            assert(arguments@.take(i + 1).last() == arguments@[i as int]);
        }
        let ghost before = positions@;
        match &arguments[i] {
            SynGenericArgument::Type(_) => {
                positions.push(i);
                proof {
                    assert(positions@.map_values(|p: usize| p as int) =~= before.map_values(|p: usize| p as int).push(i as int));
                }
            },
            _ => {},
        }
        i = i + 1;
    }
    proof {
        assert(arguments@.take(arguments.len() as int) =~= arguments@);
        assert(positions@.map_values(|p: usize| p as int) =~= type_arg_indices(arguments@));
    }
    positions
}

fn single_argument(arguments: &PathArguments, source: &SynType) -> (scanned: Result<TypeExpr, ScanError>)
    ensures
        type_result(scanned) == spec_single_argument(*arguments, *source),
    decreases arguments,
{
    match arguments {
        PathArguments::AngleBracketed(args) => {
            let positions = type_arg_positions(args);
            if positions.len() == 1 {
                match &args[positions[0]] {
                    SynGenericArgument::Type(argument) => scan_type(argument),
                    _ => Err(ScanError::unsupported_type(source)),
                }
            } else {
                Err(ScanError::unsupported_type(source))
            }
        },
        _ => Err(ScanError::unsupported_type(source)),
    }
}

fn two_arguments(arguments: &PathArguments, source: &SynType) -> (scanned: Result<(TypeExpr, TypeExpr), ScanError>)
    ensures
        match spec_two_arguments(*arguments, *source) {
            Ok((first, second)) => scanned matches Ok((a, b)) && type_view(a) == first
                && type_view(b) == second,
            Err(error) => scanned matches Err(e) && e@ == error,
        },
    decreases arguments,
{
    match arguments {
        PathArguments::AngleBracketed(args) => {
            let positions = type_arg_positions(args);
            if positions.len() == 2 {
                match (&args[positions[0]], &args[positions[1]]) {
                    (SynGenericArgument::Type(first), SynGenericArgument::Type(second)) => {
                        let first = match scan_type(first) {
                            Ok(first) => first,
                            Err(error) => return Err(error),
                        };
                        let second = match scan_type(second) {
                            Ok(second) => second,
                            Err(error) => return Err(error),
                        };
                        Ok((first, second))
                    },
                    _ => Err(ScanError::unsupported_type(source)),
                }
            } else {
                Err(ScanError::unsupported_type(source))
            }
        },
        _ => Err(ScanError::unsupported_type(source)),
    }
}

pub(crate) fn first_closure(bounds: &Vec<SynTypeParamBound>) -> (position: Option<usize>)
    ensures
        match first_closure_bound(bounds@) {
            Some(i) => position matches Some(p) && p as int == i && 0 <= i < bounds@.len(),
            None => position is None,
        },
{
    let mut i: usize = 0;
    while i < bounds.len()
        invariant
            i <= bounds.len(),
            first_closure_bound(bounds@.take(i as int)) is None,
        decreases bounds.len() - i,
    {
        proof {
            assert(bounds@.take(i + 1).drop_last() =~= bounds@.take(i as int));
            assert(bounds@.take(i + 1).last() == bounds@[i as int]);
        }
        let found = match &bounds[i] {
            SynTypeParamBound::Trait(bound) => closure_bound(bound),
            _ => false,
        };
        if found {
            proof {
                lemma_first_closure_stops(bounds@, i as int + 1);
            }
            return Some(i);
        }
        i = i + 1;
    }
    proof {
        assert(bounds@.take(bounds.len() as int) =~= bounds@);
    }
    None
}

/// Once a prefix of the bounds holds a closure bound, the first one of the
/// whole list is the first one of the prefix.
proof fn lemma_first_closure_stops(bounds: Seq<SynTypeParamBound>, n: int)
    requires
        0 <= n <= bounds.len(),
        first_closure_bound(bounds.take(n)) is Some,
    ensures
        first_closure_bound(bounds) == first_closure_bound(bounds.take(n)),
    decreases bounds.len() - n,
{
    if n == bounds.len() {
        assert(bounds.take(n) =~= bounds);
    } else {
        assert(bounds.take(n + 1).drop_last() =~= bounds.take(n));
        assert(first_closure_bound(bounds.take(n + 1)) == first_closure_bound(bounds.take(n)));
        lemma_first_closure_stops(bounds, n + 1);
    }
}

pub(crate) fn closure_bound(bound: &TraitBound) -> (found: bool)
    ensures
        found == is_closure_bound(*bound),
{
    let n = bound.path.segments.len();
    if n == 0 {
        return false;
    }
    let last = &bound.path.segments[n - 1];
    match (closure_kind(last.ident.as_str()), &last.arguments) {
        (Some(_), PathArguments::Parenthesized { .. }) => true,
        _ => false,
    }
}

fn impl_closure(bounds: &Vec<SynTypeParamBound>, source: &SynType) -> (scanned: Result<TypeExpr, ScanError>)
    ensures
        type_result(scanned) == spec_impl_closure(bounds@, *source),
    decreases bounds,
{
    let found = first_closure(bounds);
    match found {
        Some(i) => match &bounds[i] {
            SynTypeParamBound::Trait(bound) => {
                proof {
                    assert(first_closure_bound(bounds@) == Some(i as int));
                    assert(bounds@[i as int] == SynTypeParamBound::Trait(*bound));
                    assert(spec_impl_closure(bounds@, *source) == spec_closure(*bound, *source));
                }
                closure(bound, source)
            },
            _ => Err(ScanError::unsupported_type(source)),
        },
        None => Err(ScanError::unsupported_type(source)),
    }
}

fn closure(bound: &TraitBound, source: &SynType) -> (scanned: Result<TypeExpr, ScanError>)
    ensures
        type_result(scanned) == spec_closure(*bound, *source),
    decreases bound,
{
    let n = bound.path.segments.len();
    if n == 0 {
        return Err(ScanError::unsupported_type(source));
    }
    let last = &bound.path.segments[n - 1];
    match (closure_kind(last.ident.as_str()), &last.arguments) {
        (Some(kind), PathArguments::Parenthesized { inputs, output }) => {
            let parameters = match scan_list(inputs) {
                Ok(parameters) => parameters,
                Err(error) => return Err(error),
            };
            let returned = match scan_return(output) {
                Ok(returned) => returned,
                Err(error) => return Err(error),
            };
            Ok(TypeExpr::closure(ClosureType::new(kind, parameters, returned)))
        },
        _ => Err(ScanError::unsupported_type(source)),
    }
}

pub(crate) fn closure_kind(name: &str) -> (kind: Option<ClosureKind>)
    ensures
        kind == spec_closure_kind(name@),
{
    proof {
        reveal_strlit("Fn");
        reveal_strlit("FnMut");
        reveal_strlit("FnOnce");
    }
    if text_eq(name, "Fn") {
        Some(ClosureKind::Fn)
    } else if text_eq(name, "FnMut") {
        Some(ClosureKind::FnMut)
    } else if text_eq(name, "FnOnce") {
        Some(ClosureKind::FnOnce)
    } else {
        None
    }
}

/// The primitive a type name denotes, if any.
pub fn primitive(name: &str) -> (primitive: Option<Primitive>)
    ensures
        primitive == spec_primitive(name@),
{
    proof {
        reveal_strlit("bool");
        reveal_strlit("i8");
        reveal_strlit("u8");
        reveal_strlit("i16");
        reveal_strlit("u16");
        reveal_strlit("i32");
        reveal_strlit("u32");
        reveal_strlit("i64");
        reveal_strlit("u64");
        reveal_strlit("isize");
        reveal_strlit("usize");
        reveal_strlit("f32");
        reveal_strlit("f64");
    }
    if text_eq(name, "bool") {
        Some(Primitive::Bool)
    } else if text_eq(name, "i8") {
        Some(Primitive::I8)
    } else if text_eq(name, "u8") {
        Some(Primitive::U8)
    } else if text_eq(name, "i16") {
        Some(Primitive::I16)
    } else if text_eq(name, "u16") {
        Some(Primitive::U16)
    } else if text_eq(name, "i32") {
        Some(Primitive::I32)
    } else if text_eq(name, "u32") {
        Some(Primitive::U32)
    } else if text_eq(name, "i64") {
        Some(Primitive::I64)
    } else if text_eq(name, "u64") {
        Some(Primitive::U64)
    } else if text_eq(name, "isize") {
        Some(Primitive::ISize)
    } else if text_eq(name, "usize") {
        Some(Primitive::USize)
    } else if text_eq(name, "f32") {
        Some(Primitive::F32)
    } else if text_eq(name, "f64") {
        Some(Primitive::F64)
    } else {
        None
    }
}

} // verus!
