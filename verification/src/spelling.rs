//! Source spellings of paths and types, as they appear in diagnostics.
use vstd::prelude::*;

use crate::syntax::{SynGenericArgument, PathArguments, SynPathSegment, SynReturnType, SynPath, SynType, SynTypeParamBound};
use crate::text::{join, join_strings, views};

verus! {

pub open spec fn sep_path() -> Seq<char> { seq![':', ':'] }
pub open spec fn sep_list() -> Seq<char> { seq![',', ' '] }
pub open spec fn sep_bounds() -> Seq<char> { seq![' ', '+', ' '] }

/// The spellings of a sequence of segments.
pub open spec fn spell_segments(segments: Seq<SynPathSegment>) -> Seq<Seq<char>>
    decreases segments,
{
    if segments.len() == 0 {
        Seq::empty()
    } else {
        spell_segments(segments.drop_last()).push(spell_segment(segments.last()))
    }
}

/// The spellings of a sequence of types.
pub open spec fn spell_types(types: Seq<SynType>) -> Seq<Seq<char>>
    decreases types,
{
    if types.len() == 0 {
        Seq::empty()
    } else {
        spell_types(types.drop_last()).push(spell_type(types.last()))
    }
}

/// The spellings of a sequence of generic arguments.
pub open spec fn spell_arguments(arguments: Seq<SynGenericArgument>) -> Seq<Seq<char>>
    decreases arguments,
{
    if arguments.len() == 0 {
        Seq::empty()
    } else {
        spell_arguments(arguments.drop_last()).push(spell_argument(arguments.last()))
    }
}

/// The spellings of a sequence of bounds.
pub open spec fn spell_bounds(bounds: Seq<SynTypeParamBound>) -> Seq<Seq<char>>
    decreases bounds,
{
    if bounds.len() == 0 {
        Seq::empty()
    } else {
        spell_bounds(bounds.drop_last()).push(spell_bound(bounds.last()))
    }
}

/// `crate::geometry::Point<u32>`: the segments joined by `::`.
pub open spec fn spell_path(path: SynPath) -> Seq<char>
    decreases path,
{
    join(spell_segments(path.segments@), sep_path())
}

/// A segment: its ident, then its arguments as written.
pub open spec fn spell_segment(segment: SynPathSegment) -> Seq<char>
    decreases segment,
{
    match segment.arguments {
        PathArguments::Bare => segment.ident@,
        PathArguments::AngleBracketed(arguments) => segment.ident@ + seq!['<'] + join(
            spell_arguments(arguments@),
            sep_list(),
        ) + seq!['>'],
        PathArguments::Parenthesized { inputs, output } => {
            let call = segment.ident@ + seq!['('] + join(spell_types(inputs@), sep_list())
                + seq![')'];
            match output {
                SynReturnType::Default => call,
                SynReturnType::Type(ty) => call + seq![' ', '-', '>', ' '] + spell_type(*ty),
            }
        },
    }
}

/// A generic argument.
pub open spec fn spell_argument(argument: SynGenericArgument) -> Seq<char>
    decreases argument,
{
    match argument {
        SynGenericArgument::Type(ty) => spell_type(ty),
        SynGenericArgument::Lifetime(lifetime) => lifetime@,
        SynGenericArgument::Const => "const"@,
        SynGenericArgument::AssocType { ident, ty } => ident@ + " = "@ + spell_type(ty),
        SynGenericArgument::AssocConst { ident } => ident@ + " = const"@,
        SynGenericArgument::Constraint { ident } => ident@,
        SynGenericArgument::Other => "argument"@,
    }
}

/// A bound: a trait's path or a lifetime.
pub open spec fn spell_bound(bound: SynTypeParamBound) -> Seq<char>
    decreases bound,
{
    match bound {
        SynTypeParamBound::Trait(trait_bound) => spell_path(trait_bound.path),
        SynTypeParamBound::Lifetime(lifetime) => lifetime@,
        SynTypeParamBound::Other => "bound"@,
    }
}

/// A type as written; parentheses and groups are looked through, and
/// shapes without a spelling read `unrecognized type`.
pub open spec fn spell_type(ty: SynType) -> Seq<char>
    decreases ty,
{
    match ty {
        SynType::Paren(elem) => spell_type(*elem),
        SynType::Group(elem) => spell_type(*elem),
        SynType::Path { path, .. } => spell_path(path),
        SynType::Reference { mutable, elem } => if mutable {
            "&mut "@ + spell_type(*elem)
        } else {
            "&"@ + spell_type(*elem)
        },
        SynType::TraitObject(bounds) => "dyn "@ + join(spell_bounds(bounds@), sep_bounds()),
        SynType::ImplTrait(bounds) => "impl "@ + join(spell_bounds(bounds@), sep_bounds()),
        SynType::Tuple(elems) => seq!['('] + join(spell_types(elems@), sep_list()) + seq![')'],
        _ => "unrecognized type"@,
    }
}


/// The idents of a sequence of segments, arguments left out.
pub open spec fn segment_idents(segments: Seq<SynPathSegment>) -> Seq<Seq<char>> {
    segments.map_values(|segment: SynPathSegment| segment.ident@)
}

/// A path's idents joined by `::`, without any arguments.
pub open spec fn spell_path_idents(path: SynPath) -> Seq<char> {
    join(segment_idents(path.segments@), sep_path())
}

/// Spells a path's idents joined by `::`, leaving arguments out.
pub fn path_idents(value: &SynPath) -> (res: String)
    ensures
        res@ == spell_path_idents(*value),
{
    let mut parts: Vec<String> = Vec::new();
    let mut i: usize = 0;
    while i < value.segments.len()
        invariant
            i <= value.segments.len(),
            views(parts@) == segment_idents(value.segments@.take(i as int)),
        decreases value.segments.len() - i,
    {
        let ghost before = parts@;
        parts.push(value.segments[i].ident.clone());
        proof {
            assert(views(parts@) =~= views(before).push(value.segments@[i as int].ident@));
            assert(segment_idents(value.segments@.take(i + 1)) =~= segment_idents(
                value.segments@.take(i as int),
            ).push(value.segments@[i as int].ident@));
        }
        i = i + 1;
    }
    proof {
        assert(value.segments@.take(value.segments.len() as int) =~= value.segments@);
        reveal_strlit("::");
        assert("::"@ =~= sep_path());
    }
    join_strings(&parts, "::")
}

/// Spells a path: its segments joined by `::`.
pub fn path(value: &SynPath) -> (res: String)
    ensures
        res@ == spell_path(*value),
    decreases value,
{
    let mut parts: Vec<String> = Vec::new();
    let mut i: usize = 0;
    while i < value.segments.len()
        invariant
            i <= value.segments.len(),
            views(parts@) == spell_segments(value.segments@.take(i as int)),
        decreases value.segments.len() - i,
    {
        proof {
            assert(value.segments@.take(i + 1).drop_last() =~= value.segments@.take(i as int));
        }
        let spelled = segment(&value.segments[i]);
        let ghost before = parts@;
        parts.push(spelled);
        proof {
            assert(views(parts@) =~= views(before).push(spelled@));
        }
        i = i + 1;
    }
    proof {
        assert(value.segments@.take(value.segments.len() as int) =~= value.segments@);
        reveal_strlit("::");
        assert("::"@ =~= sep_path());
    }
    join_strings(&parts, "::")
}

/// Spells one segment with its arguments.
pub fn segment(value: &SynPathSegment) -> (res: String)
    ensures
        res@ == spell_segment(*value),
    decreases value,
{
    let mut res = value.ident.clone();
    proof {
        reveal_strlit("<");
        reveal_strlit(">");
        reveal_strlit("(");
        reveal_strlit(")");
        reveal_strlit(" -> ");
        reveal_strlit(", ");
        assert(", "@ =~= sep_list());
    }
    match &value.arguments {
        PathArguments::Bare => {},
        PathArguments::AngleBracketed(arguments) => {
            let parts = argument_list(arguments);
            res.append("<");
            let joined = join_strings(&parts, ", ");
            res.append(joined.as_str());
            res.append(">");
        },
        PathArguments::Parenthesized { inputs, output } => {
            let parts = type_list(inputs);
            res.append("(");
            let joined = join_strings(&parts, ", ");
            res.append(joined.as_str());
            res.append(")");
            match output {
                SynReturnType::Default => {},
                SynReturnType::Type(out) => {
                    res.append(" -> ");
                    let spelled = ty(out);
                    res.append(spelled.as_str());
                },
            }
        },
    }
    res
}

/// Spells each of `values`.
pub fn type_list(values: &Vec<SynType>) -> (res: Vec<String>)
    ensures
        views(res@) == spell_types(values@),
    decreases values,
{
    let mut parts: Vec<String> = Vec::new();
    let mut i: usize = 0;
    while i < values.len()
        invariant
            i <= values.len(),
            views(parts@) == spell_types(values@.take(i as int)),
        decreases values.len() - i,
    {
        proof {
            assert(values@.take(i + 1).drop_last() =~= values@.take(i as int));
        }
        let spelled = ty(&values[i]);
        let ghost before = parts@;
        parts.push(spelled);
        proof {
            assert(views(parts@) =~= views(before).push(spelled@));
        }
        i = i + 1;
    }
    proof {
        assert(values@.take(values.len() as int) =~= values@);
    }
    parts
}

/// Spells each of `values`.
pub fn argument_list(values: &Vec<SynGenericArgument>) -> (res: Vec<String>)
    ensures
        views(res@) == spell_arguments(values@),
    decreases values,
{
    let mut parts: Vec<String> = Vec::new();
    let mut i: usize = 0;
    while i < values.len()
        invariant
            i <= values.len(),
            views(parts@) == spell_arguments(values@.take(i as int)),
        decreases values.len() - i,
    {
        proof {
            assert(values@.take(i + 1).drop_last() =~= values@.take(i as int));
        }
        let spelled = argument(&values[i]);
        let ghost before = parts@;
        parts.push(spelled);
        proof {
            assert(views(parts@) =~= views(before).push(spelled@));
        }
        i = i + 1;
    }
    proof {
        assert(values@.take(values.len() as int) =~= values@);
    }
    parts
}

/// Spells each of `values`.
pub fn bound_list(values: &Vec<SynTypeParamBound>) -> (res: Vec<String>)
    ensures
        views(res@) == spell_bounds(values@),
    decreases values,
{
    let mut parts: Vec<String> = Vec::new();
    let mut i: usize = 0;
    while i < values.len()
        invariant
            i <= values.len(),
            views(parts@) == spell_bounds(values@.take(i as int)),
        decreases values.len() - i,
    {
        proof {
            assert(values@.take(i + 1).drop_last() =~= values@.take(i as int));
        }
        let spelled = bound(&values[i]);
        let ghost before = parts@;
        parts.push(spelled);
        proof {
            assert(views(parts@) =~= views(before).push(spelled@));
        }
        i = i + 1;
    }
    proof {
        assert(values@.take(values.len() as int) =~= values@);
    }
    parts
}

/// Spells a generic argument.
pub fn argument(value: &SynGenericArgument) -> (res: String)
    ensures
        res@ == spell_argument(*value),
    decreases value,
{
    proof {
        reveal_strlit("const");
        reveal_strlit(" = ");
        reveal_strlit(" = const");
        reveal_strlit("argument");
    }
    match value {
        SynGenericArgument::Type(t) => ty(t),
        SynGenericArgument::Lifetime(lifetime) => lifetime.clone(),
        SynGenericArgument::Const => "const".to_owned(),
        SynGenericArgument::AssocType { ident, ty: assoc } => {
            let mut res = ident.clone();
            res.append(" = ");
            let spelled = ty(assoc);
            res.append(spelled.as_str());
            res
        },
        SynGenericArgument::AssocConst { ident } => {
            let mut res = ident.clone();
            res.append(" = const");
            res
        },
        SynGenericArgument::Constraint { ident } => ident.clone(),
        SynGenericArgument::Other => "argument".to_owned(),
    }
}

/// Spells a bound.
pub fn bound(value: &SynTypeParamBound) -> (res: String)
    ensures
        res@ == spell_bound(*value),
    decreases value,
{
    proof {
        reveal_strlit("bound");
    }
    match value {
        SynTypeParamBound::Trait(trait_bound) => path(&trait_bound.path),
        SynTypeParamBound::Lifetime(lifetime) => lifetime.clone(),
        SynTypeParamBound::Other => "bound".to_owned(),
    }
}

/// Spells a type as written.
pub fn ty(value: &SynType) -> (res: String)
    ensures
        res@ == spell_type(*value),
    decreases value,
{
    proof {
        reveal_strlit("&mut ");
        reveal_strlit("&");
        reveal_strlit("dyn ");
        reveal_strlit("impl ");
        reveal_strlit(" + ");
        reveal_strlit(", ");
        reveal_strlit("(");
        reveal_strlit(")");
        reveal_strlit("unrecognized type");
        assert(" + "@ =~= sep_bounds());
        assert(", "@ =~= sep_list());
    }
    match value {
        SynType::Paren(elem) => ty(elem),
        SynType::Group(elem) => ty(elem),
        SynType::Path { path: p, .. } => path(p),
        SynType::Reference { mutable, elem } => {
            let mut res = if *mutable {
                "&mut ".to_owned()
            } else {
                "&".to_owned()
            };
            let spelled = ty(elem);
            res.append(spelled.as_str());
            res
        },
        SynType::TraitObject(bounds) => {
            let parts = bound_list(bounds);
            let mut res = "dyn ".to_owned();
            let joined = join_strings(&parts, " + ");
            res.append(joined.as_str());
            res
        },
        SynType::ImplTrait(bounds) => {
            let parts = bound_list(bounds);
            let mut res = "impl ".to_owned();
            let joined = join_strings(&parts, " + ");
            res.append(joined.as_str());
            res
        },
        SynType::Tuple(elems) => {
            let parts = type_list(elems);
            let mut res = "(".to_owned();
            let joined = join_strings(&parts, ", ");
            res.append(joined.as_str());
            res.append(")");
            res
        },
        _ => "unrecognized type".to_owned(),
    }
}

} // verus!
