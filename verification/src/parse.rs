//! Parsing source text with `syn` into the scanner's syntax model. Each
//! conversion below moves one `syn` node into the library's node of the
//! same shape, one for one.
use vstd::prelude::*;

use crate::syntax::{
    SynAttribute, BareFn, Field, SynFields, SynGenericArgument, SynImplItem, SynItem, SynItemImpl, ItemKind, Meta,
    PathArguments, SynPathSegment, SynReturnType, SynPath, SynType, SynVisibility, TraitBound,
    SynTypeParamBound,
};

verus! {

/// What `syn::parse_file` makes of a source text: its items, converted
/// one for one, or the text of the parse error.
pub uninterp spec fn parsed_items(text: Seq<char>) -> Result<Seq<SynItem>, Seq<char>>;

/// The items a parse result holds, taken by their views.
pub open spec fn parsed_view(parsed: Result<Vec<SynItem>, String>) -> Result<Seq<SynItem>, Seq<char>> {
    match parsed {
        Ok(items) => Ok(items@),
        Err(message) => Err(message@),
    }
}

/// Calls `syn::parse_file` on `text` and converts its items, or renders
/// its error with `to_string`. The items stand only as the name
/// `parsed_items`; nothing is claimed of which texts parse.
#[verifier::external_body]
pub(crate) fn parse_file(text: &str) -> (parsed: Result<Vec<SynItem>, String>)
    ensures
        parsed_view(parsed) == parsed_items(text@),
{
    match syn::parse_file(text) {
        Ok(file) => Ok(items(&file.items)),
        Err(error) => Err(error.to_string()),
    }
}

/// Converts the items of a `syn::File` that was parsed elsewhere, one for
/// one as [`parse_file`] does; nothing is claimed of the result.
#[verifier::external_body]
pub(crate) fn file_items(file: &syn::File) -> Vec<SynItem> {
    items(&file.items)
}

/// Converts a list of `syn::Item`.
#[verifier::external_body]
fn items(source: &[syn::Item]) -> Vec<SynItem> {
    source.iter().map(|element| item(element)).collect()
}

/// Converts a `syn::Item`: its attributes, name, visibility and kind.
#[verifier::external_body]
fn item(source: &syn::Item) -> SynItem {
    SynItem {
        attrs: attributes(item_attrs(source)),
        ident: item_ident(source),
        vis: item_vis(source),
        kind: item_kind(source),
    }
}

/// The attributes of a `syn::Item`.
#[verifier::external_body]
fn item_attrs(source: &syn::Item) -> &[syn::Attribute] {
    match source {
        syn::Item::Const(i) => &i.attrs,
        syn::Item::Enum(i) => &i.attrs,
        syn::Item::ExternCrate(i) => &i.attrs,
        syn::Item::Fn(i) => &i.attrs,
        syn::Item::ForeignMod(i) => &i.attrs,
        syn::Item::Impl(i) => &i.attrs,
        syn::Item::Macro(i) => &i.attrs,
        _ => item_attrs_rest(source),
    }
}

/// The attributes of the `syn::Item` variants `item_attrs` does not list;
/// verbatim tokens have none.
#[verifier::external_body]
fn item_attrs_rest(source: &syn::Item) -> &[syn::Attribute] {
    match source {
        syn::Item::Mod(i) => &i.attrs,
        syn::Item::Static(i) => &i.attrs,
        syn::Item::Struct(i) => &i.attrs,
        syn::Item::Trait(i) => &i.attrs,
        syn::Item::TraitAlias(i) => &i.attrs,
        syn::Item::Type(i) => &i.attrs,
        syn::Item::Union(i) => &i.attrs,
        syn::Item::Use(i) => &i.attrs,
        _ => &[],
    }
}

/// The name of a `syn::Item`.
#[verifier::external_body]
fn item_ident(source: &syn::Item) -> String {
    match source {
        syn::Item::Const(i) => i.ident.to_string(),
        syn::Item::Enum(i) => i.ident.to_string(),
        syn::Item::ExternCrate(i) => i.ident.to_string(),
        syn::Item::Fn(i) => i.sig.ident.to_string(),
        syn::Item::Macro(i) => i.ident.as_ref().map(|ident| ident.to_string()).unwrap_or_default(),
        syn::Item::Mod(i) => i.ident.to_string(),
        _ => item_ident_rest(source),
    }
}

/// The name of the `syn::Item` variants `item_ident` does not list, empty
/// where the item has none.
#[verifier::external_body]
fn item_ident_rest(source: &syn::Item) -> String {
    match source {
        syn::Item::Static(i) => i.ident.to_string(),
        syn::Item::Struct(i) => i.ident.to_string(),
        syn::Item::Trait(i) => i.ident.to_string(),
        syn::Item::TraitAlias(i) => i.ident.to_string(),
        syn::Item::Type(i) => i.ident.to_string(),
        syn::Item::Union(i) => i.ident.to_string(),
        _ => String::new(),
    }
}

/// The visibility of a `syn::Item`.
#[verifier::external_body]
fn item_vis(source: &syn::Item) -> SynVisibility {
    match source {
        syn::Item::Const(i) => visibility(&i.vis),
        syn::Item::Enum(i) => visibility(&i.vis),
        syn::Item::ExternCrate(i) => visibility(&i.vis),
        syn::Item::Fn(i) => visibility(&i.vis),
        syn::Item::Mod(i) => visibility(&i.vis),
        syn::Item::Static(i) => visibility(&i.vis),
        _ => item_vis_rest(source),
    }
}

/// The visibility of the `syn::Item` variants `item_vis` does not list;
/// items without one are inherited.
#[verifier::external_body]
fn item_vis_rest(source: &syn::Item) -> SynVisibility {
    match source {
        syn::Item::Struct(i) => visibility(&i.vis),
        syn::Item::Trait(i) => visibility(&i.vis),
        syn::Item::TraitAlias(i) => visibility(&i.vis),
        syn::Item::Type(i) => visibility(&i.vis),
        syn::Item::Union(i) => visibility(&i.vis),
        syn::Item::Use(i) => visibility(&i.vis),
        _ => SynVisibility::Inherited,
    }
}

/// The kind of a `syn::Item`, with the impl block it carries.
#[verifier::external_body]
fn item_kind(source: &syn::Item) -> ItemKind {
    match source {
        syn::Item::Const(_) => ItemKind::Const,
        syn::Item::Enum(_) => ItemKind::Enum,
        syn::Item::ExternCrate(_) => ItemKind::ExternCrate,
        syn::Item::Fn(_) => ItemKind::Fn,
        syn::Item::ForeignMod(_) => ItemKind::ForeignMod,
        syn::Item::Impl(i) => ItemKind::Impl(item_impl(i)),
        _ => item_kind_mid(source),
    }
}

/// The kind of the `syn::Item` variants after those `item_kind` lists,
/// with the inline module items or struct fields they carry.
#[verifier::external_body]
fn item_kind_mid(source: &syn::Item) -> ItemKind {
    match source {
        syn::Item::Macro(_) => ItemKind::Macro,
        syn::Item::Mod(i) => ItemKind::Mod(i.content.as_ref().map(|(_, inner)| items(inner))),
        syn::Item::Static(_) => ItemKind::Static,
        syn::Item::Struct(i) => ItemKind::Struct(fields(&i.fields)),
        _ => item_kind_rest(source),
    }
}

/// The kinds of the `syn::Item` variants `item_kind` does not list.
#[verifier::external_body]
fn item_kind_rest(source: &syn::Item) -> ItemKind {
    match source {
        syn::Item::Trait(_) => ItemKind::Trait,
        syn::Item::TraitAlias(_) => ItemKind::TraitAlias,
        syn::Item::Type(_) => ItemKind::Type,
        syn::Item::Union(_) => ItemKind::Union,
        syn::Item::Use(_) => ItemKind::Use,
        _ => ItemKind::Verbatim,
    }
}

/// Converts a `syn::ItemImpl`.
#[verifier::external_body]
fn item_impl(source: &syn::ItemImpl) -> SynItemImpl {
    SynItemImpl {
        self_ty: ty(&source.self_ty),
        has_generic_params: !source.generics.params.is_empty(),
        has_where_clause: source.generics.where_clause.is_some(),
        is_trait_impl: source.trait_.is_some(),
        items: source.items.iter().map(|element| impl_item(element)).collect(),
    }
}

/// Converts a `syn::ImplItem`.
#[verifier::external_body]
fn impl_item(source: &syn::ImplItem) -> SynImplItem {
    match source {
        syn::ImplItem::Fn(i) => SynImplItem::Fn {
            attrs: attributes(&i.attrs),
            vis: visibility(&i.vis),
            ident: i.sig.ident.to_string(),
        },
        syn::ImplItem::Const(i) => SynImplItem::Const {
            attrs: attributes(&i.attrs),
            vis: visibility(&i.vis),
            ident: i.ident.to_string(),
        },
        _ => impl_item_rest(source),
    }
}

/// Converts the `syn::ImplItem` variants `impl_item` does not list.
#[verifier::external_body]
fn impl_item_rest(source: &syn::ImplItem) -> SynImplItem {
    match source {
        syn::ImplItem::Type(i) => SynImplItem::Type {
            attrs: attributes(&i.attrs),
            vis: visibility(&i.vis),
            ident: i.ident.to_string(),
        },
        syn::ImplItem::Macro(i) => SynImplItem::Macro { attrs: attributes(&i.attrs), path: path(&i.mac.path) },
        _ => SynImplItem::Other,
    }
}

/// Converts `syn::Fields`.
#[verifier::external_body]
fn fields(source: &syn::Fields) -> SynFields {
    match source {
        syn::Fields::Named(named) => SynFields::Named(
            named.named.iter().map(|field| Field {
                ident: field.ident.as_ref().map(|ident| ident.to_string()),
                vis: visibility(&field.vis),
                ty: ty(&field.ty),
            }).collect(),
        ),
        syn::Fields::Unnamed(_) => SynFields::Unnamed,
        syn::Fields::Unit => SynFields::Unit,
    }
}

/// Converts a list of `syn::Attribute`.
#[verifier::external_body]
fn attributes(source: &[syn::Attribute]) -> Vec<SynAttribute> {
    source.iter().map(|element| attribute(element)).collect()
}

/// Converts a `syn::Attribute`: its path, and its list tokens as text.
#[verifier::external_body]
fn attribute(source: &syn::Attribute) -> SynAttribute {
    SynAttribute {
        path: path(source.path()),
        meta: match &source.meta {
            syn::Meta::Path(_) => Meta::Path,
            syn::Meta::List(list) => Meta::List { tokens: list.tokens.to_string() },
            syn::Meta::NameValue(_) => Meta::NameValue,
        },
    }
}

/// Converts a `syn::Visibility`.
#[verifier::external_body]
fn visibility(source: &syn::Visibility) -> SynVisibility {
    match source {
        syn::Visibility::Public(_) => SynVisibility::Public,
        syn::Visibility::Restricted(r) => SynVisibility::Restricted(path(&r.path)),
        syn::Visibility::Inherited => SynVisibility::Inherited,
    }
}

/// Converts a `syn::Path`.
#[verifier::external_body]
fn path(source: &syn::Path) -> SynPath {
    SynPath {
        leading_colon: source.leading_colon.is_some(),
        segments: source.segments.iter().map(|element| segment(element)).collect(),
    }
}

/// Converts a `syn::PathSegment` with its arguments.
#[verifier::external_body]
fn segment(source: &syn::PathSegment) -> SynPathSegment {
    let arguments = match &source.arguments {
        syn::PathArguments::None => PathArguments::Bare,
        syn::PathArguments::AngleBracketed(a) => PathArguments::AngleBracketed(
            a.args.iter().map(|element| generic(element)).collect(),
        ),
        syn::PathArguments::Parenthesized(a) => PathArguments::Parenthesized {
            inputs: a.inputs.iter().map(|element| ty(element)).collect(),
            output: output(&a.output),
        },
    };
    SynPathSegment { ident: source.ident.to_string(), arguments }
}

/// Converts a `syn::GenericArgument`.
#[verifier::external_body]
fn generic(source: &syn::GenericArgument) -> SynGenericArgument {
    match source {
        syn::GenericArgument::Type(t) => SynGenericArgument::Type(ty(t)),
        syn::GenericArgument::Lifetime(l) => SynGenericArgument::Lifetime(l.to_string()),
        syn::GenericArgument::Const(_) => SynGenericArgument::Const,
        syn::GenericArgument::AssocType(a) => SynGenericArgument::AssocType {
            ident: a.ident.to_string(),
            ty: ty(&a.ty),
        },
        syn::GenericArgument::AssocConst(a) => SynGenericArgument::AssocConst { ident: a.ident.to_string() },
        syn::GenericArgument::Constraint(c) => SynGenericArgument::Constraint { ident: c.ident.to_string() },
        _ => SynGenericArgument::Other,
    }
}

/// Converts a `syn::ReturnType`.
#[verifier::external_body]
fn output(source: &syn::ReturnType) -> SynReturnType {
    match source {
        syn::ReturnType::Default => SynReturnType::Default,
        syn::ReturnType::Type(_, t) => SynReturnType::Type(Box::new(ty(t))),
    }
}

/// Converts a `syn::TypeParamBound`.
#[verifier::external_body]
fn bound(source: &syn::TypeParamBound) -> SynTypeParamBound {
    match source {
        syn::TypeParamBound::Trait(b) => SynTypeParamBound::Trait(TraitBound {
            modified: !matches!(b.modifier, syn::TraitBoundModifier::None),
            higher_ranked: b.lifetimes.is_some(),
            path: path(&b.path),
        }),
        syn::TypeParamBound::Lifetime(l) => SynTypeParamBound::Lifetime(l.to_string()),
        _ => SynTypeParamBound::Other,
    }
}

/// Converts a `syn::Type`.
#[verifier::external_body]
fn ty(source: &syn::Type) -> SynType {
    match source {
        syn::Type::Paren(p) => SynType::Paren(Box::new(ty(&p.elem))),
        syn::Type::Group(g) => SynType::Group(Box::new(ty(&g.elem))),
        syn::Type::Path(p) => SynType::Path { qself: p.qself.is_some(), path: path(&p.path) },
        syn::Type::Reference(r) => SynType::Reference {
            mutable: r.mutability.is_some(),
            elem: Box::new(ty(&r.elem)),
        },
        _ => ty_rest(source),
    }
}

/// Converts the `syn::Type` variants `ty` does not list.
#[verifier::external_body]
fn ty_rest(source: &syn::Type) -> SynType {
    match source {
        syn::Type::TraitObject(o) => SynType::TraitObject(o.bounds.iter().map(|b| bound(b)).collect()),
        syn::Type::ImplTrait(o) => SynType::ImplTrait(o.bounds.iter().map(|b| bound(b)).collect()),
        syn::Type::Tuple(t) => SynType::Tuple(t.elems.iter().map(|element| ty(element)).collect()),
        syn::Type::Slice(s) => SynType::Slice(Box::new(ty(&s.elem))),
        syn::Type::BareFn(f) => SynType::BareFn(bare_fn(f)),
        _ => SynType::Other,
    }
}

/// Converts a `syn::TypeBareFn`.
#[verifier::external_body]
fn bare_fn(source: &syn::TypeBareFn) -> BareFn {
    BareFn {
        higher_ranked: source.lifetimes.is_some(),
        unsafety: source.unsafety.is_some(),
        abi: source.abi.is_some(),
        variadic: source.variadic.is_some(),
        inputs: source.inputs.iter().map(|argument| ty(&argument.ty)).collect(),
        output: output(&source.output),
    }
}

} // verus!
