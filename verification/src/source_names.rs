//! Names and paths a source declares, checked to be Rust syntax before a
//! wrapper writes them. `syn` decides what Rust syntax is.
use vstd::prelude::*;

use crate::ast::SourceVisibility;
use crate::expansion::{ExpansionError, ExpansionErrorView};

verus! {

/// Whether `text` parses as one Rust identifier under `syn`.
pub uninterp spec fn parses_as_ident(text: Seq<char>) -> bool;

/// Whether `text` parses as a Rust type under `syn`.
pub uninterp spec fn parses_as_type(text: Seq<char>) -> bool;

/// Whether `text` parses as a Rust path under `syn`.
pub uninterp spec fn parses_as_path(text: Seq<char>) -> bool;

/// Whether `text` parses as a Rust path expression under `syn`.
pub uninterp spec fn parses_as_expr_path(text: Seq<char>) -> bool;

/// Whether `text` parses as a Rust expression under `syn`.
pub uninterp spec fn parses_as_expr(text: Seq<char>) -> bool;

/// Calls `syn::parse_str::<syn::Ident>` on `text` and reports whether it
/// succeeded. Which texts succeed (a single identifier other than `_` and
/// the Rust keywords) is left to the name `parses_as_ident`.
#[verifier::external_body]
fn ident_parses(text: &str) -> (parses: bool)
    ensures
        parses == parses_as_ident(text@),
{
    syn::parse_str::<syn::Ident>(text).is_ok()
}

/// Calls `syn::parse_str::<syn::Type>` on `text` and reports whether it
/// succeeded, which the name `parses_as_type` stands for.
#[verifier::external_body]
fn type_parses(text: &str) -> (parses: bool)
    ensures
        parses == parses_as_type(text@),
{
    syn::parse_str::<syn::Type>(text).is_ok()
}

/// Calls `syn::parse_str::<syn::Path>` on `text` and reports whether it
/// succeeded, which the name `parses_as_path` stands for.
#[verifier::external_body]
fn path_parses(text: &str) -> (parses: bool)
    ensures
        parses == parses_as_path(text@),
{
    syn::parse_str::<syn::Path>(text).is_ok()
}

/// Calls `syn::parse_str::<syn::ExprPath>` on `text` and reports whether
/// it succeeded, which the name `parses_as_expr_path` stands for.
#[verifier::external_body]
fn expr_path_parses(text: &str) -> (parses: bool)
    ensures
        parses == parses_as_expr_path(text@),
{
    syn::parse_str::<syn::ExprPath>(text).is_ok()
}

/// Calls `syn::parse_str::<syn::Expr>` on `text` and reports whether it
/// succeeded, which the name `parses_as_expr` stands for.
#[verifier::external_body]
fn expr_parses(text: &str) -> (parses: bool)
    ensures
        parses == parses_as_expr(text@),
{
    syn::parse_str::<syn::Expr>(text).is_ok()
}

/// A checked text taken by its view.
pub open spec fn checked_view(result: Result<String, ExpansionError>) -> Result<Seq<char>, ExpansionErrorView> {
    match result {
        Ok(text) => Ok(text@),
        Err(error) => Err(error@),
    }
}

/// `text` when `parses`, and otherwise the mismatch `reason`.
pub open spec fn accepted(text: Seq<char>, parses: bool, reason: Seq<char>) -> Result<Seq<char>, ExpansionErrorView> {
    if parses {
        Ok(text)
    } else {
        Err(ExpansionErrorView::SourceSyntaxMismatch(reason))
    }
}

/// The name when it is a Rust identifier, and otherwise the mismatch
/// `reason`.
pub fn checked_ident(name: &str, reason: &'static str) -> (checked: Result<String, ExpansionError>)
    ensures
        checked_view(checked) == accepted(name@, parses_as_ident(name@), reason@),
{
    if ident_parses(name) {
        Ok(name.to_owned())
    } else {
        Err(ExpansionError::SourceSyntaxMismatch(reason))
    }
}

/// The text when it is a Rust type, and otherwise the mismatch `reason`.
pub fn checked_type(text: &str, reason: &'static str) -> (checked: Result<String, ExpansionError>)
    ensures
        checked_view(checked) == accepted(text@, parses_as_type(text@), reason@),
{
    if type_parses(text) {
        Ok(text.to_owned())
    } else {
        Err(ExpansionError::SourceSyntaxMismatch(reason))
    }
}

/// The text when it is a Rust path, and otherwise the mismatch `reason`.
pub fn checked_path(text: &str, reason: &'static str) -> (checked: Result<String, ExpansionError>)
    ensures
        checked_view(checked) == accepted(text@, parses_as_path(text@), reason@),
{
    if path_parses(text) {
        Ok(text.to_owned())
    } else {
        Err(ExpansionError::SourceSyntaxMismatch(reason))
    }
}

/// The text when it is a Rust path expression, and otherwise the
/// mismatch `reason`.
pub fn checked_expr_path(text: &str, reason: &'static str) -> (checked: Result<String, ExpansionError>)
    ensures
        checked_view(checked) == accepted(text@, parses_as_expr_path(text@), reason@),
{
    if expr_path_parses(text) {
        Ok(text.to_owned())
    } else {
        Err(ExpansionError::SourceSyntaxMismatch(reason))
    }
}

/// The text when it is a Rust expression, and otherwise the mismatch
/// `reason`.
pub fn checked_expr(text: &str, reason: &'static str) -> (checked: Result<String, ExpansionError>)
    ensures
        checked_view(checked) == accepted(text@, parses_as_expr(text@), reason@),
{
    if expr_parses(text) {
        Ok(text.to_owned())
    } else {
        Err(ExpansionError::SourceSyntaxMismatch(reason))
    }
}

/// A record's name, written as an identifier.
pub fn record_ident(name: &str) -> (checked: Result<String, ExpansionError>)
    ensures
        checked_view(checked) == accepted(
            name@,
            parses_as_ident(name@),
            "source record name is not a Rust identifier"@,
        ),
{
    checked_ident(name, "source record name is not a Rust identifier")
}

/// A record's name, written as a type.
pub fn record_type(name: &str) -> (checked: Result<String, ExpansionError>)
    ensures
        checked_view(checked) == accepted(
            name@,
            parses_as_type(name@),
            "source record name is not a Rust type"@,
        ),
{
    checked_type(name, "source record name is not a Rust type")
}

/// A field's name, written as an identifier.
pub fn field_ident(name: &str) -> (checked: Result<String, ExpansionError>)
    ensures
        checked_view(checked) == accepted(
            name@,
            parses_as_ident(name@),
            "source field name is not a Rust identifier"@,
        ),
{
    checked_ident(name, "source field name is not a Rust identifier")
}

/// A method's name, written as an identifier.
pub fn method_ident(name: &str) -> (checked: Result<String, ExpansionError>)
    ensures
        checked_view(checked) == accepted(
            name@,
            parses_as_ident(name@),
            "source method name is not a Rust identifier"@,
        ),
{
    checked_ident(name, "source method name is not a Rust identifier")
}

/// A free function's name, written as an identifier.
pub fn function_ident(name: &str) -> (checked: Result<String, ExpansionError>)
    ensures
        checked_view(checked) == accepted(
            name@,
            parses_as_ident(name@),
            "source function name is not a Rust identifier"@,
        ),
{
    checked_ident(name, "source function name is not a Rust identifier")
}

/// An enum's name, written as a type.
pub fn enum_type(name: &str) -> (checked: Result<String, ExpansionError>)
    ensures
        checked_view(checked) == accepted(
            name@,
            parses_as_type(name@),
            "source enum name is not a Rust type"@,
        ),
{
    checked_type(name, "source enum name is not a Rust type")
}

/// The visibility a wrapper is written with: nothing for a private item,
/// `pub`, or `pub(in path)` when `path` is a Rust path.
pub open spec fn visibility_text(visibility: SourceVisibility) -> Result<Seq<char>, ExpansionErrorView> {
    match visibility {
        SourceVisibility::Private => Ok(Seq::empty()),
        SourceVisibility::Public => Ok("pub"@),
        SourceVisibility::Restricted(path) => if parses_as_path(path@) {
            Ok("pub(in "@ + path@ + ")"@)
        } else {
            Err(ExpansionErrorView::SourceSyntaxMismatch("source visibility path is not Rust path"@))
        },
    }
}

/// The visibility a wrapper is written with.
pub fn visibility(written: &SourceVisibility) -> (text: Result<String, ExpansionError>)
    ensures
        checked_view(text) == visibility_text(*written),
{
    proof {
        reveal_strlit("pub");
        reveal_strlit("pub(in ");
        reveal_strlit(")");
    }
    match written {
        SourceVisibility::Private => Ok(String::new()),
        SourceVisibility::Public => Ok("pub".to_owned()),
        SourceVisibility::Restricted(path) => {
            let path = match checked_path(path.as_str(), "source visibility path is not Rust path") {
                Ok(path) => path,
                Err(error) => return Err(error),
            };
            let mut text = "pub(in ".to_owned();
            text.append(path.as_str());
            text.append(")");
            Ok(text)
        },
    }
}

} // verus!
