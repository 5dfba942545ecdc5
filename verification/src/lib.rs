//! Scans the Rust items a crate marks for export into a contract, and
//! decides how each exported callable crosses the FFI boundary.
use vstd::prelude::*;

// The syntax the scanner reads, and shared text helpers.
pub mod syntax;
pub mod text;
pub mod spelling;
pub mod path;
pub mod parse;
pub mod syn_types;

// Scanning marked items into a contract.
pub mod ast;
pub mod error;
pub mod visibility;
pub mod marker;
pub mod marked;
pub mod module_tree;
pub mod impl_target;
pub mod impl_items;
pub mod declared_types;
pub mod registry;
pub mod standard;
pub mod ty;
pub mod type_expr;
pub mod record;
pub mod class;
pub mod scan;

// What the wrapper expansion decides before it emits code.
pub mod expansion;
pub mod names;
pub mod source_names;
pub mod wire;
pub mod custom;
pub mod transform;
pub mod type_ref;
pub mod arguments;
pub mod param;
pub mod returned;
pub mod export;
pub mod record_receiver;
pub mod record_impls;
pub mod enum_receiver;
pub mod incoming;
pub mod async_call;
pub mod stream;
