//! A foreign closure called from Rust: how the value it returns over the
//! boundary is turned back into the closure's Rust return value.
use vstd::prelude::*;

use crate::ast::Primitive;
use crate::expansion::{ExpansionError, ExpansionErrorView, Target};
use crate::returned::encoded::{BufferShape, NativeBufferShape, WasmBufferShape};
use crate::type_ref::{self, TypeRef, spelling};

verus! {

/// How a foreign closure's return comes back, with the texts each form
/// needs: the FFI or Rust types, and the decoding expressions that read
/// `__boltffi_result_bytes`, `__boltffi_success_bytes` or
/// `__boltffi_error_bytes`.
pub enum ForeignClosureReturnTokens {
    Void,
    DirectPrimitive { ffi_type: String },
    DirectPassable { rust_type: String },
    NativeEncoded { value: String },
    WasmPackedString,
    NativeFallibleVoid { error: String },
    NativeFallibleDirectPrimitive { ffi_type: String, error: String },
    NativeFallibleDirectPassable { ok_type: String, error: String },
    NativeFallibleEncoded { ok_type: String, ok: String, error: String },
    WasmFallibleVoidString,
    WasmFallibleDirectPrimitive { ffi_type: String },
    WasmFallibleDirectPassable { ok_type: String },
    WasmFalliblePackedString { ok_type: String },
}

/// The uninitialized slot a fallible closure writes its success into.
pub open spec fn spec_setup(tokens: ForeignClosureReturnTokens) -> Seq<char> {
    let slot = |ty: Seq<char>|
        "let mut __boltffi_success = ::core::mem::MaybeUninit::<"@ + ty + ">::uninit(); "@;
    match tokens {
        ForeignClosureReturnTokens::NativeFallibleDirectPrimitive { ffi_type, .. }
        | ForeignClosureReturnTokens::WasmFallibleDirectPrimitive { ffi_type } => slot(ffi_type@),
        ForeignClosureReturnTokens::NativeFallibleDirectPassable { ok_type, .. }
        | ForeignClosureReturnTokens::WasmFallibleDirectPassable { ok_type } => slot(
            "<"@ + ok_type@ + " as ::boltffi::__private::Passable>::In"@,
        ),
        ForeignClosureReturnTokens::NativeFallibleEncoded { .. } => slot(
            "::boltffi::__private::FfiBuf"@,
        ),
        ForeignClosureReturnTokens::WasmFalliblePackedString { .. } => slot("u64"@),
        _ => Seq::empty(),
    }
}

/// The return type of the foreign closure's FFI function: nothing, the
/// primitive, the `Passable::In` form, an `FfiBuf` for native encoded and
/// fallible forms, a packed `u64` on WebAssembly.
pub open spec fn spec_ffi_return_type(tokens: ForeignClosureReturnTokens) -> Seq<char> {
    match tokens {
        ForeignClosureReturnTokens::Void => Seq::empty(),
        ForeignClosureReturnTokens::DirectPrimitive { ffi_type } => "-> "@ + ffi_type@,
        ForeignClosureReturnTokens::DirectPassable { rust_type } => "-> <"@ + rust_type@
            + " as ::boltffi::__private::Passable>::In"@,
        ForeignClosureReturnTokens::NativeEncoded { .. }
        | ForeignClosureReturnTokens::NativeFallibleVoid { .. }
        | ForeignClosureReturnTokens::NativeFallibleDirectPrimitive { .. }
        | ForeignClosureReturnTokens::NativeFallibleDirectPassable { .. }
        | ForeignClosureReturnTokens::NativeFallibleEncoded { .. } => "-> ::boltffi::__private::FfiBuf"@,
        _ => "-> u64"@,
    }
}

/// The type of the success slot's pointer, for the forms that have one.
pub open spec fn spec_slot_type(tokens: ForeignClosureReturnTokens) -> Option<Seq<char>> {
    match tokens {
        ForeignClosureReturnTokens::NativeFallibleDirectPrimitive { ffi_type, .. }
        | ForeignClosureReturnTokens::WasmFallibleDirectPrimitive { ffi_type } => Some(
            "*mut "@ + ffi_type@,
        ),
        ForeignClosureReturnTokens::NativeFallibleDirectPassable { ok_type, .. }
        | ForeignClosureReturnTokens::WasmFallibleDirectPassable { ok_type } => Some(
            "*mut <"@ + ok_type@ + " as ::boltffi::__private::Passable>::In"@,
        ),
        ForeignClosureReturnTokens::NativeFallibleEncoded { .. } => Some(
            "*mut ::boltffi::__private::FfiBuf"@,
        ),
        ForeignClosureReturnTokens::WasmFalliblePackedString { .. } => Some("*mut u64"@),
        _ => None,
    }
}

/// A native fallible call: an empty error buffer means success, anything
/// else is the encoded error, decoded by `error`.
pub open spec fn spec_native_fallible(setup: Seq<char>, call: Seq<char>, ok: Seq<char>, error: Seq<char>) -> Seq<char> {
    setup + "let __boltffi_error_buf = unsafe { "@ + call
        + " }; if __boltffi_error_buf.is_empty() { "@ + ok
        + " } else { let __boltffi_error_bytes = unsafe { __boltffi_error_buf.as_byte_slice() }; Err("@
        + error + ") }"@
}

/// A WebAssembly fallible call: a 0 error means success, anything else is
/// the packed error message.
pub open spec fn spec_wasm_fallible(setup: Seq<char>, call: Seq<char>, ok: Seq<char>) -> Seq<char> {
    setup + "let __boltffi_error_packed = unsafe { "@ + call
        + " }; if __boltffi_error_packed == 0 { "@ + ok
        + " } else { Err(unsafe { ::boltffi::__private::take_packed_utf8_string(__boltffi_error_packed) }) }"@
}

/// The success of a passable value read back from its slot.
pub open spec fn spec_unpacked_success(ok_type: Seq<char>) -> Seq<char> {
    "Ok(unsafe { <"@ + ok_type
        + " as ::boltffi::__private::Passable>::unpack(__boltffi_success.assume_init()) })"@
}

/// The Rust expression that calls the foreign closure with `call` and
/// gives back its return value.
pub open spec fn spec_foreign_body(tokens: ForeignClosureReturnTokens, call: Seq<char>) -> Seq<char> {
    let setup = spec_setup(tokens);
    let primitive = "Ok(unsafe { __boltffi_success.assume_init() })"@;
    match tokens {
        ForeignClosureReturnTokens::Void => "unsafe { "@ + call + "; }"@,
        ForeignClosureReturnTokens::DirectPrimitive { .. } => "unsafe { "@ + call + " }"@,
        ForeignClosureReturnTokens::DirectPassable { rust_type } => "unsafe { <"@ + rust_type@
            + " as ::boltffi::__private::Passable>::unpack("@ + call + ") }"@,
        ForeignClosureReturnTokens::NativeEncoded { value } =>
            "{ let __boltffi_result_buf = unsafe { "@ + call
                + " }; let __boltffi_result_bytes = unsafe { __boltffi_result_buf.as_byte_slice() }; "@
                + value@ + " }"@,
        ForeignClosureReturnTokens::WasmPackedString => "{ let __boltffi_result_packed = unsafe { "@
            + call
            + " }; unsafe { ::boltffi::__private::take_packed_utf8_string(__boltffi_result_packed) } }"@,
        ForeignClosureReturnTokens::NativeFallibleVoid { error } => "{ "@ + spec_native_fallible(
            setup,
            call,
            "Ok(())"@,
            error@,
        ) + " }"@,
        ForeignClosureReturnTokens::NativeFallibleDirectPrimitive { error, .. } =>
            spec_native_fallible(setup, call, primitive, error@),
        ForeignClosureReturnTokens::NativeFallibleDirectPassable { ok_type, error } =>
            spec_native_fallible(setup, call, spec_unpacked_success(ok_type@), error@),
        ForeignClosureReturnTokens::NativeFallibleEncoded { ok, error, .. } => spec_native_fallible(
            setup,
            call,
            "let __boltffi_success_buf = unsafe { __boltffi_success.assume_init() }; let __boltffi_success_bytes = unsafe { __boltffi_success_buf.as_byte_slice() }; Ok("@
                + ok@ + ")"@,
            error@,
        ),
        ForeignClosureReturnTokens::WasmFallibleVoidString => "{ "@ + spec_wasm_fallible(
            setup,
            call,
            "Ok(())"@,
        ) + " }"@,
        ForeignClosureReturnTokens::WasmFallibleDirectPrimitive { .. } => spec_wasm_fallible(
            setup,
            call,
            primitive,
        ),
        ForeignClosureReturnTokens::WasmFallibleDirectPassable { ok_type } => spec_wasm_fallible(
            setup,
            call,
            spec_unpacked_success(ok_type@),
        ),
        ForeignClosureReturnTokens::WasmFalliblePackedString { .. } => spec_wasm_fallible(
            setup,
            call,
            "Ok(unsafe { ::boltffi::__private::take_packed_utf8_string(__boltffi_success.assume_init()) })"@,
        ),
    }
}

fn slot(ty: &str) -> (text: String)
    ensures
        text@ == "let mut __boltffi_success = ::core::mem::MaybeUninit::<"@ + ty@ + ">::uninit(); "@,
{
    let mut text = "let mut __boltffi_success = ::core::mem::MaybeUninit::<".to_owned();
    text.append(ty);
    text.append(">::uninit(); ");
    text
}

fn passable_in(ty: &str) -> (text: String)
    ensures
        text@ == "<"@ + ty@ + " as ::boltffi::__private::Passable>::In"@,
{
    let mut text = "<".to_owned();
    text.append(ty);
    text.append(" as ::boltffi::__private::Passable>::In");
    text
}

fn native_fallible(setup: &str, call: &str, ok: &str, error: &str) -> (text: String)
    ensures
        text@ == spec_native_fallible(setup@, call@, ok@, error@),
{
    let mut text = setup.to_owned();
    text.append("let __boltffi_error_buf = unsafe { ");
    text.append(call);
    text.append(" }; if __boltffi_error_buf.is_empty() { ");
    text.append(ok);
    text.append(" } else { let __boltffi_error_bytes = unsafe { __boltffi_error_buf.as_byte_slice() }; Err(");
    text.append(error);
    text.append(") }");
    text
}

fn wasm_fallible(setup: &str, call: &str, ok: &str) -> (text: String)
    ensures
        text@ == spec_wasm_fallible(setup@, call@, ok@),
{
    let mut text = setup.to_owned();
    text.append("let __boltffi_error_packed = unsafe { ");
    text.append(call);
    text.append(" }; if __boltffi_error_packed == 0 { ");
    text.append(ok);
    text.append(" } else { Err(unsafe { ::boltffi::__private::take_packed_utf8_string(__boltffi_error_packed) }) }");
    text
}

fn unpacked_success(ok_type: &str) -> (text: String)
    ensures
        text@ == spec_unpacked_success(ok_type@),
{
    let mut text = "Ok(unsafe { <".to_owned();
    text.append(ok_type);
    text.append(" as ::boltffi::__private::Passable>::unpack(__boltffi_success.assume_init()) })");
    text
}

fn braced(inner: String) -> (text: String)
    ensures
        text@ == "{ "@ + inner@ + " }"@,
{
    let mut text = "{ ".to_owned();
    text.append(inner.as_str());
    text.append(" }");
    text
}

impl ForeignClosureReturnTokens {
    /// The slot a fallible closure writes its success into, if it has one.
    pub fn setup(&self) -> (text: String)
        ensures
            text@ == spec_setup(*self),
    {
        match self {
            ForeignClosureReturnTokens::NativeFallibleDirectPrimitive { ffi_type, .. }
            | ForeignClosureReturnTokens::WasmFallibleDirectPrimitive { ffi_type } => slot(ffi_type.as_str()),
            ForeignClosureReturnTokens::NativeFallibleDirectPassable { ok_type, .. }
            | ForeignClosureReturnTokens::WasmFallibleDirectPassable { ok_type } => {
                let ty = passable_in(ok_type.as_str());
                slot(ty.as_str())
            },
            ForeignClosureReturnTokens::NativeFallibleEncoded { .. } => slot("::boltffi::__private::FfiBuf"),
            ForeignClosureReturnTokens::WasmFalliblePackedString { .. } => slot("u64"),
            _ => String::new(),
        }
    }

    /// The return type of the foreign closure's FFI function; see
    /// [`spec_ffi_return_type`].
    pub fn ffi_return_type(&self) -> (text: String)
        ensures
            text@ == spec_ffi_return_type(*self),
    {
        match self {
            ForeignClosureReturnTokens::Void => String::new(),
            ForeignClosureReturnTokens::DirectPrimitive { ffi_type } => {
                let mut text = "-> ".to_owned();
                text.append(ffi_type.as_str());
                text
            },
            ForeignClosureReturnTokens::DirectPassable { rust_type } => {
                let mut text = "-> <".to_owned();
                text.append(rust_type.as_str());
                text.append(" as ::boltffi::__private::Passable>::In");
                text
            },
            ForeignClosureReturnTokens::NativeEncoded { .. }
            | ForeignClosureReturnTokens::NativeFallibleVoid { .. }
            | ForeignClosureReturnTokens::NativeFallibleDirectPrimitive { .. }
            | ForeignClosureReturnTokens::NativeFallibleDirectPassable { .. }
            | ForeignClosureReturnTokens::NativeFallibleEncoded { .. } => "-> ::boltffi::__private::FfiBuf".to_owned(),
            _ => "-> u64".to_owned(),
        }
    }

    /// The extra FFI parameter types: the success slot's pointer, for the
    /// forms that have one.
    pub fn ffi_parameter_types(&self) -> (types: Vec<String>)
        ensures
            crate::text::views(types@) == match spec_slot_type(*self) {
                Some(ty) => seq![ty],
                None => Seq::empty(),
            },
    {
        let slot = match self {
            ForeignClosureReturnTokens::NativeFallibleDirectPrimitive { ffi_type, .. }
            | ForeignClosureReturnTokens::WasmFallibleDirectPrimitive { ffi_type } => {
                let mut text = "*mut ".to_owned();
                text.append(ffi_type.as_str());
                Some(text)
            },
            ForeignClosureReturnTokens::NativeFallibleDirectPassable { ok_type, .. }
            | ForeignClosureReturnTokens::WasmFallibleDirectPassable { ok_type } => {
                let mut text = "*mut <".to_owned();
                text.append(ok_type.as_str());
                text.append(" as ::boltffi::__private::Passable>::In");
                Some(text)
            },
            ForeignClosureReturnTokens::NativeFallibleEncoded { .. } => Some("*mut ::boltffi::__private::FfiBuf".to_owned()),
            ForeignClosureReturnTokens::WasmFalliblePackedString { .. } => Some("*mut u64".to_owned()),
            _ => None,
        };
        let mut types: Vec<String> = Vec::new();
        match slot {
            Some(text) => types.push(text),
            None => {},
        }
        proof {
            assert(crate::text::views(types@) =~= match spec_slot_type(*self) {
                Some(ty) => seq![ty],
                None => Seq::<Seq<char>>::empty(),
            });
        }
        types
    }

    /// Whether the closure takes the success slot as its last argument:
    /// exactly the fallible forms with a success value.
    pub fn has_success_slot(&self) -> (has: bool)
        ensures
            has == (spec_setup(*self).len() > 0),
    {
        match self {
            ForeignClosureReturnTokens::NativeFallibleDirectPrimitive { .. }
            | ForeignClosureReturnTokens::NativeFallibleDirectPassable { .. }
            | ForeignClosureReturnTokens::NativeFallibleEncoded { .. }
            | ForeignClosureReturnTokens::WasmFallibleDirectPrimitive { .. }
            | ForeignClosureReturnTokens::WasmFallibleDirectPassable { .. }
            | ForeignClosureReturnTokens::WasmFalliblePackedString { .. } => {
                proof {
                    reveal_strlit("let mut __boltffi_success = ::core::mem::MaybeUninit::<");
                }
                true
            },
            _ => false,
        }
    }

    /// The arguments the closure's return adds to its call: the success
    /// slot, for the forms that have one.
    pub fn call_arguments(&self) -> (arguments: Vec<String>)
        ensures
            crate::text::views(arguments@) == if spec_setup(*self).len() > 0 {
                seq!["__boltffi_success.as_mut_ptr()"@]
            } else {
                Seq::empty()
            },
    {
        let mut arguments: Vec<String> = Vec::new();
        if self.has_success_slot() {
            arguments.push("__boltffi_success.as_mut_ptr()".to_owned());
        }
        proof {
            assert(crate::text::views(arguments@) =~= if spec_setup(*self).len() > 0 {
                seq!["__boltffi_success.as_mut_ptr()"@]
            } else {
                Seq::empty()
            });
        }
        arguments
    }

    /// The Rust expression that calls the foreign closure with `call`; see
    /// [`spec_foreign_body`].
    pub fn body(&self, call: &str) -> (text: String)
        ensures
            text@ == spec_foreign_body(*self, call@),
    {
        let setup = self.setup();
        match self {
            ForeignClosureReturnTokens::Void => {
                let mut text = "unsafe { ".to_owned();
                text.append(call);
                text.append("; }");
                text
            },
            ForeignClosureReturnTokens::DirectPrimitive { .. } => {
                let mut text = "unsafe { ".to_owned();
                text.append(call);
                text.append(" }");
                text
            },
            ForeignClosureReturnTokens::DirectPassable { rust_type } => {
                let mut text = "unsafe { <".to_owned();
                text.append(rust_type.as_str());
                text.append(" as ::boltffi::__private::Passable>::unpack(");
                text.append(call);
                text.append(") }");
                text
            },
            ForeignClosureReturnTokens::NativeEncoded { value } => {
                let mut text = "{ let __boltffi_result_buf = unsafe { ".to_owned();
                text.append(call);
                text.append(" }; let __boltffi_result_bytes = unsafe { __boltffi_result_buf.as_byte_slice() }; ");
                text.append(value.as_str());
                text.append(" }");
                text
            },
            ForeignClosureReturnTokens::WasmPackedString => {
                let mut text = "{ let __boltffi_result_packed = unsafe { ".to_owned();
                text.append(call);
                text.append(" }; unsafe { ::boltffi::__private::take_packed_utf8_string(__boltffi_result_packed) } }");
                text
            },
            ForeignClosureReturnTokens::NativeFallibleVoid { error } => braced(
                native_fallible(setup.as_str(), call, "Ok(())", error.as_str()),
            ),
            ForeignClosureReturnTokens::NativeFallibleDirectPrimitive { error, .. } => native_fallible(
                setup.as_str(),
                call,
                "Ok(unsafe { __boltffi_success.assume_init() })",
                error.as_str(),
            ),
            ForeignClosureReturnTokens::NativeFallibleDirectPassable { ok_type, error } => {
                let ok = unpacked_success(ok_type.as_str());
                native_fallible(setup.as_str(), call, ok.as_str(), error.as_str())
            },
            ForeignClosureReturnTokens::NativeFallibleEncoded { ok, error, .. } => {
                let mut success = "let __boltffi_success_buf = unsafe { __boltffi_success.assume_init() }; let __boltffi_success_bytes = unsafe { __boltffi_success_buf.as_byte_slice() }; Ok(".to_owned();
                success.append(ok.as_str());
                success.append(")");
                native_fallible(setup.as_str(), call, success.as_str(), error.as_str())
            },
            ForeignClosureReturnTokens::WasmFallibleVoidString => braced(
                wasm_fallible(setup.as_str(), call, "Ok(())"),
            ),
            ForeignClosureReturnTokens::WasmFallibleDirectPrimitive { .. } => wasm_fallible(
                setup.as_str(),
                call,
                "Ok(unsafe { __boltffi_success.assume_init() })",
            ),
            ForeignClosureReturnTokens::WasmFallibleDirectPassable { ok_type } => {
                let ok = unpacked_success(ok_type.as_str());
                wasm_fallible(setup.as_str(), call, ok.as_str())
            },
            ForeignClosureReturnTokens::WasmFalliblePackedString { .. } => wasm_fallible(
                setup.as_str(),
                call,
                "Ok(unsafe { ::boltffi::__private::take_packed_utf8_string(__boltffi_success.assume_init()) })",
            ),
        }
    }
}

/// How the binding hands a foreign closure's value back to Rust. Encoded
/// forms carry their buffer shape, whether they carry a string, and the
/// decoding expression the encoded renderer wrote for the value.
pub enum ForeignReturnPlan {
    Void,
    DirectPrimitive(Primitive),
    /// Another plain value in the return slot.
    Direct,
    Encoded { shape: BufferShape, string: bool, value: String },
    /// A primitive written through an out pointer.
    DirectOutPrimitive(Primitive),
    /// Another plain value written through an out pointer.
    DirectOut,
    /// An encoded value written through an out pointer.
    EncodedOut { shape: BufferShape, string: bool, ok: String },
    /// A plan this expansion does not know.
    Other,
}

/// How the binding hands a foreign closure's error back to Rust.
pub enum ForeignErrorPlan {
    Infallible,
    /// Encoded in the return slot; the decoding expression the encoded
    /// renderer wrote for it.
    Encoded { shape: BufferShape, string: bool, error: String },
    /// An error form this expansion does not know.
    Other,
}

/// Whether `shape` is the target's buffer for a closure's encoded value.
pub open spec fn is_foreign_buffer(target: Target, shape: BufferShape) -> bool {
    match (target, shape) {
        (Target::Native, BufferShape::Native(NativeBufferShape::Buffer)) => true,
        (Target::Wasm32, BufferShape::Wasm32(WasmBufferShape::Packed)) => true,
        _ => false,
    }
}

/// Whether an encoded form fits `target`: the native buffer, or on
/// WebAssembly a packed string.
pub open spec fn fits_target(target: Target, shape: BufferShape, string: bool) -> bool {
    is_foreign_buffer(target, shape) && (target == Target::Native || string)
}

/// The refusal of a return shape no foreign closure has.
pub open spec fn foreign_unknown_shape() -> ExpansionErrorView {
    ExpansionErrorView::UnsupportedExpansion("closure invoke return shape"@)
}

/// The refusal of an encoded return in a buffer the target does not use.
pub open spec fn foreign_encoded_refused(target: Target) -> ExpansionErrorView {
    match target {
        Target::Native => ExpansionErrorView::UnsupportedExpansion(
            "native closure invoke encoded return shape"@,
        ),
        Target::Wasm32 => ExpansionErrorView::UnsupportedExpansion(
            "wasm closure invoke encoded return shape"@,
        ),
    }
}

/// The mismatch of a source return that does not fit the plan.
pub open spec fn foreign_mismatch() -> ExpansionErrorView {
    ExpansionErrorView::SourceSyntaxMismatch(
        "source closure invoke return does not match binding return plan"@,
    )
}

/// Whether `result` is how a foreign closure's return comes back, for the
/// plans `plan` and `error` on `target`. `returns_value` says whether the
/// source closure returns a value, `rust_type` is its return type where
/// written, and `ok_type` what its `Result`'s success type is written as.
pub open spec fn foreign_return_is(
    plan: ForeignReturnPlan,
    error: ForeignErrorPlan,
    target: Target,
    returns_value: bool,
    rust_type: Option<Seq<char>>,
    ok_type: Result<Seq<char>, ExpansionErrorView>,
    result: Result<ForeignClosureReturnTokens, ExpansionError>,
) -> bool {
    let with_ok = |build: spec_fn(Seq<char>) -> bool|
        match ok_type {
            Ok(ty) => build(ty),
            Err(why) => result matches Err(e) && e@ == why,
        };
    match error {
        ForeignErrorPlan::Infallible => match plan {
            ForeignReturnPlan::Void => if returns_value {
                result matches Err(e) && e@ == foreign_mismatch()
            } else {
                result matches Ok(ForeignClosureReturnTokens::Void)
            },
            ForeignReturnPlan::DirectPrimitive(primitive) => if !returns_value {
                result matches Err(e) && e@ == foreign_mismatch()
            } else {
                match spelling(TypeRef::Primitive(primitive)) {
                    Some(ty) => result matches Ok(
                        ForeignClosureReturnTokens::DirectPrimitive { ffi_type },
                    ) && ffi_type@ == ty,
                    None => result matches Err(e) && e@
                        == ExpansionErrorView::UnsupportedExpansion("type reference"@),
                }
            },
            ForeignReturnPlan::Direct => if !returns_value {
                result matches Err(e) && e@ == foreign_mismatch()
            } else {
                match rust_type {
                    Some(ty) => result matches Ok(
                        ForeignClosureReturnTokens::DirectPassable { rust_type: t },
                    ) && t@ == ty,
                    None => result matches Err(e) && e@
                        == ExpansionErrorView::SourceSyntaxMismatch(
                        "closure invoke direct return requires source return type"@,
                    ),
                }
            },
            ForeignReturnPlan::Encoded { shape, string, value } => match target {
                Target::Native => if !is_foreign_buffer(target, shape) {
                    result matches Err(e) && e@ == foreign_encoded_refused(target)
                } else if rust_type is None {
                    result matches Err(e) && e@ == ExpansionErrorView::SourceSyntaxMismatch(
                        "closure invoke encoded return requires source return type"@,
                    )
                } else {
                    result matches Ok(ForeignClosureReturnTokens::NativeEncoded { value: v })
                        && v == value
                },
                Target::Wasm32 => if !is_foreign_buffer(target, shape) {
                    result matches Err(e) && e@ == foreign_encoded_refused(target)
                } else if !string {
                    result matches Err(e) && e@ == ExpansionErrorView::UnsupportedExpansion(
                        "wasm closure invoke encoded return"@,
                    )
                } else {
                    result matches Ok(ForeignClosureReturnTokens::WasmPackedString)
                },
            },
            _ => result matches Err(e) && e@ == foreign_unknown_shape(),
        },
        ForeignErrorPlan::Encoded { shape: error_shape, string: error_string, error: decoded } =>
            if !fits_target(target, error_shape, error_string) {
            if plan is Encoded {
                result matches Err(e) && e@ == foreign_encoded_refused(target)
            } else {
                result matches Err(e) && e@ == foreign_unknown_shape()
            }
        } else {
            match (target, plan) {
                (Target::Native, ForeignReturnPlan::DirectOutPrimitive(primitive)) => match spelling(
                    TypeRef::Primitive(primitive),
                ) {
                    Some(ty) => with_ok(
                        |ok: Seq<char>|
                            result matches Ok(
                                ForeignClosureReturnTokens::NativeFallibleDirectPrimitive {
                                    ffi_type,
                                    error: e,
                                },
                            ) && ffi_type@ == ty && e == decoded,
                    ),
                    None => result matches Err(e) && e@ == ExpansionErrorView::UnsupportedExpansion(
                        "type reference"@,
                    ),
                },
                (Target::Native, ForeignReturnPlan::DirectOut) => with_ok(
                    |ok: Seq<char>|
                        result matches Ok(
                            ForeignClosureReturnTokens::NativeFallibleDirectPassable {
                                ok_type: t,
                                error: e,
                            },
                        ) && t@ == ok && e == decoded,
                ),
                (Target::Native, ForeignReturnPlan::EncodedOut { shape, ok: success, .. }) =>
                    if !is_foreign_buffer(target, shape) {
                    result matches Err(e) && e@ == foreign_unknown_shape()
                } else {
                    with_ok(
                        |ok: Seq<char>|
                            result matches Ok(
                                ForeignClosureReturnTokens::NativeFallibleEncoded {
                                    ok_type: t,
                                    ok: o,
                                    error: e,
                                },
                            ) && t@ == ok && o == success && e == decoded,
                    )
                },
                (Target::Native, ForeignReturnPlan::Void) => with_ok(
                    |ok: Seq<char>|
                        result matches Ok(ForeignClosureReturnTokens::NativeFallibleVoid { error: e })
                            && e == decoded,
                ),
                (Target::Wasm32, ForeignReturnPlan::DirectOutPrimitive(primitive)) => match spelling(
                    TypeRef::Primitive(primitive),
                ) {
                    Some(ty) => result matches Ok(
                        ForeignClosureReturnTokens::WasmFallibleDirectPrimitive { ffi_type },
                    ) && ffi_type@ == ty,
                    None => result matches Err(e) && e@ == ExpansionErrorView::UnsupportedExpansion(
                        "type reference"@,
                    ),
                },
                (Target::Wasm32, ForeignReturnPlan::DirectOut) => with_ok(
                    |ok: Seq<char>|
                        result matches Ok(
                            ForeignClosureReturnTokens::WasmFallibleDirectPassable { ok_type: t },
                        ) && t@ == ok,
                ),
                (Target::Wasm32, ForeignReturnPlan::EncodedOut { shape, string, .. }) =>
                    if !fits_target(target, shape, string) {
                    result matches Err(e) && e@ == foreign_unknown_shape()
                } else {
                    with_ok(
                        |ok: Seq<char>|
                            result matches Ok(
                                ForeignClosureReturnTokens::WasmFalliblePackedString { ok_type: t },
                            ) && t@ == ok,
                    )
                },
                (Target::Wasm32, ForeignReturnPlan::Void) => result matches Ok(
                    ForeignClosureReturnTokens::WasmFallibleVoidString,
                ),
                (_, ForeignReturnPlan::Encoded { .. }) => result matches Err(e) && e@
                    == foreign_encoded_refused(target),
                _ => result matches Err(e) && e@ == foreign_unknown_shape(),
            }
        },
        ForeignErrorPlan::Other => if plan is Encoded {
            result matches Err(e) && e@ == foreign_encoded_refused(target)
        } else {
            result matches Err(e) && e@ == foreign_unknown_shape()
        },
    }
}

fn foreign_buffer(target: Target, shape: BufferShape) -> (is: bool)
    ensures
        is == is_foreign_buffer(target, shape),
{
    match (target, shape) {
        (Target::Native, BufferShape::Native(NativeBufferShape::Buffer)) => true,
        (Target::Wasm32, BufferShape::Wasm32(WasmBufferShape::Packed)) => true,
        _ => false,
    }
}

fn refused_encoded(target: Target) -> (error: ExpansionError)
    ensures
        error@ == foreign_encoded_refused(target),
{
    match target {
        Target::Native => ExpansionError::UnsupportedExpansion("native closure invoke encoded return shape"),
        Target::Wasm32 => ExpansionError::UnsupportedExpansion("wasm closure invoke encoded return shape"),
    }
}

fn unknown_shape_error() -> (error: ExpansionError)
    ensures
        error@ == foreign_unknown_shape(),
{
    ExpansionError::UnsupportedExpansion("closure invoke return shape")
}

/// Renders how a foreign closure's return comes back.
pub struct ForeignClosureReturnRenderer;

impl ForeignClosureReturnRenderer {
    /// See [`foreign_return_is`].
    pub fn render(
        self,
        plan: &ForeignReturnPlan,
        error: &ForeignErrorPlan,
        target: Target,
        returns_value: bool,
        rust_type: Option<&str>,
        ok_type: Result<&str, ExpansionError>,
    ) -> (result: Result<ForeignClosureReturnTokens, ExpansionError>)
        ensures
            foreign_return_is(
                *plan,
                *error,
                target,
                returns_value,
                match rust_type {
                    Some(ty) => Some(ty@),
                    None => None,
                },
                match ok_type {
                    Ok(ty) => Ok(ty@),
                    Err(e) => Err(e@),
                },
                result,
            ),
    {
        let mismatch = "source closure invoke return does not match binding return plan";
        match error {
            ForeignErrorPlan::Infallible => match plan {
                ForeignReturnPlan::Void => {
                    if returns_value {
                        return Err(ExpansionError::SourceSyntaxMismatch(mismatch));
                    }
                    Ok(ForeignClosureReturnTokens::Void)
                },
                ForeignReturnPlan::DirectPrimitive(primitive) => {
                    if !returns_value {
                        return Err(ExpansionError::SourceSyntaxMismatch(mismatch));
                    }
                    match type_ref::Renderer.render(&TypeRef::Primitive(*primitive)) {
                        Ok(ffi_type) => Ok(ForeignClosureReturnTokens::DirectPrimitive { ffi_type }),
                        Err(error) => Err(error),
                    }
                },
                ForeignReturnPlan::Direct => {
                    if !returns_value {
                        return Err(ExpansionError::SourceSyntaxMismatch(mismatch));
                    }
                    match rust_type {
                        Some(ty) => Ok(ForeignClosureReturnTokens::DirectPassable { rust_type: ty.to_owned() }),
                        None => Err(
                            ExpansionError::SourceSyntaxMismatch(
                                "closure invoke direct return requires source return type",
                            ),
                        ),
                    }
                },
                ForeignReturnPlan::Encoded { shape, string, value } => {
                    if !foreign_buffer(target, *shape) {
                        return Err(refused_encoded(target));
                    }
                    match target {
                        Target::Native => match rust_type {
                            Some(_) => Ok(ForeignClosureReturnTokens::NativeEncoded { value: value.clone() }),
                            None => Err(
                                ExpansionError::SourceSyntaxMismatch(
                                    "closure invoke encoded return requires source return type",
                                ),
                            ),
                        },
                        Target::Wasm32 => {
                            if !*string {
                                return Err(ExpansionError::UnsupportedExpansion("wasm closure invoke encoded return"));
                            }
                            Ok(ForeignClosureReturnTokens::WasmPackedString)
                        },
                    }
                },
                _ => Err(unknown_shape_error()),
            },
            ForeignErrorPlan::Encoded { shape: error_shape, string: error_string, error: decoded } => {
                let fits = foreign_buffer(target, *error_shape) && (matches!(target, Target::Native) || *error_string);
                if !fits {
                    return match plan {
                        ForeignReturnPlan::Encoded { .. } => Err(refused_encoded(target)),
                        _ => Err(unknown_shape_error()),
                    };
                }
                match (target, plan) {
                    (Target::Native, ForeignReturnPlan::DirectOutPrimitive(primitive)) => {
                        let ffi_type = match type_ref::Renderer.render(&TypeRef::Primitive(*primitive)) {
                            Ok(ffi_type) => ffi_type,
                            Err(error) => return Err(error),
                        };
                        match ok_type {
                            Ok(_) => Ok(
                                ForeignClosureReturnTokens::NativeFallibleDirectPrimitive {
                                    ffi_type,
                                    error: decoded.clone(),
                                },
                            ),
                            Err(why) => Err(why),
                        }
                    },
                    (Target::Native, ForeignReturnPlan::DirectOut) => match ok_type {
                        Ok(ty) => Ok(
                            ForeignClosureReturnTokens::NativeFallibleDirectPassable {
                                ok_type: ty.to_owned(),
                                error: decoded.clone(),
                            },
                        ),
                        Err(why) => Err(why),
                    },
                    (Target::Native, ForeignReturnPlan::EncodedOut { shape, ok: success, .. }) => {
                        if !foreign_buffer(target, *shape) {
                            return Err(unknown_shape_error());
                        }
                        match ok_type {
                            Ok(ty) => Ok(
                                ForeignClosureReturnTokens::NativeFallibleEncoded {
                                    ok_type: ty.to_owned(),
                                    ok: success.clone(),
                                    error: decoded.clone(),
                                },
                            ),
                            Err(why) => Err(why),
                        }
                    },
                    (Target::Native, ForeignReturnPlan::Void) => match ok_type {
                        Ok(_) => Ok(ForeignClosureReturnTokens::NativeFallibleVoid { error: decoded.clone() }),
                        Err(why) => Err(why),
                    },
                    (Target::Wasm32, ForeignReturnPlan::DirectOutPrimitive(primitive)) => {
                        match type_ref::Renderer.render(&TypeRef::Primitive(*primitive)) {
                            Ok(ffi_type) => Ok(ForeignClosureReturnTokens::WasmFallibleDirectPrimitive { ffi_type }),
                            Err(error) => Err(error),
                        }
                    },
                    (Target::Wasm32, ForeignReturnPlan::DirectOut) => match ok_type {
                        Ok(ty) => Ok(ForeignClosureReturnTokens::WasmFallibleDirectPassable { ok_type: ty.to_owned() }),
                        Err(why) => Err(why),
                    },
                    (Target::Wasm32, ForeignReturnPlan::EncodedOut { shape, string, .. }) => {
                        if !(foreign_buffer(target, *shape) && *string) {
                            return Err(unknown_shape_error());
                        }
                        match ok_type {
                            Ok(ty) => Ok(ForeignClosureReturnTokens::WasmFalliblePackedString { ok_type: ty.to_owned() }),
                            Err(why) => Err(why),
                        }
                    },
                    (Target::Wasm32, ForeignReturnPlan::Void) => Ok(ForeignClosureReturnTokens::WasmFallibleVoidString),
                    (_, ForeignReturnPlan::Encoded { .. }) => Err(refused_encoded(target)),
                    _ => Err(unknown_shape_error()),
                }
            },
            ForeignErrorPlan::Other => match plan {
                ForeignReturnPlan::Encoded { .. } => Err(refused_encoded(target)),
                _ => Err(unknown_shape_error()),
            },
        }
    }
}

} // verus!
