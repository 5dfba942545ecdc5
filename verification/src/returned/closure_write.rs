//! Writing a returned closure out: the invoke and release functions the
//! foreign side calls, and the wrapper statements that store the closure
//! through the out pointer.
use vstd::prelude::*;

use crate::expansion::{ExpansionError, ExpansionErrorView};
use crate::returned::statements;
use crate::returned::returned_closure::{
    ReturnedClosure, spec_context_binding, spec_context_type, spec_context_value, spec_write_body,
};
use crate::text::{join, join_strings, views};

verus! {

/// What the closure's parameters contribute to its invoke function: the
/// items they declare, the FFI parameters and their types, the statements
/// that convert them, and the arguments the closure is called with.
pub struct InvokeParameters {
    pub items: Vec<String>,
    pub ffi_parameters: Vec<String>,
    pub ffi_parameter_types: Vec<String>,
    pub conversions: Vec<String>,
    pub arguments: Vec<String>,
}

/// What the closure's return contributes to its invoke function: its
/// return type, its out parameters and their types, and the text around
/// the call in the invoke body.
pub struct InvokeReturn {
    pub return_type: String,
    pub ffi_parameters: Vec<String>,
    pub ffi_parameter_types: Vec<String>,
    pub before_call: String,
    pub after_call: String,
}

/// The items a written closure adds, the wrapper's out parameter for it,
/// and the wrapper statements that write it.
pub struct WriteTokens {
    pub items: Vec<String>,
    pub ffi_parameter: String,
    pub body: String,
}

/// Parameters each preceded by `, `.
pub open spec fn prefixed(parts: Seq<Seq<char>>) -> Seq<char>
    decreases parts.len(),
{
    if parts.len() == 0 {
        Seq::empty()
    } else {
        prefixed(parts.drop_last()) + ", "@ + parts.last()
    }
}

fn write_prefixed(parts: &Vec<String>) -> (text: String)
    ensures
        text@ == prefixed(views(parts@)),
{
    let mut text = String::new();
    let mut i: usize = 0;
    while i < parts.len()
        invariant
            i <= parts.len(),
            text@ == prefixed(views(parts@).take(i as int)),
        decreases parts.len() - i,
    {
        proof {
            assert(views(parts@).take(i + 1).drop_last() =~= views(parts@).take(i as int));
        }
        text.append(", ");
        text.append(parts[i].as_str());
        i = i + 1;
    }
    proof {
        assert(views(parts@).take(parts.len() as int) =~= views(parts@));
    }
    text
}

/// The invoke function's body after the closure is borrowed: the
/// conversions, then the call of the closure wrapped by the return.
pub open spec fn spec_invoke_body(parameters: InvokeParameters, outcome: InvokeReturn) -> Seq<char> {
    statements(views(parameters.conversions@)) + outcome.before_call@ + "__boltffi_closure("@ + join(
        views(parameters.arguments@),
        ", "@,
    ) + ")"@ + outcome.after_call@
}

fn invoke_body(parameters: &InvokeParameters, outcome: &InvokeReturn) -> (text: String)
    ensures
        text@ == spec_invoke_body(*parameters, *outcome),
{
    let mut text = crate::returned::write_statements(&parameters.conversions);
    text.append(outcome.before_call.as_str());
    text.append("__boltffi_closure(");
    let arguments = join_strings(&parameters.arguments, ", ");
    text.append(arguments.as_str());
    text.append(")");
    text.append(outcome.after_call.as_str());
    text
}

/// The invoke and release functions of a native closure, compiled off
/// WebAssembly: invoke borrows the closure from its context and calls it,
/// release drops the context unless it is null.
pub open spec fn spec_native_functions(
    closure: ReturnedClosure,
    call: Seq<char>,
    release: Seq<char>,
    parameters: InvokeParameters,
    outcome: InvokeReturn,
) -> Seq<char> {
    let context_type = spec_context_type(closure);
    "#[cfg(not(target_arch = \"wasm32\"))] unsafe extern \"C\" fn "@ + call
        + "(__boltffi_context: *mut ::core::ffi::c_void"@ + prefixed(
        views(parameters.ffi_parameters@),
    ) + prefixed(views(outcome.ffi_parameters@)) + ") "@ + outcome.return_type@
        + " { let mut __boltffi_closure = unsafe { "@ + spec_context_binding(
        closure,
        "__boltffi_context as *mut "@ + context_type,
    ) + " }; "@ + spec_invoke_body(parameters, outcome)
        + " } #[cfg(not(target_arch = \"wasm32\"))] unsafe extern \"C\" fn "@ + release
        + "(__boltffi_context: *mut ::core::ffi::c_void) { if !__boltffi_context.is_null() { unsafe { drop(Box::from_raw(__boltffi_context as *mut "@
        + context_type + ")); } } }"@
}

/// The wrapper statements that write a native closure: the storage struct
/// of invoke, context and release, the null check of the out pointer, and
/// the write itself, of the boxed context or, for an absent closure, of
/// an empty storage.
pub open spec fn spec_native_body(
    storage: Seq<char>,
    call: Seq<char>,
    release: Seq<char>,
    parameters: InvokeParameters,
    outcome: InvokeReturn,
    write_body: Seq<char>,
) -> Seq<char> {
    "#[repr(C)] struct "@ + storage
        + " { invoke: Option<unsafe extern \"C\" fn(*mut ::core::ffi::c_void"@ + prefixed(
        views(parameters.ffi_parameter_types@),
    ) + prefixed(views(outcome.ffi_parameter_types@)) + ") "@ + outcome.return_type@
        + ">, context: *mut ::core::ffi::c_void, release: Option<unsafe extern \"C\" fn(*mut ::core::ffi::c_void)>, } if __boltffi_return_out.is_null() { ::boltffi::__private::set_last_error(\"closure return out pointer is null\".to_string()); return ::boltffi::__private::FfiStatus::INVALID_ARG; } let __boltffi_return_out = __boltffi_return_out as *mut "@
        + storage + "; "@ + write_body
}

/// The write of a present native closure: its context boxed, and the
/// storage of invoke, context and release.
pub open spec fn spec_native_present(
    storage: Seq<char>,
    call: Seq<char>,
    release: Seq<char>,
    context_value: Seq<char>,
) -> Seq<char> {
    "let __boltffi_closure_context = Box::into_raw(Box::new("@ + context_value
        + ")) as *mut ::core::ffi::c_void; unsafe { *__boltffi_return_out = "@ + storage
        + " { invoke: Some("@ + call + "), context: __boltffi_closure_context, release: Some("@
        + release + ") }; }"@
}

/// The write of an absent native closure: an empty storage.
pub open spec fn spec_native_absent(storage: Seq<char>) -> Seq<char> {
    "unsafe { *__boltffi_return_out = "@ + storage
        + " { invoke: None, context: ::core::ptr::null_mut(), release: None }; }"@
}

/// What writing the native closure held in `value` gives: the parameters'
/// items and the invoke and release functions, the out parameter, and the
/// wrapper statements; or why the closure cannot be written.
pub open spec fn spec_native_tokens(
    closure: ReturnedClosure,
    value: Seq<char>,
    storage: Seq<char>,
    call: Seq<char>,
    release: Seq<char>,
    parameters: InvokeParameters,
    outcome: InvokeReturn,
) -> Result<(Seq<Seq<char>>, Seq<char>, Seq<char>), ExpansionErrorView> {
    match spec_context_value(closure, value) {
        Err(error) => Err(error),
        Ok(context_value) => match spec_write_body(
            closure,
            value,
            spec_native_present(storage, call, release, context_value),
            spec_native_absent(storage),
        ) {
            Err(error) => Err(error),
            Ok(write_body) => Ok(
                (
                    views(parameters.items@).push(
                        spec_native_functions(closure, call, release, parameters, outcome),
                    ),
                    "__boltffi_return_out: *mut ::core::ffi::c_void"@,
                    spec_native_body(storage, call, release, parameters, outcome, write_body),
                ),
            ),
        },
    }
}

/// Whether `result` is what `expected` describes.
pub open spec fn tokens_are(
    result: Result<WriteTokens, ExpansionError>,
    expected: Result<(Seq<Seq<char>>, Seq<char>, Seq<char>), ExpansionErrorView>,
) -> bool {
    match (result, expected) {
        (Ok(tokens), Ok((items, parameter, body))) => views(tokens.items@) == items
            && tokens.ffi_parameter@ == parameter && tokens.body@ == body,
        (Err(error), Err(expected)) => error@ == expected,
        _ => false,
    }
}

fn push_item(items: &Vec<String>, item: String) -> (all: Vec<String>)
    ensures
        views(all@) == views(items@).push(item@),
{
    let mut all: Vec<String> = Vec::new();
    let mut i: usize = 0;
    while i < items.len()
        invariant
            i <= items.len(),
            views(all@) == views(items@).take(i as int),
        decreases items.len() - i,
    {
        let ghost previous = all@;
        let copy = items[i].clone();
        all.push(copy);
        proof {
            assert(views(all@) =~= views(previous).push(copy@));
            assert(views(items@).take(i + 1) =~= views(items@).take(i as int).push(items@[i as int]@));
            assert(views(all@) =~= views(items@).take(i + 1));
        }
        i = i + 1;
    }
    let ghost before = all@;
    all.push(item);
    proof {
        assert(views(items@).take(items.len() as int) =~= views(items@));
        assert(views(all@) =~= views(before).push(item@));
    }
    all
}

/// Writes a native returned closure; see [`spec_native_tokens`].
pub fn native_tokens(
    closure: &ReturnedClosure,
    value: &str,
    storage: &str,
    call: &str,
    release: &str,
    parameters: &InvokeParameters,
    outcome: &InvokeReturn,
) -> (result: Result<WriteTokens, ExpansionError>)
    ensures
        tokens_are(
            result,
            spec_native_tokens(*closure, value@, storage@, call@, release@, *parameters, *outcome),
        ),
{
    let context_value = match closure.context_value(value) {
        Ok(text) => text,
        Err(error) => return Err(error),
    };
    let mut present = "let __boltffi_closure_context = Box::into_raw(Box::new(".to_owned();
    present.append(context_value.as_str());
    present.append(")) as *mut ::core::ffi::c_void; unsafe { *__boltffi_return_out = ");
    present.append(storage);
    present.append(" { invoke: Some(");
    present.append(call);
    present.append("), context: __boltffi_closure_context, release: Some(");
    present.append(release);
    present.append(") }; }");
    let mut absent = "unsafe { *__boltffi_return_out = ".to_owned();
    absent.append(storage);
    absent.append(" { invoke: None, context: ::core::ptr::null_mut(), release: None }; }");
    let write_body = match closure.write_body(value, present.as_str(), absent.as_str()) {
        Ok(text) => text,
        Err(error) => return Err(error),
    };
    let context_type = closure.context_type();
    let mut context = "__boltffi_context as *mut ".to_owned();
    context.append(context_type.as_str());
    let binding = closure.context_binding(context.as_str());
    let mut functions = "#[cfg(not(target_arch = \"wasm32\"))] unsafe extern \"C\" fn ".to_owned();
    functions.append(call);
    functions.append("(__boltffi_context: *mut ::core::ffi::c_void");
    let invoke_parameters = write_prefixed(&parameters.ffi_parameters);
    functions.append(invoke_parameters.as_str());
    let return_parameters = write_prefixed(&outcome.ffi_parameters);
    functions.append(return_parameters.as_str());
    functions.append(") ");
    functions.append(outcome.return_type.as_str());
    functions.append(" { let mut __boltffi_closure = unsafe { ");
    functions.append(binding.as_str());
    functions.append(" }; ");
    let body = invoke_body(parameters, outcome);
    functions.append(body.as_str());
    functions.append(" } #[cfg(not(target_arch = \"wasm32\"))] unsafe extern \"C\" fn ");
    functions.append(release);
    functions.append("(__boltffi_context: *mut ::core::ffi::c_void) { if !__boltffi_context.is_null() { unsafe { drop(Box::from_raw(__boltffi_context as *mut ");
    functions.append(context_type.as_str());
    functions.append(")); } } }");
    let mut text = "#[repr(C)] struct ".to_owned();
    text.append(storage);
    text.append(" { invoke: Option<unsafe extern \"C\" fn(*mut ::core::ffi::c_void");
    let invoke_types = write_prefixed(&parameters.ffi_parameter_types);
    text.append(invoke_types.as_str());
    let return_types = write_prefixed(&outcome.ffi_parameter_types);
    text.append(return_types.as_str());
    text.append(") ");
    text.append(outcome.return_type.as_str());
    text.append(">, context: *mut ::core::ffi::c_void, release: Option<unsafe extern \"C\" fn(*mut ::core::ffi::c_void)>, } if __boltffi_return_out.is_null() { ::boltffi::__private::set_last_error(\"closure return out pointer is null\".to_string()); return ::boltffi::__private::FfiStatus::INVALID_ARG; } let __boltffi_return_out = __boltffi_return_out as *mut ");
    text.append(storage);
    text.append("; ");
    text.append(write_body.as_str());
    let items = push_item(&parameters.items, functions);
    Ok(
        WriteTokens {
            items,
            ffi_parameter: "__boltffi_return_out: *mut ::core::ffi::c_void".to_owned(),
            body: text,
        },
    )
}

/// The exported call and release functions of a WebAssembly closure,
/// whose context is a 32-bit address: call borrows the closure and calls
/// it, release drops the context unless it is 0.
pub open spec fn spec_wasm_functions(
    closure: ReturnedClosure,
    call: Seq<char>,
    release: Seq<char>,
    parameters: InvokeParameters,
    outcome: InvokeReturn,
) -> Seq<char> {
    let context_type = spec_context_type(closure);
    "#[cfg(target_arch = \"wasm32\")] #[unsafe(no_mangle)] pub unsafe extern \"C\" fn "@ + call
        + "(__boltffi_context: u32"@ + prefixed(views(parameters.ffi_parameters@)) + prefixed(
        views(outcome.ffi_parameters@),
    ) + ") "@ + outcome.return_type@ + " { let mut __boltffi_closure = unsafe { "@
        + spec_context_binding(closure, "__boltffi_context as usize as *mut "@ + context_type)
        + " }; "@ + spec_invoke_body(parameters, outcome)
        + " } #[cfg(target_arch = \"wasm32\")] #[unsafe(no_mangle)] pub unsafe extern \"C\" fn "@
        + release
        + "(__boltffi_context: u32) { if __boltffi_context != 0 { unsafe { drop(Box::from_raw(__boltffi_context as usize as *mut "@
        + context_type + ")); } } }"@
}

/// What writing the WebAssembly closure held in `value` gives: the
/// parameters' items and the call and release functions, the out
/// parameter, and the wrapper statements that store the boxed context's
/// address, or 0 for an absent closure; or why it cannot be written.
pub open spec fn spec_wasm_tokens(
    closure: ReturnedClosure,
    value: Seq<char>,
    call: Seq<char>,
    release: Seq<char>,
    parameters: InvokeParameters,
    outcome: InvokeReturn,
) -> Result<(Seq<Seq<char>>, Seq<char>, Seq<char>), ExpansionErrorView> {
    match spec_context_value(closure, value) {
        Err(error) => Err(error),
        Ok(context_value) => match spec_write_body(
            closure,
            value,
            "unsafe { *__boltffi_return_out = Box::into_raw(Box::new("@ + context_value
                + ")) as usize as u32; }"@,
            "unsafe { *__boltffi_return_out = 0; }"@,
        ) {
            Err(error) => Err(error),
            Ok(write_body) => Ok(
                (
                    views(parameters.items@).push(
                        spec_wasm_functions(closure, call, release, parameters, outcome),
                    ),
                    "__boltffi_return_out: *mut u32"@,
                    "if __boltffi_return_out.is_null() { ::boltffi::__private::set_last_error(\"closure return out pointer is null\".to_string()); return ::boltffi::__private::FfiStatus::INVALID_ARG; } "@
                        + write_body,
                ),
            ),
        },
    }
}

/// Writes a WebAssembly returned closure; see [`spec_wasm_tokens`].
pub fn wasm_tokens(
    closure: &ReturnedClosure,
    value: &str,
    call: &str,
    release: &str,
    parameters: &InvokeParameters,
    outcome: &InvokeReturn,
) -> (result: Result<WriteTokens, ExpansionError>)
    ensures
        tokens_are(result, spec_wasm_tokens(*closure, value@, call@, release@, *parameters, *outcome)),
{
    let context_value = match closure.context_value(value) {
        Ok(text) => text,
        Err(error) => return Err(error),
    };
    let mut present = "unsafe { *__boltffi_return_out = Box::into_raw(Box::new(".to_owned();
    present.append(context_value.as_str());
    present.append(")) as usize as u32; }");
    let write_body = match closure.write_body(
        value,
        present.as_str(),
        "unsafe { *__boltffi_return_out = 0; }",
    ) {
        Ok(text) => text,
        Err(error) => return Err(error),
    };
    let context_type = closure.context_type();
    let mut context = "__boltffi_context as usize as *mut ".to_owned();
    context.append(context_type.as_str());
    let binding = closure.context_binding(context.as_str());
    let mut functions = "#[cfg(target_arch = \"wasm32\")] #[unsafe(no_mangle)] pub unsafe extern \"C\" fn ".to_owned();
    functions.append(call);
    functions.append("(__boltffi_context: u32");
    let invoke_parameters = write_prefixed(&parameters.ffi_parameters);
    functions.append(invoke_parameters.as_str());
    let return_parameters = write_prefixed(&outcome.ffi_parameters);
    functions.append(return_parameters.as_str());
    functions.append(") ");
    functions.append(outcome.return_type.as_str());
    functions.append(" { let mut __boltffi_closure = unsafe { ");
    functions.append(binding.as_str());
    functions.append(" }; ");
    let body = invoke_body(parameters, outcome);
    functions.append(body.as_str());
    functions.append(" } #[cfg(target_arch = \"wasm32\")] #[unsafe(no_mangle)] pub unsafe extern \"C\" fn ");
    functions.append(release);
    functions.append("(__boltffi_context: u32) { if __boltffi_context != 0 { unsafe { drop(Box::from_raw(__boltffi_context as usize as *mut ");
    functions.append(context_type.as_str());
    functions.append(")); } } }");
    let mut text = "if __boltffi_return_out.is_null() { ::boltffi::__private::set_last_error(\"closure return out pointer is null\".to_string()); return ::boltffi::__private::FfiStatus::INVALID_ARG; } ".to_owned();
    text.append(write_body.as_str());
    let items = push_item(&parameters.items, functions);
    Ok(
        WriteTokens {
            items,
            ffi_parameter: "__boltffi_return_out: *mut u32".to_owned(),
            body: text,
        },
    )
}

} // verus!
