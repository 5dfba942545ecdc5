//! Closures returned from Rust to the foreign side: the symbols through
//! which the foreign side calls and releases them.
use vstd::prelude::*;

use crate::expansion::{ExpansionError, ExpansionErrorView};

verus! {

/// Which out-parameter a returned closure is written to: the plain return
/// slot or the success slot of a fallible return.
#[derive(Clone, Copy, Debug, Eq, PartialEq, Structural)]
pub enum ReturnLane {
    Return,
    Success,
}

/// The name suffix of a lane.
pub open spec fn lane_suffix(lane: ReturnLane) -> Seq<char> {
    match lane {
        ReturnLane::Return => "closure"@,
        ReturnLane::Success => "success_closure"@,
    }
}

impl ReturnLane {
    /// The name suffix of this lane.
    pub fn suffix(self) -> (suffix: &'static str)
        ensures
            suffix@ == lane_suffix(self),
    {
        proof {
            reveal_strlit("closure");
            reveal_strlit("success_closure");
        }
        match self {
            ReturnLane::Return => "closure",
            ReturnLane::Success => "success_closure",
        }
    }
}

/// How the binding registers a returned closure with the foreign side.
pub enum Registration {
    /// A native closure passed as an invoke function, a context and a
    /// release function.
    NativeInvokeContextRelease,
    /// A native registration this expansion does not know.
    NativeOther,
    /// A WebAssembly closure whose call and free functions the binding
    /// exports under these names.
    Wasm32 { call: String, free: String },
}

/// A returned closure to write out: its registration, the local that holds
/// it, the function that returned it and the slot it goes to.
pub struct WriteInput {
    pub registration: Registration,
    pub value: String,
    pub owner: String,
    pub lane: ReturnLane,
}

impl WriteInput {
    /// A closure returned as the wrapper's plain result.
    pub fn returned(registration: Registration, value: String, owner: String) -> (input: Self)
        ensures
            input.registration == registration,
            input.value == value,
            input.owner == owner,
            input.lane == ReturnLane::Return,
    {
        WriteInput { registration, value, owner, lane: ReturnLane::Return }
    }

    /// A closure returned as the success value of a fallible result.
    pub fn success(registration: Registration, value: String, owner: String) -> (input: Self)
        ensures
            input.registration == registration,
            input.value == value,
            input.owner == owner,
            input.lane == ReturnLane::Success,
    {
        WriteInput { registration, value, owner, lane: ReturnLane::Success }
    }
}

/// The symbols of a written closure.
pub enum ClosureSymbols {
    /// The `#[repr(C)]` struct written through the out pointer, and the
    /// invoke and release functions stored in it.
    Native { storage: String, call: String, release: String },
    /// The exported call and release functions.
    Wasm32 { call: String, release: String },
}

/// The name of the struct a native closure is written as.
pub open spec fn storage_name(value: Seq<char>) -> Seq<char> {
    "__BoltffiClosureReturn"@ + value
}

/// The name of a native closure's `action` function (`call` or `release`).
pub open spec fn native_symbol(owner: Seq<char>, lane: ReturnLane, action: Seq<char>) -> Seq<char> {
    "__boltffi_"@ + owner + "_"@ + lane_suffix(lane) + "_"@ + action
}

/// The symbols that writing `input` gives, or why it cannot be written.
pub open spec fn written_as(input: WriteInput, result: Result<ClosureSymbols, ExpansionError>) -> bool {
    match input.registration {
        Registration::NativeInvokeContextRelease => result matches Ok(
            ClosureSymbols::Native { storage, call, release },
        ) && storage@ == storage_name(input.value@) && call@ == native_symbol(
            input.owner@,
            input.lane,
            "call"@,
        ) && release@ == native_symbol(input.owner@, input.lane, "release"@),
        Registration::NativeOther => result matches Err(error) && error@
            == ExpansionErrorView::UnsupportedExpansion(
            "unknown native closure return registration"@,
        ),
        Registration::Wasm32 { call: exported_call, free } => result matches Ok(
            ClosureSymbols::Wasm32 { call, release },
        ) && call@ == exported_call@ && release@ == free@,
    }
}

fn native_symbol_text(owner: &String, lane: ReturnLane, action: &str) -> (symbol: String)
    ensures
        symbol@ == native_symbol(owner@, lane, action@),
{
    proof {
        reveal_strlit("__boltffi_");
        reveal_strlit("_");
    }
    let mut symbol = "__boltffi_".to_owned();
    symbol.append(owner.as_str());
    symbol.append("_");
    symbol.append(lane.suffix());
    symbol.append("_");
    symbol.append(action);
    symbol
}

/// Writes a returned closure to its out pointer.
pub struct Write;

impl Write {
    /// The symbols of the written closure: on native targets a storage
    /// struct named after the local and invoke and release functions named
    /// after the owner and the lane; on WebAssembly the functions the
    /// binding exports.
    pub fn render(self, input: WriteInput) -> (result: Result<ClosureSymbols, ExpansionError>)
        ensures
            written_as(input, result),
    {
        proof {
            reveal_strlit("__BoltffiClosureReturn");
            reveal_strlit("call");
            reveal_strlit("release");
        }
        match &input.registration {
            Registration::NativeInvokeContextRelease => {
                let mut storage = "__BoltffiClosureReturn".to_owned();
                storage.append(input.value.as_str());
                let call = native_symbol_text(&input.owner, input.lane, "call");
                let release = native_symbol_text(&input.owner, input.lane, "release");
                Ok(ClosureSymbols::Native { storage, call, release })
            },
            Registration::NativeOther => Err(
                ExpansionError::UnsupportedExpansion("unknown native closure return registration"),
            ),
            Registration::Wasm32 { call, free } => Ok(
                ClosureSymbols::Wasm32 { call: call.clone(), release: free.clone() },
            ),
        }
    }
}

} // verus!
