//! The names of the locals that generated wrappers declare. Every name
//! starts with `__boltffi_` so that it cannot clash with a user's names.
use vstd::prelude::*;

use crate::text::{decimal, decimal_string};

verus! {

/// The prefix of every generated name.
pub open spec fn prefix() -> Seq<char> {
    "__boltffi_"@
}

/// The names a wrapper body uses for its own locals.
pub struct Wrapper;

impl Wrapper {
    pub fn new() -> Self {
        Wrapper
    }

    pub fn result(&self) -> (name: String)
        ensures
            name@ == "__boltffi_result"@,
    {
        "__boltffi_result".to_owned()
    }

    pub fn error(&self) -> (name: String)
        ensures
            name@ == "__boltffi_error"@,
    {
        "__boltffi_error".to_owned()
    }

    pub fn success(&self) -> (name: String)
        ensures
            name@ == "__boltffi_success"@,
    {
        "__boltffi_success".to_owned()
    }

    pub fn value(&self) -> (name: String)
        ensures
            name@ == "__boltffi_value"@,
    {
        "__boltffi_value".to_owned()
    }

    pub fn return_out(&self) -> (name: String)
        ensures
            name@ == "__boltffi_return_out"@,
    {
        "__boltffi_return_out".to_owned()
    }

    pub fn closure(&self) -> (name: String)
        ensures
            name@ == "__boltffi_closure"@,
    {
        "__boltffi_closure".to_owned()
    }

    pub fn closure_context(&self) -> (name: String)
        ensures
            name@ == "__boltffi_closure_context"@,
    {
        "__boltffi_closure_context".to_owned()
    }

    pub fn success_out(&self) -> (name: String)
        ensures
            name@ == "__boltffi_success_out"@,
    {
        "__boltffi_success_out".to_owned()
    }
}

/// The names derived from one source parameter.
pub struct Parameter<'a> {
    source: &'a str,
}

/// `__boltffi_{source}{suffix}`
pub open spec fn derived(source: Seq<char>, suffix: Seq<char>) -> Seq<char> {
    prefix() + source + suffix
}

fn derive_name(source: &str, suffix: &str) -> (name: String)
    ensures
        name@ == derived(source@, suffix@),
{
    proof {
        reveal_strlit("__boltffi_");
    }
    let mut name = "__boltffi_".to_owned();
    name.append(source);
    name.append(suffix);
    name
}

impl<'a> Parameter<'a> {
    pub fn new(source: &'a str) -> (parameter: Self)
        ensures
            parameter.source() == source@,
    {
        Parameter { source }
    }

    /// The source parameter's name.
    pub closed spec fn source(&self) -> Seq<char> {
        self.source@
    }

    pub fn pointer(&self) -> (name: String)
        ensures
            name@ == derived(self.source(), "_ptr"@),
    {
        derive_name(self.source, "_ptr")
    }

    pub fn length(&self) -> (name: String)
        ensures
            name@ == derived(self.source(), "_len"@),
    {
        derive_name(self.source, "_len")
    }

    pub fn storage(&self) -> (name: String)
        ensures
            name@ == derived(self.source(), "_storage"@),
    {
        derive_name(self.source, "_storage")
    }

    pub fn writeback(&self) -> (name: String)
        ensures
            name@ == derived(self.source(), "_out"@),
    {
        derive_name(self.source, "_out")
    }

    pub fn handle(&self) -> (name: String)
        ensures
            name@ == derived(self.source(), "_handle"@),
    {
        derive_name(self.source, "_handle")
    }
}

/// The names of the `index`-th argument of a closure.
pub struct ClosureArgument {
    index: usize,
}

/// `{head}{index}{suffix}`, the index in decimal.
pub open spec fn indexed(head: Seq<char>, index: usize, suffix: Seq<char>) -> Seq<char> {
    head + decimal(index as nat) + suffix
}

fn indexed_name(head: &str, index: usize, suffix: &str) -> (name: String)
    ensures
        name@ == indexed(head@, index, suffix@),
{
    let mut name = head.to_owned();
    let digits = decimal_string(index);
    name.append(digits.as_str());
    name.append(suffix);
    name
}

impl ClosureArgument {
    pub fn new(index: usize) -> (argument: Self)
        ensures
            argument.index() == index,
    {
        ClosureArgument { index }
    }

    /// The argument's position.
    pub closed spec fn index(&self) -> usize {
        self.index
    }

    pub fn value(&self) -> (name: String)
        ensures
            name@ == indexed("__boltffi_arg"@, self.index(), ""@),
    {
        indexed_name("__boltffi_arg", self.index, "")
    }

    pub fn ffi(&self) -> (name: String)
        ensures
            name@ == indexed("__boltffi_ffi_arg"@, self.index(), ""@),
    {
        indexed_name("__boltffi_ffi_arg", self.index, "")
    }

    pub fn pointer(&self) -> (name: String)
        ensures
            name@ == indexed("__boltffi_arg"@, self.index(), "_ptr"@),
    {
        indexed_name("__boltffi_arg", self.index, "_ptr")
    }

    pub fn length(&self) -> (name: String)
        ensures
            name@ == indexed("__boltffi_arg"@, self.index(), "_len"@),
    {
        indexed_name("__boltffi_arg", self.index, "_len")
    }

    pub fn wire(&self) -> (name: String)
        ensures
            name@ == indexed("__boltffi_arg"@, self.index(), "_wire"@),
    {
        indexed_name("__boltffi_arg", self.index, "_wire")
    }
}

/// The names derived from one field of an encoded record.
pub struct RecordField<'a> {
    field: &'a str,
}

impl<'a> RecordField<'a> {
    pub fn new(field: &'a str) -> (names: Self)
        ensures
            names.field() == field@,
    {
        RecordField { field }
    }

    /// The field's name.
    pub closed spec fn field(&self) -> Seq<char> {
        self.field@
    }

    /// The field's value converted for the wire.
    pub fn wire(&self) -> (name: String)
        ensures
            name@ == derived(self.field(), "_wire"@),
    {
        derive_name(self.field, "_wire")
    }

    /// The field's value as decoded.
    pub fn decoded(&self) -> (name: String)
        ensures
            name@ == derived(self.field(), "_decoded"@),
    {
        derive_name(self.field, "_decoded")
    }

    /// How many bytes decoding the field used.
    pub fn used(&self) -> (name: String)
        ensures
            name@ == derived(self.field(), "_used"@),
    {
        derive_name(self.field, "_used")
    }
}

} // verus!
