//! The plain tokens that cross the bridge: environment handles, foreign
//! value handles, status codes, value kinds, and faults.

use vstd::prelude::*;

verus! {

/// An opaque token identifying one host execution context. The host
/// supplies it at every callback; the extension never forges one.
#[derive(Clone, Copy, PartialEq, Eq, Structural, Debug)]
pub struct Env {
    pub id: u64,
}

/// An opaque token referring to a host-managed value. The value `0` is the
/// ABI's null sentinel; every real handle is non-zero. Ownership of the
/// referenced value stays with the host's collector.
#[derive(Clone, Copy, PartialEq, Eq, Structural, Debug)]
pub struct Local {
    pub ptr: u64,
}

impl Local {
    /// The ABI's null sentinel.
    pub fn null() -> (r: Local)
        ensures
            r.ptr == 0,
    {
        Local { ptr: 0 }
    }

    /// Whether this handle is the null sentinel.
    pub fn is_null(&self) -> (r: bool)
        ensures
            r == (self.ptr == 0),
    {
        self.ptr == 0
    }
}

/// The status code every host ABI function returns; `Ok` is the only
/// success value, and a non-`Ok` status is the only error channel this
/// layer receives from the host.
#[derive(Clone, Copy, PartialEq, Eq, Structural, Debug)]
pub enum Status {
    Okay,
    InvalidArg,
    ObjectExpected,
    ArrayExpected,
    BooleanExpected,
    NumberExpected,
    PendingException,
    GenericFailure,
}

/// The kind a host value reports for the ABI's type query.
#[derive(Clone, Copy, PartialEq, Eq, Structural, Debug)]
pub enum ValueType {
    Undefined,
    Null,
    Boolean,
    Number,
    Object,
    Function,
    External,
}

/// An opaque per-call token: everything the host will answer about one
/// in-flight call from host code into the extension. It is valid only for
/// the duration of that call; the bridge queries it instead of re-deriving
/// its parts.
pub struct CallbackInfo {
    /// The receiver of the call.
    pub this: Local,
    /// The argument handles, in source call-site order; may be empty.
    pub args: Vec<Local>,
    /// The extension-supplied context pointer, if the callable carries
    /// one; asking for a missing pointer is a benign failure, not a fault.
    pub data: Option<u64>,
    /// The constructing call's new-target, or the null sentinel for a
    /// plain call.
    pub new_target: Local,
}

impl CallbackInfo {
    /// Whether the call was a constructing call: by the ABI's contract
    /// the new-target is null exactly for plain calls, whatever the
    /// receiver and arguments are.
    pub open spec fn constructing(self) -> bool {
        self.new_target.ptr != 0
    }

    /// The argument count fits the integer the ABI reports it in.
    pub open spec fn wf(self) -> bool {
        self.args@.len() <= i32::MAX
    }
}

/// An unrecoverable failure of the bridge itself. A real extension
/// aborts the process on these; the model surfaces them as an explicit
/// result so that the abort condition is part of each contract.
#[derive(Clone, Copy, PartialEq, Eq, Structural, Debug)]
pub enum Fault {
    /// A binding-table entry was invoked before `setup` populated it.
    BindingsNotLoaded,
    /// A required ABI symbol was missing from the host image at load time.
    MissingSymbol,
    /// The host returned a non-`Ok` status where the bridge asserts success.
    Abi(Status),
}

} // verus!
