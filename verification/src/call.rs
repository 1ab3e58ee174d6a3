//! The call context adapter: turns the opaque per-call descriptor into
//! the four pieces every call handler needs — receiver, arguments,
//! attached data, and call kind.
//!
//! Every query the ABI guarantees to succeed for a live descriptor is
//! proved to: the fatal branch reserved for a contract-violating host is
//! proved unreachable here. The one exception is the
//! attached-data query, whose failure the ABI documents as a benign
//! absence.

use vstd::prelude::*;
use vstd::pervasive::unreached;
use crate::raw::{Env, Local, CallbackInfo};
use crate::bindings::BindingTable;

verus! {

/// The two erased entry points describing one registered callable: the
/// fixed trampoline the host jumps to, and the extension closure it
/// recovers through the attached data. The null address stands for "not
/// attached".
pub struct CCallback {
    pub static_callback: u64,
    pub dynamic_callback: u64,
}

impl Default for CCallback {
    /// A callable with neither entry point attached yet.
    fn default() -> (r: Self)
        ensures
            r.static_callback == 0,
            r.dynamic_callback == 0,
    {
        CCallback { static_callback: 0, dynamic_callback: 0 }
    }
}

/// Whether this invocation is a constructing call: asks the host for the
/// call's new-target and checks it against the null sentinel; non-null
/// means constructing, whatever the receiver and arguments hold.
pub fn is_construct(env: Env, info: &CallbackInfo, table: &BindingTable) -> (r: bool)
    requires
        table.wf(),
        table.loaded(),
    ensures
        r == info.constructing(),
{
    match table.get_new_target(env, info) {
        Ok(t) => !t.is_null(),
        Err(_) => unreached(),
    }
}

/// Whether a call is constructing depends on its new-target alone, never
/// on the receiver or the argument content.
pub proof fn lemma_constructing_independent(a: CallbackInfo, b: CallbackInfo)
    requires
        a.new_target == b.new_target,
    ensures
        a.constructing() == b.constructing(),
{
}

/// Extracts the call's receiver into `out`.
pub fn this(env: Env, info: &CallbackInfo, out: &mut Local, table: &BindingTable)
    requires
        table.wf(),
        table.loaded(),
    ensures
        *final(out) == info.this,
{
    match table.cb_info_this(env, info) {
        Ok(t) => {
            *out = t;
        },
        Err(_) => unreached(),
    }
}

/// Overwrites `out` with the callable's attached data pointer. A callable
/// without attached data answers with a failing status; that is not an
/// error, and `out` is left exactly as it was.
pub fn data(env: Env, info: &CallbackInfo, out: &mut u64, table: &BindingTable)
    requires
        table.wf(),
        table.loaded(),
    ensures
        info.data is Some ==> *final(out) == info.data->0,
        info.data is None ==> *final(out) == *old(out),
{
    match table.cb_info_data(env, info) {
        Ok(d) => {
            *out = d;
        },
        Err(_) => {},
    }
}

/// The number of arguments supplied at the call site; the ABI answers
/// this for any live descriptor.
pub fn len(env: Env, info: &CallbackInfo, table: &BindingTable) -> (r: i32)
    requires
        table.wf(),
        table.loaded(),
        info.wf(),
    ensures
        r as int == info.args@.len(),
{
    match table.cb_info_argc(env, info) {
        Ok(n) => n as i32,
        Err(_) => unreached(),
    }
}

/// The argument handles of the call, exactly as many as were supplied and
/// in source order: first queries the count, then requests exactly that
/// many in one round trip. An empty sequence is the answer for a call
/// without arguments.
pub fn argv(env: Env, info: &CallbackInfo, table: &BindingTable) -> (r: Vec<Local>)
    requires
        table.wf(),
        table.loaded(),
        info.wf(),
    ensures
        r@ == info.args@,
{
    let n = len(env, info, table);
    match table.cb_info_argv(env, info, n as usize) {
        Ok(v) => {
            proof {
                assert(v@ =~= info.args@);
            }
            v
        },
        Err(_) => unreached(),
    }
}

} // verus!
