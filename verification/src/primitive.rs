//! Typed accessors for the host's primitive values: the `undefined`,
//! `null` and boolean singletons, and numeric creation and extraction.
//!
//! The creation accessors keep the ABI's own calling shape: they mutate
//! an `out` handle supplied by the caller. The extraction accessors
//! assert success of the underlying ABI call, so their contracts demand a
//! handle of the right kind and a host that is not already throwing — the
//! inputs on which the bridge would abort are excluded outright.

use vstd::prelude::*;
use vstd::pervasive::unreached;
use crate::raw::{Env, Local};
use crate::bindings::BindingTable;
use crate::host::{Host, HostValue, host_pushed, undefined_local, null_local, bool_local};

verus! {

/// Points `out` at the process-wide `undefined` singleton.
pub fn undefined(out: &mut Local, env: Env, table: &BindingTable, host: &Host)
    requires
        table.wf(),
        table.loaded(),
        host.wf(),
        host.valid_env(env),
    ensures
        *final(out) == undefined_local(),
        host.live(*final(out)),
        host.slot(*final(out)) == HostValue::Undefined,
{
    match table.get_undefined(host, env) {
        Ok(l) => {
            *out = l;
        },
        Err(_) => unreached(),
    }
}

/// Points `out` at the process-wide `null` singleton.
pub fn null(out: &mut Local, env: Env, table: &BindingTable, host: &Host)
    requires
        table.wf(),
        table.loaded(),
        host.wf(),
        host.valid_env(env),
    ensures
        *final(out) == null_local(),
        host.live(*final(out)),
        host.slot(*final(out)) == HostValue::Null,
{
    match table.get_null(host, env) {
        Ok(l) => {
            *out = l;
        },
        Err(_) => unreached(),
    }
}

/// Points `out` at the boolean singleton for `b`.
pub fn boolean(out: &mut Local, env: Env, b: bool, table: &BindingTable, host: &Host)
    requires
        table.wf(),
        table.loaded(),
        host.wf(),
        host.valid_env(env),
    ensures
        *final(out) == bool_local(b),
        host.live(*final(out)),
        host.slot(*final(out)) == HostValue::Boolean(b),
{
    match table.get_boolean(host, env, b) {
        Ok(l) => {
            *out = l;
        },
        Err(_) => unreached(),
    }
}

/// The boolean behind `p`. The underlying call's success is asserted, so
/// `p` must refer to a boolean and the host must not be throwing.
pub fn boolean_value(env: Env, p: Local, table: &BindingTable, host: &Host) -> (r: bool)
    requires
        table.wf(),
        table.loaded(),
        host.wf(),
        host.valid_env(env),
        host.live(p),
        !host.pending_exception,
        host.slot(p) matches HostValue::Boolean(_),
    ensures
        host.slot(p) == HostValue::Boolean(r),
{
    match table.get_value_bool(host, env, p) {
        Ok(b) => b,
        Err(_) => unreached(),
    }
}

/// Points `out` at a freshly created numeric value in the current region.
pub fn number(out: &mut Local, env: Env, v: i64, table: &BindingTable, host: &mut Host)
    requires
        table.wf(),
        table.loaded(),
        old(host).wf(),
        old(host).valid_env(env),
        old(host).has_handle_capacity(),
        !old(host).pending_exception,
    ensures
        final(host).wf(),
        host_pushed(*old(host), *final(host), HostValue::Number(v)),
        final(out).ptr == old(host).values@.len() + 1,
        final(host).live(*final(out)),
        final(host).slot(*final(out)) == HostValue::Number(v),
{
    match table.create_number(host, env, v) {
        Ok(l) => {
            *out = l;
        },
        Err(_) => unreached(),
    }
}

/// The number behind `p`. The underlying call's success is asserted, so
/// `p` must refer to a number and the host must not be throwing.
pub fn number_value(env: Env, p: Local, table: &BindingTable, host: &Host) -> (r: i64)
    requires
        table.wf(),
        table.loaded(),
        host.wf(),
        host.valid_env(env),
        host.live(p),
        !host.pending_exception,
        host.slot(p) matches HostValue::Number(_),
    ensures
        host.slot(p) == HostValue::Number(r),
{
    match table.get_value_number(host, env, p) {
        Ok(n) => n,
        Err(_) => unreached(),
    }
}

} // verus!
