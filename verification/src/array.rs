//! Facilities for working with the host's array values.

use vstd::prelude::*;
use vstd::pervasive::unreached;
use crate::raw::{Env, Local};
use crate::bindings::BindingTable;
use crate::host::{Host, HostValue, host_pushed};

verus! {

/// Points `out` at a freshly created array of the given length in the
/// current region. The underlying call's success is asserted, so the host
/// must not already be throwing.
pub fn new(out: &mut Local, env: Env, length: u32, table: &BindingTable, host: &mut Host)
    requires
        table.wf(),
        table.loaded(),
        old(host).wf(),
        old(host).valid_env(env),
        old(host).has_handle_capacity(),
        !old(host).pending_exception,
    ensures
        final(host).wf(),
        host_pushed(*old(host), *final(host), HostValue::Array(length)),
        final(out).ptr == old(host).values@.len() + 1,
        final(host).live(*final(out)),
        final(host).slot(*final(out)) == HostValue::Array(length),
{
    match table.create_array_with_length(host, env, length) {
        Ok(l) => {
            *out = l;
        },
        Err(_) => unreached(),
    }
}

/// The length of the array behind `array`. The underlying call's success
/// is asserted, so the handle must refer to an array and the host must
/// not be throwing.
pub fn len(env: Env, array: Local, table: &BindingTable, host: &Host) -> (r: u32)
    requires
        table.wf(),
        table.loaded(),
        host.wf(),
        host.valid_env(env),
        host.live(array),
        !host.pending_exception,
        host.slot(array) matches HostValue::Array(_),
    ensures
        host.slot(array) == HostValue::Array(r),
{
    match table.get_array_length(host, env, array) {
        Ok(n) => n,
        Err(_) => unreached(),
    }
}

} // verus!
