//! Scoped handle regions: bounding the temporary handles a long-running
//! nested computation accumulates inside one outer call.
//!
//! Without regioning, a loop that creates a fresh temporary value each
//! iteration keeps every one of them live until the whole outer call
//! returns. The two drivers here run the classic shapes of such a loop
//! against nested regions and prove the bound: the side-effecting driver
//! leaves no temporary behind at all, and the value-producing driver
//! leaves exactly the one escaped value per iteration, each carrying the
//! running sum it escaped with.

use vstd::prelude::*;
use vstd::pervasive::unreached;
use crate::raw::{Env, Local};
use crate::bindings::BindingTable;
use crate::host::{Host, HostValue, host_fields_eq, host_pushed};

verus! {

/// A side-effecting scope per iteration: each round opens a fresh region,
/// creates one temporary numeric value of `1`, reads it back into a
/// running sum, and closes the region — discarding the temporary — before
/// the next round. The handle returned is a fresh number holding the sum
/// of every contribution, and it is the only value the loop leaves in the
/// caller's region: the host's handle table ends exactly one value longer
/// than it began.
pub fn execute_scoped(env: Env, iterations: u32, table: &BindingTable, host: &mut Host) -> (r:
    Local)
    requires
        table.wf(),
        table.loaded(),
        old(host).wf(),
        old(host).valid_env(env),
        old(host).has_handle_capacity(),
        !old(host).pending_exception,
    ensures
        final(host).wf(),
        host_pushed(*old(host), *final(host), HostValue::Number(iterations as i64)),
        final(host).live(r),
        final(host).slot(r) == HostValue::Number(iterations as i64),
{
    let mut total: i64 = 0;
    let mut i: u32 = 0;
    while i < iterations
        invariant
            table.wf(),
            table.loaded(),
            host.wf(),
            host.valid_env(env),
            host.has_handle_capacity(),
            !host.pending_exception,
            i <= iterations,
            total == i as i64,
            host_fields_eq(*old(host), *host),
        decreases iterations - i,
    {
        let ghost pre = *host;
        match table.open_scope(host, env) {
            Ok(_) => (),
            Err(_) => unreached(),
        }
        let n = match table.create_number(host, env, 1) {
            Ok(l) => l,
            Err(_) => unreached(),
        };
        let v = match table.get_value_number(host, env, n) {
            Ok(v) => v,
            Err(_) => unreached(),
        };
        match table.close_scope(host, env) {
            Ok(_) => (),
            Err(_) => unreached(),
        }
        proof {
            assert(host.values@ =~= pre.values@);
            assert(host.scopes@ =~= pre.scopes@);
        }
        total = total + v;
        i = i + 1;
    }
    match table.create_number(host, env, total) {
        Ok(l) => l,
        Err(_) => unreached(),
    }
}

/// A value-producing scope per iteration: each round opens an escapable
/// region, creates the iteration's contribution of `1` and a fresh number
/// holding the new running sum, then escapes only that sum into the
/// enclosing region as it closes — the contribution and the superseded
/// sum are discarded with their region. The final handle holds the
/// arithmetic sum of every contribution; of everything created inside the
/// regions, exactly one escaped value per iteration survives, so the
/// handle table grows by the iteration count plus the initial sum, never
/// by the number of temporaries.
pub fn compute_scoped(env: Env, iterations: u32, table: &BindingTable, host: &mut Host) -> (r:
    Local)
    requires
        table.wf(),
        table.loaded(),
        old(host).wf(),
        old(host).valid_env(env),
        old(host).values@.len() + iterations as int + 3 < usize::MAX,
        !old(host).pending_exception,
    ensures
        final(host).wf(),
        final(host).env_id == old(host).env_id,
        final(host).values@.len() == old(host).values@.len() + 1 + iterations as int,
        final(host).values@.subrange(0, old(host).values@.len() as int) == old(host).values@,
        final(host).scopes@ == old(host).scopes@,
        final(host).externals@ == old(host).externals@,
        final(host).finalize_log@ == old(host).finalize_log@,
        final(host).pending_exception == old(host).pending_exception,
        final(host).live(r),
        final(host).slot(r) == HostValue::Number(iterations as i64),
{
    let mut acc_out = Local { ptr: 0 };
    crate::primitive::number(&mut acc_out, env, 0, table, host);
    let mut acc = acc_out;
    proof {
        assert(host.values@.subrange(0, old(host).values@.len() as int) =~= old(host).values@);
    }
    let mut i: u32 = 0;
    while i < iterations
        invariant
            table.wf(),
            table.loaded(),
            host.wf(),
            host.valid_env(env),
            !host.pending_exception,
            i <= iterations,
            host.values@.len() == old(host).values@.len() + 1 + i as int,
            host.values@.len() + (iterations as int - i as int) + 2 < usize::MAX,
            host.values@.subrange(0, old(host).values@.len() as int) == old(host).values@,
            host.env_id == old(host).env_id,
            host.scopes@ == old(host).scopes@,
            host.externals@ == old(host).externals@,
            host.finalize_log@ == old(host).finalize_log@,
            host.pending_exception == old(host).pending_exception,
            host.live(acc),
            host.slot(acc) == HostValue::Number(i as i64),
        decreases iterations - i,
    {
        let ghost pre = *host;
        match table.open_escapable_scope(host, env) {
            Ok(_) => (),
            Err(_) => unreached(),
        }
        let n = match table.create_number(host, env, 1) {
            Ok(l) => l,
            Err(_) => unreached(),
        };
        let left = match table.get_value_number(host, env, acc) {
            Ok(v) => v,
            Err(_) => unreached(),
        };
        let right = match table.get_value_number(host, env, n) {
            Ok(v) => v,
            Err(_) => unreached(),
        };
        let s = match table.create_number(host, env, left + right) {
            Ok(l) => l,
            Err(_) => unreached(),
        };
        acc = match table.escape_and_close_scope(host, env, s) {
            Ok(l) => l,
            Err(_) => unreached(),
        };
        proof {
            assert(host.values@ =~= pre.values@.push(HostValue::Number((i + 1) as i64)));
            assert(host.scopes@ =~= pre.scopes@);
            assert(host.values@.subrange(0, old(host).values@.len() as int) =~= old(host).values@);
        }
        i = i + 1;
    }
    acc
}

} // verus!
