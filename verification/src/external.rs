//! Opaque external values: extension-owned payloads stored behind a
//! host-tracked handle, destroyed exactly once by a host-invoked finalizer.
//!
//! The payload a real extension boxes behind an external is an arbitrary
//! typed value consumed through a type-erased finalizer address; the model
//! carries the payload as a 64-bit value and the finalizer as its erased
//! address, which is exactly what crosses the ABI boundary.

use vstd::prelude::*;
use vstd::pervasive::unreached;
use crate::raw::{Env, Local, Status, ValueType, Fault};
use crate::bindings::BindingTable;
use crate::host::{Host, HostValue, ExtState, host_fields_eq, host_created_external, count_for};

verus! {

/// One invocation of an external value's finalizer, as the host's collector
/// performs it: the environment it ran under, the erased finalizer address
/// that was reconstructed, the payload it consumed, and which external slot
/// it belonged to (the collector's own identity for the value).
#[derive(Clone, Copy, PartialEq, Eq, Structural, Debug)]
pub struct FinalizeRecord {
    /// The external store slot this invocation destroyed.
    pub ext: usize,
    /// The environment the collector supplied to the finalizer.
    pub env: Env,
    /// The erased finalizer address that was reconstructed and called.
    pub finalizer: u64,
    /// The payload the finalizer consumed, moved out of its box.
    pub value: i64,
}

/// The trampoline the collector jumps through immediately before an
/// external is discarded: it reconstructs the boxed payload from `data`,
/// reconstructs the typed finalizer from the erased address `hint`, and
/// invokes it once. The record returned is the invocation itself, which the
/// host appends to its finalization history.
pub fn finalize_external(env: Env, data: i64, hint: u64, ext: usize) -> (r: FinalizeRecord)
    ensures
        r.ext == ext,
        r.env == env,
        r.finalizer == hint,
        r.value == data,
{
    FinalizeRecord { ext, env, finalizer: hint, value: data }
}

/// Moves a payload behind a fresh external handle: the payload and the
/// erased finalizer address are registered with the host's collector,
/// which from now on owns the payload and will destroy it through the
/// trampoline exactly once, some time after it becomes unreachable. The
/// underlying host call fails only when the host is already throwing or
/// shutting down; that failure is fatal to the bridge and surfaces here
/// as the fault it aborts with.
pub fn create(env: Env, v: i64, finalizer: u64, table: &BindingTable, host: &mut Host) -> (r:
    Result<Local, Fault>)
    requires
        table.wf(),
        table.loaded(),
        old(host).wf(),
        old(host).valid_env(env),
        old(host).has_handle_capacity(),
    ensures
        final(host).wf(),
        old(host).pending_exception ==> r == Err::<Local, Fault>(
            Fault::Abi(Status::PendingException),
        ) && host_fields_eq(*old(host), *final(host)),
        !old(host).pending_exception ==> host_created_external(
            *old(host),
            *final(host),
            v,
            finalizer,
        ) && (r matches Ok(h) && final(host).live(h) && final(host).slot(h)
            == HostValue::External(old(host).externals@.len() as usize) && final(host).ext_live(
            old(host).externals@.len() as int,
        )),
{
    match table.create_external(host, env, v, finalizer) {
        Ok(l) => Ok(l),
        Err(f) => Err(f),
    }
}

/// A non-owning view of the payload behind `local`: first confirms, via
/// the host's type query, that the handle refers to a value of the
/// external kind; any other kind answers "absent" rather than failing. A
/// failing type query is a fatal fault of the bridge — it is
/// never mistaken for either the absent or the external answer, and value
/// extraction runs only after an explicit confirmed match. The caller must
/// know the external has not been finalized; what this view cannot tell
/// is whether the external was created by this bridge instance, an
/// accepted gap pending a stronger tagging mechanism.
pub fn deref(env: Env, local: Local, table: &BindingTable, host: &Host) -> (r: Result<
    Option<i64>,
    Fault,
>)
    requires
        table.wf(),
        table.loaded(),
        host.wf(),
        host.valid_env(env),
        host.live(local),
        host.slot(local) matches HostValue::External(k) ==> host.ext_live(k as int),
    ensures
        host.pending_exception ==> r == Err::<Option<i64>, Fault>(
            Fault::Abi(Status::PendingException),
        ),
        !host.pending_exception ==> match host.slot(local) {
            HostValue::External(k) => r == Ok::<Option<i64>, Fault>(
                Some(host.externals@[k as int].data),
            ),
            _ => r == Ok::<Option<i64>, Fault>(None::<i64>),
        },
{
    let k = match table.typeof_value(host, env, local) {
        Ok(k) => k,
        Err(f) => {
            return Err(f);
        },
    };
    if k != ValueType::External {
        return Ok(None);
    }
    match table.get_value_external(host, env, local) {
        Ok(d) => Ok(Some(d)),
        Err(_) => unreached(),
    }
}

/// The exactly-once law for finalization: while an external's slot is
/// live, the host's finalization history holds no invocation for it; once
/// the collector has destroyed it, the history holds exactly one — and
/// every invocation on record for the slot consumed that slot's payload
/// through that slot's registered finalizer.
pub proof fn lemma_finalize_exactly_once(h: Host, k: int)
    requires
        h.wf(),
        0 <= k < h.externals@.len(),
    ensures
        h.externals@[k].state == ExtState::Live ==> count_for(h.finalize_log@, k) == 0,
        h.externals@[k].state == ExtState::Finalized ==> count_for(h.finalize_log@, k) == 1,
        forall|i: int|
            0 <= i < h.finalize_log@.len() && (#[trigger] h.finalize_log@[i]).ext as int == k
                ==> h.finalize_log@[i].finalizer == h.externals@[k].hint && h.finalize_log@[i].value
                == h.externals@[k].data,
{
}

} // verus!
