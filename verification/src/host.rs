//! An explicit model of the host runtime's side of the embedding ABI: its
//! handle table, its scope stack, its external-payload store, its collector
//! and its status codes.
//!
//! A real host is foreign code reached through resolved C function
//! pointers; nothing about it can be verified. This module states, as plain
//! data and contracts, exactly what the ABI documents the host to do, so
//! that the bridge layers built on top of it are proved against that
//! statement. A handle is an index into the host's value table; the value
//! `0` stays reserved as the ABI's null sentinel, and the first four slots
//! hold the process-wide `undefined`, `null`, `false` and `true`
//! singletons, created before any scope opens and therefore never
//! discarded by one.

use vstd::prelude::*;
use vstd::pervasive::VecAdditionalExecFns;
use crate::raw::{Env, Local, Status, ValueType};
use crate::external::{FinalizeRecord, finalize_external};

verus! {

/// One value in the host's handle table.
#[derive(Clone, Copy, PartialEq, Eq, Structural, Debug)]
pub enum HostValue {
    Undefined,
    Null,
    Boolean(bool),
    /// A numeric value; the model carries numeric payloads as 64-bit
    /// integers, since that is what the bridge's contracts quantify over.
    Number(i64),
    /// An array, recorded by its length.
    Array(u32),
    /// An opaque callable, usable as a constructing call's new-target.
    Function,
    /// An external value; its payload lives in the external store at the
    /// given index.
    External(usize),
}

/// The kind the host reports for a value when asked by the type query.
/// An array is an object to the type query; only the external kind is
/// distinguished in a way this layer relies on.
pub open spec fn value_kind(v: HostValue) -> ValueType {
    match v {
        HostValue::Undefined => ValueType::Undefined,
        HostValue::Null => ValueType::Null,
        HostValue::Boolean(_) => ValueType::Boolean,
        HostValue::Number(_) => ValueType::Number,
        HostValue::Array(_) => ValueType::Object,
        HostValue::Function => ValueType::Function,
        HostValue::External(_) => ValueType::External,
    }
}

/// Whether a value may refer into an external store of length `n`.
pub open spec fn external_ref_ok(v: HostValue, n: int) -> bool {
    match v {
        HostValue::External(k) => (k as int) < n,
        _ => true,
    }
}

/// The lifecycle of an external payload: live until the collector finds it
/// unreachable and runs its finalizer, finalized forever after.
#[derive(Clone, Copy, PartialEq, Eq, Structural, Debug)]
pub enum ExtState {
    Live,
    Finalized,
}

/// One slot of the host's external-payload store: the payload the
/// extension boxed, the erased finalizer address it registered, and
/// whether the collector has destroyed it yet.
#[derive(Clone, Copy, PartialEq, Eq, Structural, Debug)]
pub struct ExternalSlot {
    pub data: i64,
    pub hint: u64,
    pub state: ExtState,
}

/// How many entries of a finalization history belong to external slot `k`.
pub open spec fn count_for(log: Seq<FinalizeRecord>, k: int) -> int
    decreases log.len(),
{
    if log.len() == 0 {
        0
    } else {
        count_for(log.drop_last(), k) + if log.last().ext as int == k {
            1int
        } else {
            0int
        }
    }
}

/// Appending one record raises exactly the count of the slot it names.
pub proof fn lemma_count_for_push(log: Seq<FinalizeRecord>, r: FinalizeRecord, k: int)
    ensures
        count_for(log.push(r), k) == count_for(log, k) + if r.ext as int == k {
            1int
        } else {
            0int
        },
{
    assert(log.push(r).drop_last() =~= log);
    assert(log.push(r).last() == r);
}

/// A history that names a slot nowhere counts zero for it.
pub proof fn lemma_count_for_absent(log: Seq<FinalizeRecord>, k: int)
    requires
        forall|i: int| 0 <= i < log.len() ==> (#[trigger] log[i]).ext as int != k,
    ensures
        count_for(log, k) == 0,
    decreases log.len(),
{
    if log.len() > 0 {
        assert(log.last() == log[log.len() - 1]);
        assert forall|i: int| 0 <= i < log.drop_last().len() implies (#[trigger] log.drop_last()[i]).ext
            as int != k by {
            assert(log.drop_last()[i] == log[i]);
        }
        lemma_count_for_absent(log.drop_last(), k);
    }
}

/// The host's state. All fields are open to specification so that every
/// bridge contract can say exactly what it observes and changes; the
/// exec methods are the only transitions the model performs.
pub struct Host {
    /// The identity of the one execution context this host exposes.
    pub env_id: u64,
    /// The handle table: handle `p` refers to `values[p - 1]`.
    pub values: Vec<HostValue>,
    /// The scope stack, as watermarks into the handle table: closing a
    /// scope discards every handle created at or above its mark.
    pub scopes: Vec<usize>,
    /// The external-payload store, owned by the collector, untouched by
    /// scope exits.
    pub externals: Vec<ExternalSlot>,
    /// Every finalizer invocation the collector has performed, in order.
    pub finalize_log: Vec<FinalizeRecord>,
    /// Whether the host is in a throwing state; most ABI calls refuse to
    /// run in one.
    pub pending_exception: bool,
}

/// The handle of the `undefined` singleton.
pub open spec fn undefined_local() -> Local {
    Local { ptr: 1 }
}

/// The handle of the `null` singleton.
pub open spec fn null_local() -> Local {
    Local { ptr: 2 }
}

/// The handle of the boolean singleton for `b`.
pub open spec fn bool_local(b: bool) -> Local {
    Local { ptr: if b { 4 } else { 3 } }
}

/// The two host states agree in every observable field.
pub open spec fn host_fields_eq(pre: Host, post: Host) -> bool {
    &&& post.env_id == pre.env_id
    &&& post.values@ == pre.values@
    &&& post.scopes@ == pre.scopes@
    &&& post.externals@ == pre.externals@
    &&& post.finalize_log@ == pre.finalize_log@
    &&& post.pending_exception == pre.pending_exception
}

/// `post` is `pre` with one more value in the handle table and nothing
/// else changed.
pub open spec fn host_pushed(pre: Host, post: Host, v: HostValue) -> bool {
    &&& post.env_id == pre.env_id
    &&& post.values@ == pre.values@.push(v)
    &&& post.scopes@ == pre.scopes@
    &&& post.externals@ == pre.externals@
    &&& post.finalize_log@ == pre.finalize_log@
    &&& post.pending_exception == pre.pending_exception
}

/// `post` is `pre` with a fresh live external slot and the handle that
/// refers to it.
pub open spec fn host_created_external(pre: Host, post: Host, data: i64, hint: u64) -> bool {
    &&& post.env_id == pre.env_id
    &&& post.externals@ == pre.externals@.push(ExternalSlot { data, hint, state: ExtState::Live })
    &&& post.values@ == pre.values@.push(HostValue::External(pre.externals@.len() as usize))
    &&& post.scopes@ == pre.scopes@
    &&& post.finalize_log@ == pre.finalize_log@
    &&& post.pending_exception == pre.pending_exception
}

/// `post` is `pre` with one more handle region opened.
pub open spec fn host_opened_scope(pre: Host, post: Host) -> bool {
    &&& post.env_id == pre.env_id
    &&& post.values@ == pre.values@
    &&& post.scopes@ == pre.scopes@.push(pre.values@.len() as usize)
    &&& post.externals@ == pre.externals@
    &&& post.finalize_log@ == pre.finalize_log@
    &&& post.pending_exception == pre.pending_exception
}

/// `post` is `pre` with the innermost region closed and every handle it
/// created discarded.
pub open spec fn host_closed_scope(pre: Host, post: Host) -> bool {
    &&& pre.scopes@.len() > 0
    &&& post.env_id == pre.env_id
    &&& post.values@ == pre.values@.take(pre.scopes@.last() as int)
    &&& post.scopes@ == pre.scopes@.drop_last()
    &&& post.externals@ == pre.externals@
    &&& post.finalize_log@ == pre.finalize_log@
    &&& post.pending_exception == pre.pending_exception
}

/// `post` is `pre` with the innermost region closed and the one value
/// behind `h` escaped into the enclosing region as handle `r`.
pub open spec fn host_escaped(pre: Host, post: Host, h: Local, r: Local) -> bool {
    &&& pre.scopes@.len() > 0
    &&& post.env_id == pre.env_id
    &&& post.values@ == pre.values@.take(pre.scopes@.last() as int).push(pre.slot(h))
    &&& post.scopes@ == pre.scopes@.drop_last()
    &&& post.externals@ == pre.externals@
    &&& post.finalize_log@ == pre.finalize_log@
    &&& post.pending_exception == pre.pending_exception
    &&& r.ptr == pre.scopes@.last() + 1
    &&& post.live(r)
    &&& post.slot(r) == pre.slot(h)
}

impl Host {
    /// Whether `env` is the context this host supplied.
    pub open spec fn valid_env(self, env: Env) -> bool {
        env.id == self.env_id
    }

    /// Whether `h` currently refers to a value in the handle table.
    pub open spec fn live(self, h: Local) -> bool {
        1 <= h.ptr && h.ptr <= self.values@.len()
    }

    /// The value `h` refers to.
    pub open spec fn slot(self, h: Local) -> HostValue {
        self.values@[h.ptr as int - 1]
    }

    /// The kind the type query reports for `h`.
    pub open spec fn kind_of(self, h: Local) -> ValueType {
        value_kind(self.slot(h))
    }

    /// Whether external slot `k` is still awaiting its finalizer.
    pub open spec fn ext_live(self, k: int) -> bool {
        0 <= k < self.externals@.len() && self.externals@[k].state == ExtState::Live
    }

    /// Whether no handle in the table reaches external slot `k` any more;
    /// only then may the collector destroy it.
    pub open spec fn ext_unreachable(self, k: usize) -> bool {
        forall|i: int| 0 <= i < self.values@.len() ==> self.values@[i] != HostValue::External(k)
    }

    /// Room for one more handle, a machine limit rather than a rule of the
    /// ABI.
    pub open spec fn has_handle_capacity(self) -> bool {
        self.values@.len() < usize::MAX
    }

    /// The four process-wide singletons sit below every scope mark.
    pub open spec fn singletons_ok(self) -> bool {
        &&& self.values@.len() >= 4
        &&& self.values@[0] == HostValue::Undefined
        &&& self.values@[1] == HostValue::Null
        &&& self.values@[2] == HostValue::Boolean(false)
        &&& self.values@[3] == HostValue::Boolean(true)
    }

    /// Scope marks never cut into the singletons, never pass the table's
    /// end, and nest monotonically.
    pub open spec fn scopes_ok(self) -> bool {
        &&& forall|i: int|
            0 <= i < self.scopes@.len() ==> 4 <= #[trigger] self.scopes@[i]
                && self.scopes@[i] <= self.values@.len()
        &&& forall|i: int, j: int|
            0 <= i <= j < self.scopes@.len() ==> #[trigger] self.scopes@[i] <= #[trigger] self.scopes@[j]
    }

    /// Every external handle points into the external store.
    pub open spec fn exts_ok(self) -> bool {
        forall|i: int|
            0 <= i < self.values@.len() ==> external_ref_ok(
                #[trigger] self.values@[i],
                self.externals@.len() as int,
            )
    }

    /// Every finalizer invocation on record destroyed an existing slot,
    /// ran the finalizer that slot registered, and consumed that slot's
    /// payload.
    pub open spec fn log_ok(self) -> bool {
        forall|i: int|
            0 <= i < self.finalize_log@.len() ==> {
                let r = #[trigger] self.finalize_log@[i];
                &&& (r.ext as int) < self.externals@.len()
                &&& r.finalizer == self.externals@[r.ext as int].hint
                &&& r.value == self.externals@[r.ext as int].data
            }
    }

    /// The exactly-once discipline: a live slot has never fired its
    /// finalizer, a finalized slot has fired it exactly once.
    pub open spec fn fired_ok(self) -> bool {
        forall|k: int|
            0 <= k < self.externals@.len() ==> {
                &&& ((#[trigger] self.externals@[k]).state == ExtState::Live ==> count_for(
                    self.finalize_log@,
                    k,
                ) == 0)
                &&& (self.externals@[k].state == ExtState::Finalized ==> count_for(
                    self.finalize_log@,
                    k,
                ) == 1)
            }
    }

    /// The host's invariant; every transition preserves it.
    pub open spec fn wf(self) -> bool {
        &&& self.singletons_ok()
        &&& self.scopes_ok()
        &&& self.exts_ok()
        &&& self.log_ok()
        &&& self.fired_ok()
    }

    /// A fresh host: the four singletons, no scopes, no externals, no
    /// finalizations, not throwing.
    pub fn new(env_id: u64) -> (h: Host)
        ensures
            h.wf(),
            h.env_id == env_id,
            h.values@.len() == 4,
            h.scopes@.len() == 0,
            h.externals@.len() == 0,
            h.finalize_log@.len() == 0,
            !h.pending_exception,
    {
        let mut values: Vec<HostValue> = Vec::new();
        values.push(HostValue::Undefined);
        values.push(HostValue::Null);
        values.push(HostValue::Boolean(false));
        values.push(HostValue::Boolean(true));
        Host {
            env_id,
            values,
            scopes: Vec::new(),
            externals: Vec::new(),
            finalize_log: Vec::new(),
            pending_exception: false,
        }
    }

    /// The environment token this host hands to every callback.
    pub fn env(&self) -> (e: Env)
        ensures
            self.valid_env(e),
    {
        Env { id: self.env_id }
    }

    /// The `undefined` singleton; the ABI documents this accessor as
    /// always succeeding.
    pub fn get_undefined(&self, env: Env) -> (r: Local)
        requires
            self.wf(),
            self.valid_env(env),
        ensures
            r == undefined_local(),
            self.live(r),
            self.slot(r) == HostValue::Undefined,
    {
        Local { ptr: 1 }
    }

    /// The `null` singleton.
    pub fn get_null(&self, env: Env) -> (r: Local)
        requires
            self.wf(),
            self.valid_env(env),
        ensures
            r == null_local(),
            self.live(r),
            self.slot(r) == HostValue::Null,
    {
        Local { ptr: 2 }
    }

    /// The boolean singleton for `b`.
    pub fn get_boolean(&self, env: Env, b: bool) -> (r: Local)
        requires
            self.wf(),
            self.valid_env(env),
        ensures
            r == bool_local(b),
            self.live(r),
            self.slot(r) == HostValue::Boolean(b),
    {
        if b {
            Local { ptr: 4 }
        } else {
            Local { ptr: 3 }
        }
    }

    /// Extracts the boolean behind `v`; refused in a throwing state or
    /// for a value of another kind.
    pub fn get_value_bool(&self, env: Env, v: Local) -> (r: Result<bool, Status>)
        requires
            self.wf(),
            self.valid_env(env),
            self.live(v),
        ensures
            self.pending_exception ==> r == Err::<bool, Status>(Status::PendingException),
            !self.pending_exception ==> match self.slot(v) {
                HostValue::Boolean(b) => r == Ok::<bool, Status>(b),
                _ => r == Err::<bool, Status>(Status::BooleanExpected),
            },
    {
        if self.pending_exception {
            return Err(Status::PendingException);
        }
        let n = self.values.len();
        let i = (v.ptr - 1) as usize;
        match self.values[i] {
            HostValue::Boolean(b) => Ok(b),
            _ => Err(Status::BooleanExpected),
        }
    }

    /// Creates a fresh numeric value in the current scope.
    pub fn create_number(&mut self, env: Env, v: i64) -> (r: Result<Local, Status>)
        requires
            old(self).wf(),
            old(self).valid_env(env),
            old(self).has_handle_capacity(),
        ensures
            final(self).wf(),
            final(self).env_id == old(self).env_id,
            final(self).scopes@ == old(self).scopes@,
            final(self).externals@ == old(self).externals@,
            final(self).finalize_log@ == old(self).finalize_log@,
            final(self).pending_exception == old(self).pending_exception,
            old(self).pending_exception ==> r == Err::<Local, Status>(Status::PendingException)
                && final(self).values@ == old(self).values@,
            !old(self).pending_exception ==> {
                &&& final(self).values@ == old(self).values@.push(HostValue::Number(v))
                &&& r matches Ok(h) && h.ptr == old(self).values@.len() + 1
            },
    {
        if self.pending_exception {
            return Err(Status::PendingException);
        }
        let p = self.values.len() as u64 + 1;
        self.values.push(HostValue::Number(v));
        Ok(Local { ptr: p })
    }

    /// Extracts the number behind `v`.
    pub fn get_value_number(&self, env: Env, v: Local) -> (r: Result<i64, Status>)
        requires
            self.wf(),
            self.valid_env(env),
            self.live(v),
        ensures
            self.pending_exception ==> r == Err::<i64, Status>(Status::PendingException),
            !self.pending_exception ==> match self.slot(v) {
                HostValue::Number(n) => r == Ok::<i64, Status>(n),
                _ => r == Err::<i64, Status>(Status::NumberExpected),
            },
    {
        if self.pending_exception {
            return Err(Status::PendingException);
        }
        let n = self.values.len();
        let i = (v.ptr - 1) as usize;
        match self.values[i] {
            HostValue::Number(n) => Ok(n),
            _ => Err(Status::NumberExpected),
        }
    }

    /// Creates a fresh array of the given length in the current scope.
    pub fn create_array_with_length(&mut self, env: Env, length: u32) -> (r: Result<Local, Status>)
        requires
            old(self).wf(),
            old(self).valid_env(env),
            old(self).has_handle_capacity(),
        ensures
            final(self).wf(),
            final(self).env_id == old(self).env_id,
            final(self).scopes@ == old(self).scopes@,
            final(self).externals@ == old(self).externals@,
            final(self).finalize_log@ == old(self).finalize_log@,
            final(self).pending_exception == old(self).pending_exception,
            old(self).pending_exception ==> r == Err::<Local, Status>(Status::PendingException)
                && final(self).values@ == old(self).values@,
            !old(self).pending_exception ==> {
                &&& final(self).values@ == old(self).values@.push(HostValue::Array(length))
                &&& r matches Ok(h) && h.ptr == old(self).values@.len() + 1
            },
    {
        if self.pending_exception {
            return Err(Status::PendingException);
        }
        let p = self.values.len() as u64 + 1;
        self.values.push(HostValue::Array(length));
        Ok(Local { ptr: p })
    }

    /// The length of the array behind `v`.
    pub fn get_array_length(&self, env: Env, v: Local) -> (r: Result<u32, Status>)
        requires
            self.wf(),
            self.valid_env(env),
            self.live(v),
        ensures
            self.pending_exception ==> r == Err::<u32, Status>(Status::PendingException),
            !self.pending_exception ==> match self.slot(v) {
                HostValue::Array(n) => r == Ok::<u32, Status>(n),
                _ => r == Err::<u32, Status>(Status::ArrayExpected),
            },
    {
        if self.pending_exception {
            return Err(Status::PendingException);
        }
        let n = self.values.len();
        let i = (v.ptr - 1) as usize;
        match self.values[i] {
            HostValue::Array(n) => Ok(n),
            _ => Err(Status::ArrayExpected),
        }
    }

    /// The kind of the value behind `v`, as the ABI's type query reports
    /// it; refused only in a throwing state.
    pub fn typeof_value(&self, env: Env, v: Local) -> (r: Result<ValueType, Status>)
        requires
            self.wf(),
            self.valid_env(env),
            self.live(v),
        ensures
            self.pending_exception ==> r == Err::<ValueType, Status>(Status::PendingException),
            !self.pending_exception ==> r == Ok::<ValueType, Status>(self.kind_of(v)),
    {
        if self.pending_exception {
            return Err(Status::PendingException);
        }
        let n = self.values.len();
        let i = (v.ptr - 1) as usize;
        let k = match self.values[i] {
            HostValue::Undefined => ValueType::Undefined,
            HostValue::Null => ValueType::Null,
            HostValue::Boolean(_) => ValueType::Boolean,
            HostValue::Number(_) => ValueType::Number,
            HostValue::Array(_) => ValueType::Object,
            HostValue::Function => ValueType::Function,
            HostValue::External(_) => ValueType::External,
        };
        Ok(k)
    }

    /// Creates a fresh function value in the current scope; the model
    /// needs one only as a constructing call's new-target.
    pub fn create_function(&mut self, env: Env) -> (r: Result<Local, Status>)
        requires
            old(self).wf(),
            old(self).valid_env(env),
            old(self).has_handle_capacity(),
        ensures
            final(self).wf(),
            final(self).env_id == old(self).env_id,
            final(self).scopes@ == old(self).scopes@,
            final(self).externals@ == old(self).externals@,
            final(self).finalize_log@ == old(self).finalize_log@,
            final(self).pending_exception == old(self).pending_exception,
            old(self).pending_exception ==> r == Err::<Local, Status>(Status::PendingException)
                && final(self).values@ == old(self).values@,
            !old(self).pending_exception ==> {
                &&& final(self).values@ == old(self).values@.push(HostValue::Function)
                &&& r matches Ok(h) && h.ptr == old(self).values@.len() + 1
            },
    {
        if self.pending_exception {
            return Err(Status::PendingException);
        }
        let p = self.values.len() as u64 + 1;
        self.values.push(HostValue::Function);
        Ok(Local { ptr: p })
    }

    /// Registers an extension payload and its erased finalizer address on
    /// a fresh external value. Ownership of the payload passes to the
    /// collector, which will destroy it exactly once, once unreachable.
    /// The only failure is a host already in a throwing state.
    pub fn create_external(&mut self, env: Env, data: i64, hint: u64) -> (r: Result<Local, Status>)
        requires
            old(self).wf(),
            old(self).valid_env(env),
            old(self).has_handle_capacity(),
        ensures
            final(self).wf(),
            final(self).env_id == old(self).env_id,
            final(self).scopes@ == old(self).scopes@,
            final(self).finalize_log@ == old(self).finalize_log@,
            final(self).pending_exception == old(self).pending_exception,
            old(self).pending_exception ==> r == Err::<Local, Status>(Status::PendingException)
                && final(self).values@ == old(self).values@ && final(self).externals@ == old(
                self,
            ).externals@,
            !old(self).pending_exception ==> {
                &&& final(self).externals@ == old(self).externals@.push(
                    ExternalSlot { data, hint, state: ExtState::Live },
                )
                &&& final(self).values@ == old(self).values@.push(
                    HostValue::External(old(self).externals@.len() as usize),
                )
                &&& r matches Ok(h) && h.ptr == old(self).values@.len() + 1
            },
    {
        if self.pending_exception {
            return Err(Status::PendingException);
        }
        let k = self.externals.len();
        self.externals.push(ExternalSlot { data, hint, state: ExtState::Live });
        let p = self.values.len() as u64 + 1;
        self.values.push(HostValue::External(k));
        proof {
            let post = *self;
            let pre = *old(self);
            assert forall|i: int|
                0 <= i < post.values@.len() implies external_ref_ok(
                #[trigger] post.values@[i],
                post.externals@.len() as int,
            ) by {
                if i < pre.values@.len() {
                    assert(external_ref_ok(pre.values@[i], pre.externals@.len() as int));
                }
            }
            assert forall|j: int| 0 <= j < post.externals@.len() implies {
                &&& ((#[trigger] post.externals@[j]).state == ExtState::Live ==> count_for(
                    post.finalize_log@,
                    j,
                ) == 0)
                &&& (post.externals@[j].state == ExtState::Finalized ==> count_for(
                    post.finalize_log@,
                    j,
                ) == 1)
            } by {
                if j < pre.externals@.len() {
                    assert(pre.externals@[j] == post.externals@[j]);
                } else {
                    assert(post.externals@[j].state == ExtState::Live);
                    assert forall|i: int|
                        0 <= i < post.finalize_log@.len() implies (#[trigger] post.finalize_log@[i]).ext
                        as int != j by {
                        assert((post.finalize_log@[i].ext as int) < pre.externals@.len());
                    }
                    lemma_count_for_absent(post.finalize_log@, j);
                }
            }
        }
        Ok(Local { ptr: p })
    }

    /// The raw payload the host associates with the external behind `v`.
    /// The caller must know the external has not been finalized: the ABI
    /// makes reading a destroyed payload undefined, so the model forbids
    /// it outright.
    pub fn get_value_external(&self, env: Env, v: Local) -> (r: Result<i64, Status>)
        requires
            self.wf(),
            self.valid_env(env),
            self.live(v),
            self.slot(v) matches HostValue::External(k) ==> self.ext_live(k as int),
        ensures
            self.pending_exception ==> r == Err::<i64, Status>(Status::PendingException),
            !self.pending_exception ==> match self.slot(v) {
                HostValue::External(k) => r == Ok::<i64, Status>(self.externals@[k as int].data),
                _ => r == Err::<i64, Status>(Status::InvalidArg),
            },
    {
        if self.pending_exception {
            return Err(Status::PendingException);
        }
        let n = self.values.len();
        let i = (v.ptr - 1) as usize;
        match self.values[i] {
            HostValue::External(k) => Ok(self.externals[k].data),
            _ => Err(Status::InvalidArg),
        }
    }

    /// Opens a nested handle region: every handle created from now until
    /// the matching close is eligible for discard at that close.
    pub fn open_scope(&mut self, env: Env)
        requires
            old(self).wf(),
            old(self).valid_env(env),
        ensures
            final(self).wf(),
            final(self).env_id == old(self).env_id,
            final(self).values@ == old(self).values@,
            final(self).scopes@ == old(self).scopes@.push(old(self).values@.len() as usize),
            final(self).externals@ == old(self).externals@,
            final(self).finalize_log@ == old(self).finalize_log@,
            final(self).pending_exception == old(self).pending_exception,
    {
        let mark = self.values.len();
        self.scopes.push(mark);
    }

    /// Closes the innermost handle region, discarding every handle it
    /// created; the external store and the finalization history are the
    /// collector's and survive untouched.
    pub fn close_scope(&mut self, env: Env)
        requires
            old(self).wf(),
            old(self).valid_env(env),
            old(self).scopes@.len() > 0,
        ensures
            final(self).wf(),
            final(self).env_id == old(self).env_id,
            final(self).values@ == old(self).values@.take(old(self).scopes@.last() as int),
            final(self).scopes@ == old(self).scopes@.drop_last(),
            final(self).externals@ == old(self).externals@,
            final(self).finalize_log@ == old(self).finalize_log@,
            final(self).pending_exception == old(self).pending_exception,
    {
        let mark = self.scopes[self.scopes.len() - 1];
        self.scopes.pop();
        self.values.truncate(mark);
    }

    /// Closes the innermost handle region while letting the one value
    /// behind `h` escape into the enclosing region: the escaped value
    /// survives under a fresh handle, everything else the region created
    /// is discarded.
    pub fn escape_and_close_scope(&mut self, env: Env, h: Local) -> (r: Local)
        requires
            old(self).wf(),
            old(self).valid_env(env),
            old(self).scopes@.len() > 0,
            old(self).live(h),
            old(self).has_handle_capacity(),
        ensures
            final(self).wf(),
            final(self).env_id == old(self).env_id,
            final(self).values@ == old(self).values@.take(old(self).scopes@.last() as int).push(
                old(self).slot(h),
            ),
            final(self).scopes@ == old(self).scopes@.drop_last(),
            final(self).externals@ == old(self).externals@,
            final(self).finalize_log@ == old(self).finalize_log@,
            final(self).pending_exception == old(self).pending_exception,
            r.ptr == old(self).scopes@.last() + 1,
            final(self).live(r),
            final(self).slot(r) == old(self).slot(h),
    {
        let mark = self.scopes[self.scopes.len() - 1];
        self.scopes.pop();
        let n = self.values.len();
        let i = (h.ptr - 1) as usize;
        let v = self.values[i];
        self.values.truncate(mark);
        self.values.push(v);
        Local { ptr: mark as u64 + 1 }
    }

    /// The collector destroying external slot `k`: it requires the slot
    /// still live and no handle reaching it (the host never finalizes a
    /// reachable value, and never finalizes twice), runs the trampoline
    /// once, and records the invocation.
    pub fn collect_external(&mut self, env: Env, k: usize)
        requires
            old(self).wf(),
            old(self).valid_env(env),
            old(self).ext_live(k as int),
            old(self).ext_unreachable(k),
        ensures
            final(self).wf(),
            final(self).env_id == old(self).env_id,
            final(self).values@ == old(self).values@,
            final(self).scopes@ == old(self).scopes@,
            final(self).externals@ == old(self).externals@.update(
                k as int,
                ExternalSlot {
                    data: old(self).externals@[k as int].data,
                    hint: old(self).externals@[k as int].hint,
                    state: ExtState::Finalized,
                },
            ),
            final(self).finalize_log@ == old(self).finalize_log@.push(
                FinalizeRecord {
                    ext: k,
                    env,
                    finalizer: old(self).externals@[k as int].hint,
                    value: old(self).externals@[k as int].data,
                },
            ),
            final(self).pending_exception == old(self).pending_exception,
    {
        let slot = self.externals[k];
        let record = finalize_external(env, slot.data, slot.hint, k);
        self.finalize_log.push(record);
        self.externals.set(k, ExternalSlot { data: slot.data, hint: slot.hint, state: ExtState::Finalized });
        proof {
            let post = *self;
            let pre = *old(self);
            assert forall|i: int|
                0 <= i < post.values@.len() implies external_ref_ok(
                #[trigger] post.values@[i],
                post.externals@.len() as int,
            ) by {
                assert(external_ref_ok(pre.values@[i], pre.externals@.len() as int));
            }
            assert forall|i: int| 0 <= i < post.finalize_log@.len() implies {
                let r = #[trigger] post.finalize_log@[i];
                &&& (r.ext as int) < post.externals@.len()
                &&& r.finalizer == post.externals@[r.ext as int].hint
                &&& r.value == post.externals@[r.ext as int].data
            } by {
                if i < pre.finalize_log@.len() {
                    assert(pre.finalize_log@[i] == post.finalize_log@[i]);
                    assert((pre.finalize_log@[i].ext as int) < pre.externals@.len());
                }
            }
            assert forall|j: int| 0 <= j < post.externals@.len() implies {
                &&& ((#[trigger] post.externals@[j]).state == ExtState::Live ==> count_for(
                    post.finalize_log@,
                    j,
                ) == 0)
                &&& (post.externals@[j].state == ExtState::Finalized ==> count_for(
                    post.finalize_log@,
                    j,
                ) == 1)
            } by {
                lemma_count_for_push(pre.finalize_log@, record, j);
                if j != k as int {
                    assert(pre.externals@[j] == post.externals@[j]);
                }
            }
        }
    }

    /// Puts the host into, or takes it out of, a throwing state.
    pub fn set_pending_exception(&mut self, p: bool)
        ensures
            final(self).env_id == old(self).env_id,
            final(self).values@ == old(self).values@,
            final(self).scopes@ == old(self).scopes@,
            final(self).externals@ == old(self).externals@,
            final(self).finalize_log@ == old(self).finalize_log@,
            final(self).pending_exception == p,
    {
        self.pending_exception = p;
    }
}

} // verus!
