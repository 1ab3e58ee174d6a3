//! The binding table: the host ABI's C functions, resolved by fixed name
//! from the running host image at load time, exposed as pass-through
//! operations that add indirection and nothing else.
//!
//! Until `setup` has run, every entry is a stub that reports an immediate
//! "bindings not loaded" failure instead of jumping through an
//! uninitialized pointer; after the one successful `setup`, the table is
//! fully populated and immutable for the life of the process.

use vstd::prelude::*;
use crate::raw::{Env, Local, Status, ValueType, Fault, CallbackInfo};
use crate::host::{
    Host, HostValue, host_fields_eq, host_pushed, host_created_external, host_opened_scope,
    host_closed_scope, host_escaped, undefined_local, null_local, bool_local,
};

verus! {

/// The number of distinct ABI functions the table resolves.
pub const SYMBOL_COUNT: usize = 19;

/// The fixed set of ABI functions this layer consumes, each resolved from
/// the host image by the C name its `name` method gives.
#[derive(Clone, Copy, PartialEq, Eq, Structural, Debug)]
pub enum Symbol {
    CreateArrayWithLength,
    GetArrayLength,
    GetUndefined,
    GetNull,
    GetBoolean,
    GetValueBool,
    CreateNumber,
    GetValueNumber,
    CreateExternal,
    TypeofValue,
    GetValueExternal,
    GetCbInfo,
    GetNewTarget,
    CreateFunction,
    OpenHandleScope,
    CloseHandleScope,
    OpenEscapableHandleScope,
    EscapeHandle,
    CloseEscapableHandleScope,
}

impl Symbol {
    /// The table slot this symbol occupies.
    pub open spec fn spec_index(self) -> int {
        match self {
            Symbol::CreateArrayWithLength => 0,
            Symbol::GetArrayLength => 1,
            Symbol::GetUndefined => 2,
            Symbol::GetNull => 3,
            Symbol::GetBoolean => 4,
            Symbol::GetValueBool => 5,
            Symbol::CreateNumber => 6,
            Symbol::GetValueNumber => 7,
            Symbol::CreateExternal => 8,
            Symbol::TypeofValue => 9,
            Symbol::GetValueExternal => 10,
            Symbol::GetCbInfo => 11,
            Symbol::GetNewTarget => 12,
            Symbol::CreateFunction => 13,
            Symbol::OpenHandleScope => 14,
            Symbol::CloseHandleScope => 15,
            Symbol::OpenEscapableHandleScope => 16,
            Symbol::EscapeHandle => 17,
            Symbol::CloseEscapableHandleScope => 18,
        }
    }

    /// The table slot this symbol occupies.
    pub fn index(self) -> (r: usize)
        ensures
            r as int == self.spec_index(),
            r < SYMBOL_COUNT,
    {
        match self {
            Symbol::CreateArrayWithLength => 0,
            Symbol::GetArrayLength => 1,
            Symbol::GetUndefined => 2,
            Symbol::GetNull => 3,
            Symbol::GetBoolean => 4,
            Symbol::GetValueBool => 5,
            Symbol::CreateNumber => 6,
            Symbol::GetValueNumber => 7,
            Symbol::CreateExternal => 8,
            Symbol::TypeofValue => 9,
            Symbol::GetValueExternal => 10,
            Symbol::GetCbInfo => 11,
            Symbol::GetNewTarget => 12,
            Symbol::CreateFunction => 13,
            Symbol::OpenHandleScope => 14,
            Symbol::CloseHandleScope => 15,
            Symbol::OpenEscapableHandleScope => 16,
            Symbol::EscapeHandle => 17,
            Symbol::CloseEscapableHandleScope => 18,
        }
    }

    /// The fixed C name the symbol is resolved by.
    pub fn name(self) -> (r: &'static str) {
        match self {
            Symbol::CreateArrayWithLength => "napi_create_array_with_length",
            Symbol::GetArrayLength => "napi_get_array_length",
            Symbol::GetUndefined => "napi_get_undefined",
            Symbol::GetNull => "napi_get_null",
            Symbol::GetBoolean => "napi_get_boolean",
            Symbol::GetValueBool => "napi_get_value_bool",
            Symbol::CreateNumber => "napi_create_int64",
            Symbol::GetValueNumber => "napi_get_value_int64",
            Symbol::CreateExternal => "napi_create_external",
            Symbol::TypeofValue => "napi_typeof",
            Symbol::GetValueExternal => "napi_get_value_external",
            Symbol::GetCbInfo => "napi_get_cb_info",
            Symbol::GetNewTarget => "napi_get_new_target",
            Symbol::CreateFunction => "napi_create_function",
            Symbol::OpenHandleScope => "napi_open_handle_scope",
            Symbol::CloseHandleScope => "napi_close_handle_scope",
            Symbol::OpenEscapableHandleScope => "napi_open_escapable_handle_scope",
            Symbol::EscapeHandle => "napi_escape_handle",
            Symbol::CloseEscapableHandleScope => "napi_close_escapable_handle_scope",
        }
    }
}

/// What the host process image answers when asked for each required
/// symbol: the function's address, or nothing where the image does not
/// export it. Slot `i` answers for the symbol whose `spec_index` is `i`.
pub struct SymbolImage {
    pub addrs: Vec<Option<u64>>,
}

impl SymbolImage {
    /// The image answers for every required symbol, one way or the other.
    pub open spec fn wf(self) -> bool {
        self.addrs@.len() == SYMBOL_COUNT
    }

    /// Every required symbol resolves.
    pub open spec fn complete(self) -> bool {
        forall|i: int| 0 <= i < self.addrs@.len() ==> (#[trigger] self.addrs@[i]) is Some
    }

    /// Looks one symbol up by name.
    pub fn resolve(&self, s: Symbol) -> (r: Option<u64>)
        requires
            self.wf(),
        ensures
            r == self.addrs@[s.spec_index()],
    {
        self.addrs[s.index()]
    }
}

/// The addresses a complete image resolves, in table order.
pub open spec fn resolved_addrs(img: SymbolImage) -> Seq<u64> {
    Seq::new(SYMBOL_COUNT as nat, |i: int| img.addrs@[i]->0)
}

/// What one `setup` call leaves in the table: an already-loaded table is
/// untouched, a complete image populates a stub table, an incomplete one
/// leaves the stubs in place (and the call reports the fatal load error).
pub open spec fn spec_setup_entries(entries: Seq<u64>, img: SymbolImage) -> Seq<u64> {
    if entries.len() == SYMBOL_COUNT {
        entries
    } else if img.complete() {
        resolved_addrs(img)
    } else {
        entries
    }
}

/// Running `setup` a second time, against any image, changes nothing: the
/// first successful call fully populates the table and later calls leave
/// it as it stands.
pub proof fn lemma_setup_idempotent(entries: Seq<u64>, img: SymbolImage)
    ensures
        spec_setup_entries(spec_setup_entries(entries, img), img) == spec_setup_entries(
            entries,
            img,
        ),
{
    assert(resolved_addrs(img).len() == SYMBOL_COUNT);
}

/// The process-wide table of resolved ABI function pointers. Empty means
/// every entry is still the failing stub; loaded means every entry holds
/// the address its symbol resolved to.
pub struct BindingTable {
    pub entries: Vec<u64>,
}

impl BindingTable {
    /// The table is either all stubs or fully loaded; `setup` never
    /// leaves it half-written.
    pub open spec fn wf(self) -> bool {
        self.entries@.len() == 0 || self.entries@.len() == SYMBOL_COUNT
    }

    /// Whether `setup` has populated the table.
    pub open spec fn loaded(self) -> bool {
        self.entries@.len() == SYMBOL_COUNT
    }

    /// The table as a process starts: nothing resolved, every entry a
    /// stub that fails fast.
    pub fn stubs() -> (t: BindingTable)
        ensures
            t.wf(),
            !t.loaded(),
    {
        BindingTable { entries: Vec::new() }
    }

    /// Resolves every required symbol from the image and stores the
    /// addresses, exactly once: a loaded table is left untouched. A
    /// missing symbol is the fatal load failure; the stubs then stay in
    /// place so that any later use still fails fast.
    pub fn setup(&mut self, image: &SymbolImage) -> (r: Result<(), Fault>)
        requires
            old(self).wf(),
            image.wf(),
        ensures
            final(self).wf(),
            final(self).entries@ == spec_setup_entries(old(self).entries@, *image),
            old(self).loaded() ==> r == Ok::<(), Fault>(()) && final(self).entries@ == old(self).entries@,
            !old(self).loaded() && image.complete() ==> r == Ok::<(), Fault>(()) && final(self).loaded() && forall|i: int|
                0 <= i < SYMBOL_COUNT ==> Some(#[trigger] final(self).entries@[i]) == image.addrs@[i],
            !old(self).loaded() && !image.complete() ==> r == Err::<(), Fault>(
                Fault::MissingSymbol,
            ) && !final(self).loaded(),
    {
        if self.entries.len() == SYMBOL_COUNT {
            return Ok(());
        }
        let mut i: usize = 0;
        while i < SYMBOL_COUNT
            invariant
                image.wf(),
                i <= SYMBOL_COUNT,
                forall|j: int| 0 <= j < i ==> (#[trigger] image.addrs@[j]) is Some,
                !old(self).loaded(),
                self.entries@ == old(self).entries@,
                self.entries@.len() == 0,
            decreases SYMBOL_COUNT - i,
        {
            if image.addrs[i].is_none() {
                return Err(Fault::MissingSymbol);
            }
            i += 1;
        }
        let mut i: usize = 0;
        while i < SYMBOL_COUNT
            invariant
                image.wf(),
                image.complete(),
                i <= SYMBOL_COUNT,
                !old(self).loaded(),
                old(self).entries@.len() == 0,
                self.entries@.len() == i,
                forall|j: int| 0 <= j < i ==> #[trigger] self.entries@[j] == image.addrs@[j]->0,
            decreases SYMBOL_COUNT - i,
        {
            let a = self.resolve_step(image, i);
            self.entries.push(a);
            i += 1;
        }
        proof {
            assert(self.entries@ =~= resolved_addrs(*image));
        }
        Ok(())
    }

    /// One resolution step of `setup`: the address slot `i` of a complete
    /// image holds.
    fn resolve_step(&self, image: &SymbolImage, i: usize) -> (r: u64)
        requires
            image.wf(),
            image.complete(),
            i < SYMBOL_COUNT,
        ensures
            Some(r) == image.addrs@[i as int],
    {
        match image.addrs[i] {
            Some(a) => a,
            None => vstd::pervasive::unreached(),
        }
    }

    /// Looks the resolved address of one operation up; before `setup`,
    /// this is the stub reporting the fatal "bindings not loaded" state.
    pub fn entry(&self, s: Symbol) -> (r: Result<u64, Fault>)
        requires
            self.wf(),
        ensures
            self.loaded() ==> r == Ok::<u64, Fault>(self.entries@[s.spec_index()]),
            !self.loaded() ==> r == Err::<u64, Fault>(Fault::BindingsNotLoaded),
    {
        if self.entries.len() == SYMBOL_COUNT {
            Ok(self.entries[s.index()])
        } else {
            Err(Fault::BindingsNotLoaded)
        }
    }

    /// Pass-through for the array-creation entry.
    pub fn create_array_with_length(&self, host: &mut Host, env: Env, length: u32) -> (r: Result<
        Local,
        Fault,
    >)
        requires
            self.wf(),
            old(host).wf(),
            old(host).valid_env(env),
            old(host).has_handle_capacity(),
        ensures
            final(host).wf(),
            !self.loaded() ==> r == Err::<Local, Fault>(Fault::BindingsNotLoaded) && host_fields_eq(
                *old(host),
                *final(host),
            ),
            self.loaded() && old(host).pending_exception ==> r == Err::<Local, Fault>(
                Fault::Abi(Status::PendingException),
            ) && host_fields_eq(*old(host), *final(host)),
            self.loaded() && !old(host).pending_exception ==> host_pushed(
                *old(host),
                *final(host),
                HostValue::Array(length),
            ) && (r matches Ok(h) && h.ptr == old(host).values@.len() + 1),
    {
        match self.entry(Symbol::CreateArrayWithLength) {
            Err(f) => Err(f),
            Ok(_) => match host.create_array_with_length(env, length) {
                Ok(l) => Ok(l),
                Err(s) => Err(Fault::Abi(s)),
            },
        }
    }

    /// Pass-through for the array-length query.
    pub fn get_array_length(&self, host: &Host, env: Env, v: Local) -> (r: Result<u32, Fault>)
        requires
            self.wf(),
            host.wf(),
            host.valid_env(env),
            host.live(v),
        ensures
            !self.loaded() ==> r == Err::<u32, Fault>(Fault::BindingsNotLoaded),
            self.loaded() && host.pending_exception ==> r == Err::<u32, Fault>(
                Fault::Abi(Status::PendingException),
            ),
            self.loaded() && !host.pending_exception ==> match host.slot(v) {
                HostValue::Array(n) => r == Ok::<u32, Fault>(n),
                _ => r == Err::<u32, Fault>(Fault::Abi(Status::ArrayExpected)),
            },
    {
        match self.entry(Symbol::GetArrayLength) {
            Err(f) => Err(f),
            Ok(_) => match host.get_array_length(env, v) {
                Ok(n) => Ok(n),
                Err(s) => Err(Fault::Abi(s)),
            },
        }
    }

    /// Pass-through for the `undefined` accessor.
    pub fn get_undefined(&self, host: &Host, env: Env) -> (r: Result<Local, Fault>)
        requires
            self.wf(),
            host.wf(),
            host.valid_env(env),
        ensures
            !self.loaded() ==> r == Err::<Local, Fault>(Fault::BindingsNotLoaded),
            self.loaded() ==> r == Ok::<Local, Fault>(undefined_local()),
    {
        match self.entry(Symbol::GetUndefined) {
            Err(f) => Err(f),
            Ok(_) => Ok(host.get_undefined(env)),
        }
    }

    /// Pass-through for the `null` accessor.
    pub fn get_null(&self, host: &Host, env: Env) -> (r: Result<Local, Fault>)
        requires
            self.wf(),
            host.wf(),
            host.valid_env(env),
        ensures
            !self.loaded() ==> r == Err::<Local, Fault>(Fault::BindingsNotLoaded),
            self.loaded() ==> r == Ok::<Local, Fault>(null_local()),
    {
        match self.entry(Symbol::GetNull) {
            Err(f) => Err(f),
            Ok(_) => Ok(host.get_null(env)),
        }
    }

    /// Pass-through for the boolean-singleton accessor.
    pub fn get_boolean(&self, host: &Host, env: Env, b: bool) -> (r: Result<Local, Fault>)
        requires
            self.wf(),
            host.wf(),
            host.valid_env(env),
        ensures
            !self.loaded() ==> r == Err::<Local, Fault>(Fault::BindingsNotLoaded),
            self.loaded() ==> r == Ok::<Local, Fault>(bool_local(b)),
    {
        match self.entry(Symbol::GetBoolean) {
            Err(f) => Err(f),
            Ok(_) => Ok(host.get_boolean(env, b)),
        }
    }

    /// Pass-through for boolean extraction.
    pub fn get_value_bool(&self, host: &Host, env: Env, v: Local) -> (r: Result<bool, Fault>)
        requires
            self.wf(),
            host.wf(),
            host.valid_env(env),
            host.live(v),
        ensures
            !self.loaded() ==> r == Err::<bool, Fault>(Fault::BindingsNotLoaded),
            self.loaded() && host.pending_exception ==> r == Err::<bool, Fault>(
                Fault::Abi(Status::PendingException),
            ),
            self.loaded() && !host.pending_exception ==> match host.slot(v) {
                HostValue::Boolean(b) => r == Ok::<bool, Fault>(b),
                _ => r == Err::<bool, Fault>(Fault::Abi(Status::BooleanExpected)),
            },
    {
        match self.entry(Symbol::GetValueBool) {
            Err(f) => Err(f),
            Ok(_) => match host.get_value_bool(env, v) {
                Ok(b) => Ok(b),
                Err(s) => Err(Fault::Abi(s)),
            },
        }
    }

    /// Pass-through for numeric creation.
    pub fn create_number(&self, host: &mut Host, env: Env, v: i64) -> (r: Result<Local, Fault>)
        requires
            self.wf(),
            old(host).wf(),
            old(host).valid_env(env),
            old(host).has_handle_capacity(),
        ensures
            final(host).wf(),
            !self.loaded() ==> r == Err::<Local, Fault>(Fault::BindingsNotLoaded) && host_fields_eq(
                *old(host),
                *final(host),
            ),
            self.loaded() && old(host).pending_exception ==> r == Err::<Local, Fault>(
                Fault::Abi(Status::PendingException),
            ) && host_fields_eq(*old(host), *final(host)),
            self.loaded() && !old(host).pending_exception ==> host_pushed(
                *old(host),
                *final(host),
                HostValue::Number(v),
            ) && (r matches Ok(h) && h.ptr == old(host).values@.len() + 1),
    {
        match self.entry(Symbol::CreateNumber) {
            Err(f) => Err(f),
            Ok(_) => match host.create_number(env, v) {
                Ok(l) => Ok(l),
                Err(s) => Err(Fault::Abi(s)),
            },
        }
    }

    /// Pass-through for numeric extraction.
    pub fn get_value_number(&self, host: &Host, env: Env, v: Local) -> (r: Result<i64, Fault>)
        requires
            self.wf(),
            host.wf(),
            host.valid_env(env),
            host.live(v),
        ensures
            !self.loaded() ==> r == Err::<i64, Fault>(Fault::BindingsNotLoaded),
            self.loaded() && host.pending_exception ==> r == Err::<i64, Fault>(
                Fault::Abi(Status::PendingException),
            ),
            self.loaded() && !host.pending_exception ==> match host.slot(v) {
                HostValue::Number(n) => r == Ok::<i64, Fault>(n),
                _ => r == Err::<i64, Fault>(Fault::Abi(Status::NumberExpected)),
            },
    {
        match self.entry(Symbol::GetValueNumber) {
            Err(f) => Err(f),
            Ok(_) => match host.get_value_number(env, v) {
                Ok(n) => Ok(n),
                Err(s) => Err(Fault::Abi(s)),
            },
        }
    }

    /// Pass-through for external creation.
    pub fn create_external(&self, host: &mut Host, env: Env, data: i64, hint: u64) -> (r: Result<
        Local,
        Fault,
    >)
        requires
            self.wf(),
            old(host).wf(),
            old(host).valid_env(env),
            old(host).has_handle_capacity(),
        ensures
            final(host).wf(),
            !self.loaded() ==> r == Err::<Local, Fault>(Fault::BindingsNotLoaded) && host_fields_eq(
                *old(host),
                *final(host),
            ),
            self.loaded() && old(host).pending_exception ==> r == Err::<Local, Fault>(
                Fault::Abi(Status::PendingException),
            ) && host_fields_eq(*old(host), *final(host)),
            self.loaded() && !old(host).pending_exception ==> host_created_external(
                *old(host),
                *final(host),
                data,
                hint,
            ) && (r matches Ok(h) && h.ptr == old(host).values@.len() + 1),
    {
        match self.entry(Symbol::CreateExternal) {
            Err(f) => Err(f),
            Ok(_) => match host.create_external(env, data, hint) {
                Ok(l) => Ok(l),
                Err(s) => Err(Fault::Abi(s)),
            },
        }
    }

    /// Pass-through for the type query.
    pub fn typeof_value(&self, host: &Host, env: Env, v: Local) -> (r: Result<ValueType, Fault>)
        requires
            self.wf(),
            host.wf(),
            host.valid_env(env),
            host.live(v),
        ensures
            !self.loaded() ==> r == Err::<ValueType, Fault>(Fault::BindingsNotLoaded),
            self.loaded() && host.pending_exception ==> r == Err::<ValueType, Fault>(
                Fault::Abi(Status::PendingException),
            ),
            self.loaded() && !host.pending_exception ==> r == Ok::<ValueType, Fault>(
                host.kind_of(v),
            ),
    {
        match self.entry(Symbol::TypeofValue) {
            Err(f) => Err(f),
            Ok(_) => match host.typeof_value(env, v) {
                Ok(k) => Ok(k),
                Err(s) => Err(Fault::Abi(s)),
            },
        }
    }

    /// Pass-through for external-payload extraction.
    pub fn get_value_external(&self, host: &Host, env: Env, v: Local) -> (r: Result<i64, Fault>)
        requires
            self.wf(),
            host.wf(),
            host.valid_env(env),
            host.live(v),
            host.slot(v) matches HostValue::External(k) ==> host.ext_live(k as int),
        ensures
            !self.loaded() ==> r == Err::<i64, Fault>(Fault::BindingsNotLoaded),
            self.loaded() && host.pending_exception ==> r == Err::<i64, Fault>(
                Fault::Abi(Status::PendingException),
            ),
            self.loaded() && !host.pending_exception ==> match host.slot(v) {
                HostValue::External(k) => r == Ok::<i64, Fault>(host.externals@[k as int].data),
                _ => r == Err::<i64, Fault>(Fault::Abi(Status::InvalidArg)),
            },
    {
        match self.entry(Symbol::GetValueExternal) {
            Err(f) => Err(f),
            Ok(_) => match host.get_value_external(env, v) {
                Ok(d) => Ok(d),
                Err(s) => Err(Fault::Abi(s)),
            },
        }
    }

    /// Pass-through for function creation.
    pub fn create_function(&self, host: &mut Host, env: Env) -> (r: Result<Local, Fault>)
        requires
            self.wf(),
            old(host).wf(),
            old(host).valid_env(env),
            old(host).has_handle_capacity(),
        ensures
            final(host).wf(),
            !self.loaded() ==> r == Err::<Local, Fault>(Fault::BindingsNotLoaded) && host_fields_eq(
                *old(host),
                *final(host),
            ),
            self.loaded() && old(host).pending_exception ==> r == Err::<Local, Fault>(
                Fault::Abi(Status::PendingException),
            ) && host_fields_eq(*old(host), *final(host)),
            self.loaded() && !old(host).pending_exception ==> host_pushed(
                *old(host),
                *final(host),
                HostValue::Function,
            ) && (r matches Ok(h) && h.ptr == old(host).values@.len() + 1),
    {
        match self.entry(Symbol::CreateFunction) {
            Err(f) => Err(f),
            Ok(_) => match host.create_function(env) {
                Ok(l) => Ok(l),
                Err(s) => Err(Fault::Abi(s)),
            },
        }
    }

    /// Pass-through for the descriptor's argument count; the ABI answers
    /// this for any live descriptor.
    pub fn cb_info_argc(&self, env: Env, info: &CallbackInfo) -> (r: Result<usize, Fault>)
        requires
            self.wf(),
        ensures
            !self.loaded() ==> r == Err::<usize, Fault>(Fault::BindingsNotLoaded),
            self.loaded() ==> r == Ok::<usize, Fault>(info.args@.len() as usize),
    {
        match self.entry(Symbol::GetCbInfo) {
            Err(f) => Err(f),
            Ok(_) => Ok(info.args.len()),
        }
    }

    /// Pass-through for the descriptor's receiver.
    pub fn cb_info_this(&self, env: Env, info: &CallbackInfo) -> (r: Result<Local, Fault>)
        requires
            self.wf(),
        ensures
            !self.loaded() ==> r == Err::<Local, Fault>(Fault::BindingsNotLoaded),
            self.loaded() ==> r == Ok::<Local, Fault>(info.this),
    {
        match self.entry(Symbol::GetCbInfo) {
            Err(f) => Err(f),
            Ok(_) => Ok(info.this),
        }
    }

    /// Pass-through for the descriptor's attached data pointer; a
    /// callable without one answers with a non-ok status, which the layer
    /// above treats as a benign absence.
    pub fn cb_info_data(&self, env: Env, info: &CallbackInfo) -> (r: Result<u64, Fault>)
        requires
            self.wf(),
        ensures
            !self.loaded() ==> r == Err::<u64, Fault>(Fault::BindingsNotLoaded),
            self.loaded() ==> match info.data {
                Some(d) => r == Ok::<u64, Fault>(d),
                None => r == Err::<u64, Fault>(Fault::Abi(Status::InvalidArg)),
            },
    {
        match self.entry(Symbol::GetCbInfo) {
            Err(f) => Err(f),
            Ok(_) => match info.data {
                Some(d) => Ok(d),
                None => Err(Fault::Abi(Status::InvalidArg)),
            },
        }
    }

    /// Pass-through for the descriptor's argument handles: fills a buffer
    /// of `cap` handles, in source order, padding with `undefined` where
    /// the call site supplied fewer.
    pub fn cb_info_argv(&self, env: Env, info: &CallbackInfo, cap: usize) -> (r: Result<
        Vec<Local>,
        Fault,
    >)
        requires
            self.wf(),
        ensures
            !self.loaded() ==> r == Err::<Vec<Local>, Fault>(Fault::BindingsNotLoaded),
            self.loaded() ==> (r matches Ok(v) && v@.len() == cap && (forall|i: int|
                0 <= i < cap && i < info.args@.len() ==> v@[i] == info.args@[i]) && (forall|i: int|
                info.args@.len() <= i < cap ==> v@[i] == undefined_local())),
    {
        match self.entry(Symbol::GetCbInfo) {
            Err(f) => Err(f),
            Ok(_) => {
                let mut buf: Vec<Local> = Vec::new();
                let n = info.args.len();
                let mut j: usize = 0;
                while j < cap
                    invariant
                        n == info.args@.len(),
                        j <= cap,
                        buf@.len() == j,
                        forall|i: int| 0 <= i < j && i < n ==> buf@[i] == info.args@[i],
                        forall|i: int| n <= i < j ==> buf@[i] == undefined_local(),
                    decreases cap - j,
                {
                    if j < n {
                        buf.push(info.args[j]);
                    } else {
                        buf.push(Local { ptr: 1 });
                    }
                    j += 1;
                }
                Ok(buf)
            },
        }
    }

    /// Pass-through for the new-target query; the ABI answers it for any
    /// live descriptor, with the null sentinel for a plain call.
    pub fn get_new_target(&self, env: Env, info: &CallbackInfo) -> (r: Result<Local, Fault>)
        requires
            self.wf(),
        ensures
            !self.loaded() ==> r == Err::<Local, Fault>(Fault::BindingsNotLoaded),
            self.loaded() ==> r == Ok::<Local, Fault>(info.new_target),
    {
        match self.entry(Symbol::GetNewTarget) {
            Err(f) => Err(f),
            Ok(_) => Ok(info.new_target),
        }
    }

    /// Pass-through for opening a plain handle region.
    pub fn open_scope(&self, host: &mut Host, env: Env) -> (r: Result<(), Fault>)
        requires
            self.wf(),
            old(host).wf(),
            old(host).valid_env(env),
        ensures
            final(host).wf(),
            !self.loaded() ==> r == Err::<(), Fault>(Fault::BindingsNotLoaded) && host_fields_eq(
                *old(host),
                *final(host),
            ),
            self.loaded() ==> r == Ok::<(), Fault>(()) && host_opened_scope(
                *old(host),
                *final(host),
            ),
    {
        match self.entry(Symbol::OpenHandleScope) {
            Err(f) => Err(f),
            Ok(_) => {
                host.open_scope(env);
                Ok(())
            },
        }
    }

    /// Pass-through for closing the innermost plain handle region.
    pub fn close_scope(&self, host: &mut Host, env: Env) -> (r: Result<(), Fault>)
        requires
            self.wf(),
            old(host).wf(),
            old(host).valid_env(env),
            old(host).scopes@.len() > 0,
        ensures
            final(host).wf(),
            !self.loaded() ==> r == Err::<(), Fault>(Fault::BindingsNotLoaded) && host_fields_eq(
                *old(host),
                *final(host),
            ),
            self.loaded() ==> r == Ok::<(), Fault>(()) && host_closed_scope(
                *old(host),
                *final(host),
            ),
    {
        match self.entry(Symbol::CloseHandleScope) {
            Err(f) => Err(f),
            Ok(_) => {
                host.close_scope(env);
                Ok(())
            },
        }
    }

    /// Pass-through for opening an escapable handle region.
    pub fn open_escapable_scope(&self, host: &mut Host, env: Env) -> (r: Result<(), Fault>)
        requires
            self.wf(),
            old(host).wf(),
            old(host).valid_env(env),
        ensures
            final(host).wf(),
            !self.loaded() ==> r == Err::<(), Fault>(Fault::BindingsNotLoaded) && host_fields_eq(
                *old(host),
                *final(host),
            ),
            self.loaded() ==> r == Ok::<(), Fault>(()) && host_opened_scope(
                *old(host),
                *final(host),
            ),
    {
        match self.entry(Symbol::OpenEscapableHandleScope) {
            Err(f) => Err(f),
            Ok(_) => {
                host.open_scope(env);
                Ok(())
            },
        }
    }

    /// Pass-through for escaping one handle out of the innermost
    /// escapable region and closing it; two table entries serve this, the
    /// escape itself and the close.
    pub fn escape_and_close_scope(&self, host: &mut Host, env: Env, h: Local) -> (r: Result<
        Local,
        Fault,
    >)
        requires
            self.wf(),
            old(host).wf(),
            old(host).valid_env(env),
            old(host).scopes@.len() > 0,
            old(host).live(h),
            old(host).has_handle_capacity(),
        ensures
            final(host).wf(),
            !self.loaded() ==> r == Err::<Local, Fault>(Fault::BindingsNotLoaded) && host_fields_eq(
                *old(host),
                *final(host),
            ),
            self.loaded() ==> (r matches Ok(e) && host_escaped(*old(host), *final(host), h, e)),
    {
        match self.entry(Symbol::EscapeHandle) {
            Err(f) => Err(f),
            Ok(_) => match self.entry(Symbol::CloseEscapableHandleScope) {
                Err(f) => Err(f),
                Ok(_) => Ok(host.escape_and_close_scope(env, h)),
            },
        }
    }
}

} // verus!
