use napi_bridge::bindings::{BindingTable, SymbolImage, SYMBOL_COUNT};
use napi_bridge::external;
use napi_bridge::host::{ExtState, Host, HostValue};
use napi_bridge::raw::{Fault, Status};

fn loaded_table() -> BindingTable {
    let mut addrs: Vec<Option<u64>> = Vec::new();
    for i in 0..SYMBOL_COUNT {
        addrs.push(Some(0x3000 + i as u64));
    }
    let img = SymbolImage { addrs };
    let mut t = BindingTable::stubs();
    t.setup(&img).unwrap();
    t
}

#[test]
fn deref_recovers_the_created_payload() {
    let table = loaded_table();
    let mut host = Host::new(1);
    let env = host.env();
    let h = external::create(env, 42, 0x77, &table, &mut host).unwrap();
    assert_eq!(external::deref(env, h, &table, &host), Ok(Some(42)));
}

#[test]
fn deref_on_a_non_external_is_absent() {
    let table = loaded_table();
    let mut host = Host::new(1);
    let env = host.env();
    let n = host.create_number(env, 5).unwrap();
    assert_eq!(external::deref(env, n, &table, &host), Ok(None));
    let b = host.get_boolean(env, true);
    assert_eq!(external::deref(env, b, &table, &host), Ok(None));
    let u = host.get_undefined(env);
    assert_eq!(external::deref(env, u, &table, &host), Ok(None));
}

#[test]
fn deref_type_query_failure_is_a_fault_not_a_kind() {
    let table = loaded_table();
    let mut host = Host::new(1);
    let env = host.env();
    let h = external::create(env, 9, 0x11, &table, &mut host).unwrap();
    host.set_pending_exception(true);
    assert_eq!(
        external::deref(env, h, &table, &host),
        Err(Fault::Abi(Status::PendingException))
    );
    host.set_pending_exception(false);
    assert_eq!(external::deref(env, h, &table, &host), Ok(Some(9)));
}

#[test]
fn create_in_a_throwing_host_is_fatal() {
    let table = loaded_table();
    let mut host = Host::new(1);
    let env = host.env();
    host.set_pending_exception(true);
    assert_eq!(
        external::create(env, 1, 2, &table, &mut host),
        Err(Fault::Abi(Status::PendingException))
    );
    assert_eq!(host.externals.len(), 0);
}

#[test]
fn finalizer_runs_exactly_once_with_the_created_payload() {
    let table = loaded_table();
    let mut host = Host::new(1);
    let env = host.env();
    host.open_scope(env);
    let h = external::create(env, 42, 0x77, &table, &mut host).unwrap();
    assert_eq!(host.values[h.ptr as usize - 1], HostValue::External(0));
    assert_eq!(host.finalize_log.len(), 0);
    assert_eq!(host.externals[0].state, ExtState::Live);
    host.close_scope(env);
    host.collect_external(env, 0);
    assert_eq!(host.finalize_log.len(), 1);
    let record = host.finalize_log[0];
    assert_eq!(record.ext, 0);
    assert_eq!(record.value, 42);
    assert_eq!(record.finalizer, 0x77);
    assert_eq!(record.env, env);
    assert_eq!(host.externals[0].state, ExtState::Finalized);
}

#[test]
fn collection_order_of_two_externals_keeps_each_finalizer_to_its_payload() {
    let table = loaded_table();
    let mut host = Host::new(1);
    let env = host.env();
    host.open_scope(env);
    let first = external::create(env, 10, 0xa, &table, &mut host).unwrap();
    let second = external::create(env, 20, 0xb, &table, &mut host).unwrap();
    assert_ne!(first, second);
    host.close_scope(env);
    host.collect_external(env, 1);
    host.collect_external(env, 0);
    assert_eq!(host.finalize_log.len(), 2);
    assert_eq!((host.finalize_log[0].finalizer, host.finalize_log[0].value), (0xb, 20));
    assert_eq!((host.finalize_log[1].finalizer, host.finalize_log[1].value), (0xa, 10));
    assert_eq!(host.externals[0].state, ExtState::Finalized);
    assert_eq!(host.externals[1].state, ExtState::Finalized);
}

#[test]
fn trampoline_reconstructs_exactly_what_was_registered() {
    let env = Host::new(3).env();
    let record = external::finalize_external(env, -7, 0x1234, 5);
    assert_eq!(record.value, -7);
    assert_eq!(record.finalizer, 0x1234);
    assert_eq!(record.ext, 5);
    assert_eq!(record.env, env);
}
