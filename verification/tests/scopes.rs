use napi_bridge::bindings::{BindingTable, SymbolImage, SYMBOL_COUNT};
use napi_bridge::host::{Host, HostValue};
use napi_bridge::primitive;
use napi_bridge::scope;

fn loaded_table() -> BindingTable {
    let mut addrs: Vec<Option<u64>> = Vec::new();
    for i in 0..SYMBOL_COUNT {
        addrs.push(Some(0x4000 + i as u64));
    }
    let img = SymbolImage { addrs };
    let mut t = BindingTable::stubs();
    t.setup(&img).unwrap();
    t
}

#[test]
fn execute_scoped() {
    let table = loaded_table();
    let mut host = Host::new(1);
    let env = host.env();
    let before = host.values.len();
    let r = scope::execute_scoped(env, 99, &table, &mut host);
    assert_eq!(primitive::number_value(env, r, &table, &host), 99);
    assert_eq!(host.values.len(), before + 1);
    assert_eq!(host.scopes.len(), 0);
}

#[test]
fn compute_scoped() {
    let table = loaded_table();
    let mut host = Host::new(1);
    let env = host.env();
    let before = host.values.len();
    let r = scope::compute_scoped(env, 99, &table, &mut host);
    assert_eq!(primitive::number_value(env, r, &table, &host), 99);
    assert_eq!(host.values.len(), before + 1 + 99);
    assert_eq!(host.scopes.len(), 0);
}

#[test]
fn zero_iterations_still_produce_the_zero_sum() {
    let table = loaded_table();
    let mut host = Host::new(1);
    let env = host.env();
    let r = scope::execute_scoped(env, 0, &table, &mut host);
    assert_eq!(primitive::number_value(env, r, &table, &host), 0);
    let c = scope::compute_scoped(env, 0, &table, &mut host);
    assert_eq!(primitive::number_value(env, c, &table, &host), 0);
}

#[test]
fn closing_a_region_discards_its_temporaries() {
    let table = loaded_table();
    let mut host = Host::new(1);
    let env = host.env();
    let before = host.values.len();
    table.open_scope(&mut host, env).unwrap();
    let mut tmp = napi_bridge::raw::Local { ptr: 0 };
    primitive::number(&mut tmp, env, 7, &table, &mut host);
    assert_eq!(host.values.len(), before + 1);
    table.close_scope(&mut host, env).unwrap();
    assert_eq!(host.values.len(), before);
}

#[test]
fn an_escaped_value_outlives_its_region() {
    let table = loaded_table();
    let mut host = Host::new(1);
    let env = host.env();
    let before = host.values.len();
    table.open_escapable_scope(&mut host, env).unwrap();
    let mut a = napi_bridge::raw::Local { ptr: 0 };
    primitive::number(&mut a, env, 5, &table, &mut host);
    let mut b = napi_bridge::raw::Local { ptr: 0 };
    primitive::number(&mut b, env, 6, &table, &mut host);
    let kept = table.escape_and_close_scope(&mut host, env, b).unwrap();
    assert_eq!(host.values.len(), before + 1);
    assert_eq!(host.values[kept.ptr as usize - 1], HostValue::Number(6));
    assert_eq!(primitive::number_value(env, kept, &table, &host), 6);
}
