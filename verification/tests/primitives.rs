use napi_bridge::array;
use napi_bridge::bindings::{BindingTable, SymbolImage, SYMBOL_COUNT};
use napi_bridge::host::{Host, HostValue};
use napi_bridge::primitive;
use napi_bridge::raw::Local;

fn loaded_table() -> BindingTable {
    let mut addrs: Vec<Option<u64>> = Vec::new();
    for i in 0..SYMBOL_COUNT {
        addrs.push(Some(0x5000 + i as u64));
    }
    let img = SymbolImage { addrs };
    let mut t = BindingTable::stubs();
    t.setup(&img).unwrap();
    t
}

#[test]
fn the_singletons_are_process_wide() {
    let table = loaded_table();
    let host = Host::new(1);
    let env = host.env();
    let mut u = Local { ptr: 0 };
    primitive::undefined(&mut u, env, &table, &host);
    let mut n = Local { ptr: 0 };
    primitive::null(&mut n, env, &table, &host);
    let mut f = Local { ptr: 0 };
    primitive::boolean(&mut f, env, false, &table, &host);
    let mut t = Local { ptr: 0 };
    primitive::boolean(&mut t, env, true, &table, &host);
    assert_eq!(host.values[u.ptr as usize - 1], HostValue::Undefined);
    assert_eq!(host.values[n.ptr as usize - 1], HostValue::Null);
    assert_eq!(host.values[f.ptr as usize - 1], HostValue::Boolean(false));
    assert_eq!(host.values[t.ptr as usize - 1], HostValue::Boolean(true));
    let mut t2 = Local { ptr: 0 };
    primitive::boolean(&mut t2, env, true, &table, &host);
    assert_eq!(t, t2);
}

#[test]
fn boolean_round_trip() {
    let table = loaded_table();
    let host = Host::new(1);
    let env = host.env();
    let mut t = Local { ptr: 0 };
    primitive::boolean(&mut t, env, true, &table, &host);
    assert!(primitive::boolean_value(env, t, &table, &host));
    let mut f = Local { ptr: 0 };
    primitive::boolean(&mut f, env, false, &table, &host);
    assert!(!primitive::boolean_value(env, f, &table, &host));
}

#[test]
fn number_round_trip() {
    let table = loaded_table();
    let mut host = Host::new(1);
    let env = host.env();
    let mut h = Local { ptr: 0 };
    primitive::number(&mut h, env, -123456789, &table, &mut host);
    assert_eq!(primitive::number_value(env, h, &table, &host), -123456789);
    let mut z = Local { ptr: 0 };
    primitive::number(&mut z, env, 0, &table, &mut host);
    assert_eq!(primitive::number_value(env, z, &table, &host), 0);
    assert_ne!(h, z);
}

#[test]
fn array_length_round_trip() {
    let table = loaded_table();
    let mut host = Host::new(1);
    let env = host.env();
    let mut a = Local { ptr: 0 };
    array::new(&mut a, env, 17, &table, &mut host);
    assert_eq!(array::len(env, a, &table, &host), 17);
    let mut empty = Local { ptr: 0 };
    array::new(&mut empty, env, 0, &table, &mut host);
    assert_eq!(array::len(env, empty, &table, &host), 0);
}

#[test]
fn the_null_sentinel_is_no_handle() {
    let z = Local::null();
    assert!(z.is_null());
    assert_eq!(z.ptr, 0);
    let one = Local { ptr: 1 };
    assert!(!one.is_null());
}
