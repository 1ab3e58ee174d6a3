use napi_bridge::bindings::{BindingTable, SymbolImage, SYMBOL_COUNT};
use napi_bridge::call;
use napi_bridge::call::CCallback;
use napi_bridge::host::Host;
use napi_bridge::raw::{CallbackInfo, Local};

fn loaded_table() -> BindingTable {
    let mut addrs: Vec<Option<u64>> = Vec::new();
    for i in 0..SYMBOL_COUNT {
        addrs.push(Some(0x2000 + i as u64));
    }
    let img = SymbolImage { addrs };
    let mut t = BindingTable::stubs();
    t.setup(&img).unwrap();
    t
}

#[test]
fn num_arguments() {
    let table = loaded_table();
    let mut host = Host::new(1);
    let env = host.env();
    let a = host.create_number(env, 10).unwrap();
    let b = host.create_number(env, 20).unwrap();
    let c = host.create_number(env, 30).unwrap();
    let this = host.get_undefined(env);
    let info = CallbackInfo { this, args: vec![a, b, c], data: None, new_target: Local::null() };
    assert_eq!(call::len(env, &info, &table), 3);
    let empty = CallbackInfo { this, args: vec![], data: None, new_target: Local::null() };
    assert_eq!(call::len(env, &empty, &table), 0);
}

#[test]
fn argv_returns_every_argument_in_source_order() {
    let table = loaded_table();
    let mut host = Host::new(1);
    let env = host.env();
    let a = host.create_number(env, 10).unwrap();
    let b = host.create_number(env, 20).unwrap();
    let c = host.create_number(env, 30).unwrap();
    let this = host.get_undefined(env);
    let info = CallbackInfo { this, args: vec![a, b, c], data: None, new_target: Local::null() };
    let got = call::argv(env, &info, &table);
    assert_eq!(got, vec![a, b, c]);
    assert_eq!(got.len() as i32, call::len(env, &info, &table));
}

#[test]
fn argv_of_a_call_without_arguments_is_empty() {
    let table = loaded_table();
    let host = Host::new(1);
    let env = host.env();
    let info = CallbackInfo {
        this: host.get_undefined(env),
        args: vec![],
        data: None,
        new_target: Local::null(),
    };
    assert_eq!(call::argv(env, &info, &table), vec![]);
}

#[test]
fn return_this() {
    let table = loaded_table();
    let mut host = Host::new(1);
    let env = host.env();
    let receiver = host.create_array_with_length(env, 2).unwrap();
    let info =
        CallbackInfo { this: receiver, args: vec![], data: None, new_target: Local::null() };
    let mut out = Local::null();
    call::this(env, &info, &mut out, &table);
    assert_eq!(out, receiver);
}

#[test]
fn data_extraction_writes_the_attached_pointer() {
    let table = loaded_table();
    let host = Host::new(1);
    let env = host.env();
    let info = CallbackInfo {
        this: host.get_undefined(env),
        args: vec![],
        data: Some(0xbeef),
        new_target: Local::null(),
    };
    let mut out: u64 = 0;
    call::data(env, &info, &mut out, &table);
    assert_eq!(out, 0xbeef);
}

#[test]
fn data_extraction_failure_leaves_the_output_unmodified() {
    let table = loaded_table();
    let host = Host::new(1);
    let env = host.env();
    let info = CallbackInfo {
        this: host.get_undefined(env),
        args: vec![],
        data: None,
        new_target: Local::null(),
    };
    let mut out: u64 = 0x5555;
    call::data(env, &info, &mut out, &table);
    assert_eq!(out, 0x5555);
}

#[test]
fn is_construct() {
    let table = loaded_table();
    let mut host = Host::new(1);
    let env = host.env();
    let target = host.create_function(env).unwrap();
    let plain = CallbackInfo {
        this: host.get_undefined(env),
        args: vec![],
        data: None,
        new_target: Local::null(),
    };
    let constructing = CallbackInfo {
        this: host.get_undefined(env),
        args: vec![],
        data: None,
        new_target: target,
    };
    assert!(!call::is_construct(env, &plain, &table));
    assert!(call::is_construct(env, &constructing, &table));
}

#[test]
fn is_construct_ignores_receiver_and_arguments() {
    let table = loaded_table();
    let mut host = Host::new(1);
    let env = host.env();
    let target = host.create_function(env).unwrap();
    let a = host.create_number(env, 1).unwrap();
    let with_load = CallbackInfo {
        this: host.get_boolean(env, true),
        args: vec![a, a, a],
        data: Some(9),
        new_target: target,
    };
    let bare =
        CallbackInfo { this: host.get_null(env), args: vec![], data: None, new_target: target };
    assert!(call::is_construct(env, &with_load, &table));
    assert!(call::is_construct(env, &bare, &table));
    let plain_with_load = CallbackInfo {
        this: host.get_boolean(env, true),
        args: vec![a, a, a],
        data: Some(9),
        new_target: Local::null(),
    };
    assert!(!call::is_construct(env, &plain_with_load, &table));
}

#[test]
fn a_larger_buffer_is_padded_with_undefined() {
    let table = loaded_table();
    let mut host = Host::new(1);
    let env = host.env();
    let a = host.create_number(env, 10).unwrap();
    let info = CallbackInfo {
        this: host.get_undefined(env),
        args: vec![a],
        data: None,
        new_target: Local::null(),
    };
    let buf = table.cb_info_argv(env, &info, 3).unwrap();
    assert_eq!(buf.len(), 3);
    assert_eq!(buf[0], a);
    assert_eq!(buf[1], host.get_undefined(env));
    assert_eq!(buf[2], host.get_undefined(env));
}

#[test]
fn default_callback_has_no_entry_points() {
    let cb = CCallback::default();
    assert_eq!(cb.static_callback, 0);
    assert_eq!(cb.dynamic_callback, 0);
}
