use napi_bridge::bindings::{BindingTable, Symbol, SymbolImage, SYMBOL_COUNT};
use napi_bridge::host::Host;
use napi_bridge::raw::Fault;

fn complete_image() -> SymbolImage {
    let mut addrs: Vec<Option<u64>> = Vec::new();
    for i in 0..SYMBOL_COUNT {
        addrs.push(Some(0x1000 + i as u64));
    }
    SymbolImage { addrs }
}

#[test]
fn setup_populates_every_entry() {
    let img = complete_image();
    let mut t = BindingTable::stubs();
    assert_eq!(t.setup(&img), Ok(()));
    assert_eq!(t.entries.len(), SYMBOL_COUNT);
    for i in 0..SYMBOL_COUNT {
        assert_eq!(Some(t.entries[i]), img.addrs[i]);
    }
}

#[test]
fn setup_is_idempotent() {
    let img = complete_image();
    let mut t = BindingTable::stubs();
    assert_eq!(t.setup(&img), Ok(()));
    let first = t.entries.clone();
    assert_eq!(t.setup(&img), Ok(()));
    assert_eq!(t.setup(&img), Ok(()));
    assert_eq!(t.entries, first);
}

#[test]
fn second_setup_ignores_a_different_image() {
    let img = complete_image();
    let mut t = BindingTable::stubs();
    assert_eq!(t.setup(&img), Ok(()));
    let first = t.entries.clone();
    let mut other = complete_image();
    other.addrs[0] = Some(0xdead);
    assert_eq!(t.setup(&other), Ok(()));
    assert_eq!(t.entries, first);
}

#[test]
fn bound_operations_fail_fast_before_setup() {
    let t = BindingTable::stubs();
    let host = Host::new(7);
    let env = host.env();
    assert_eq!(t.entry(Symbol::GetUndefined), Err(Fault::BindingsNotLoaded));
    assert_eq!(t.get_undefined(&host, env), Err(Fault::BindingsNotLoaded));
    assert_eq!(t.get_boolean(&host, env, true), Err(Fault::BindingsNotLoaded));
    let mut host = host;
    assert_eq!(t.create_number(&mut host, env, 5), Err(Fault::BindingsNotLoaded));
    assert_eq!(host.values.len(), 4);
}

#[test]
fn missing_symbol_is_a_fatal_load_failure() {
    let mut img = complete_image();
    img.addrs[3] = None;
    let mut t = BindingTable::stubs();
    assert_eq!(t.setup(&img), Err(Fault::MissingSymbol));
    assert_eq!(t.entries.len(), 0);
    assert_eq!(t.entry(Symbol::GetNull), Err(Fault::BindingsNotLoaded));
}

#[test]
fn entries_answer_after_setup() {
    let img = complete_image();
    let mut t = BindingTable::stubs();
    t.setup(&img).unwrap();
    assert_eq!(t.entry(Symbol::CreateArrayWithLength), Ok(0x1000));
    assert_eq!(t.entry(Symbol::CloseEscapableHandleScope), Ok(0x1000 + 18));
}

#[test]
fn symbols_resolve_by_their_fixed_names() {
    assert_eq!(Symbol::GetCbInfo.name(), "napi_get_cb_info");
    assert_eq!(Symbol::TypeofValue.name(), "napi_typeof");
    assert_eq!(Symbol::CreateExternal.name(), "napi_create_external");
    let img = complete_image();
    assert_eq!(img.resolve(Symbol::GetUndefined), img.addrs[Symbol::GetUndefined.index()]);
}
