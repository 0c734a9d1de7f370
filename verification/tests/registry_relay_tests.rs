use luaegui::registry::HandleRegistry;
use luaegui::relay::{RelayKey, RelayStore};
use luaegui::error::BridgeError;
use luaegui::value::ScriptValue;

#[test]
fn handle_resolves_only_while_its_scope_is_open() {
    let mut reg = HandleRegistry::new();
    let h = reg.enter(0, true);
    let (obj, writable) = reg.resolve(h).unwrap();
    assert_eq!(obj, 0);
    assert!(writable);
    reg.revoke(h);
    // the slot itself was invalidated: any later use is a scope violation
    assert_eq!(reg.resolve(h).unwrap_err(), BridgeError::ScopeViolation);
}

#[test]
fn reused_slot_rejects_the_stale_handle() {
    let mut reg = HandleRegistry::new();
    let first = reg.enter(7, false);
    reg.revoke(first);
    // the slot is reused under a later generation
    let second = reg.enter(8, true);
    assert_eq!(second.index, first.index);
    assert!(second.generation > first.generation);
    // the stale handle still fails even though its slot is live again
    assert_eq!(reg.resolve(first).unwrap_err(), BridgeError::ScopeViolation);
    let (obj, _) = reg.resolve(second).unwrap();
    assert_eq!(obj, 8);
}

#[test]
fn two_scopes_use_distinct_slots() {
    let mut reg = HandleRegistry::new();
    let a = reg.enter(0, true);
    let b = reg.enter(1, true);
    assert_ne!(a.index, b.index);
    assert_eq!(reg.live_count(), 2);
    reg.revoke(b);
    assert_eq!(reg.live_count(), 1);
    reg.revoke(a);
    assert_eq!(reg.live_count(), 0);
}

#[test]
fn relay_store_fetch_delete_returns_to_baseline() {
    let mut relay = RelayStore::new();
    assert_eq!(relay.size(), 0);
    let key = relay.store(vec![
        ScriptValue::Bool(true),
        ScriptValue::Str("done".to_string()),
    ]);
    assert_eq!(relay.size(), 1);
    let vals = relay.fetch_delete(key).unwrap();
    assert_eq!(vals.len(), 2);
    assert!(matches!(vals[0], ScriptValue::Bool(true)));
    match &vals[1] {
        ScriptValue::Str(s) => assert_eq!(s, "done"),
        _ => panic!("the stored string must come back"),
    }
    // store size is back to its pre-store baseline
    assert_eq!(relay.size(), 0);
}

#[test]
fn relay_rejects_a_key_with_no_entry() {
    let mut relay = RelayStore::new();
    let e = relay.fetch_delete(RelayKey { index: 3 }).unwrap_err();
    assert_eq!(e, BridgeError::RelayLeak);
    let key = relay.store(vec![ScriptValue::Nil]);
    let _ = relay.fetch_delete(key).unwrap();
    // the entry is gone: a forged key to the same slot finds nothing
    let e = relay.fetch_delete(RelayKey { index: 0 }).unwrap_err();
    assert_eq!(e, BridgeError::RelayLeak);
}

#[test]
fn relay_keys_are_independent() {
    let mut relay = RelayStore::new();
    let k1 = relay.store(vec![ScriptValue::Int(1)]);
    let k2 = relay.store(vec![ScriptValue::Int(2)]);
    assert_eq!(relay.size(), 2);
    let v2 = relay.fetch_delete(k2).unwrap();
    assert!(matches!(v2[0], ScriptValue::Int(2)));
    let v1 = relay.fetch_delete(k1).unwrap();
    assert!(matches!(v1[0], ScriptValue::Int(1)));
    assert_eq!(relay.size(), 0);
}
