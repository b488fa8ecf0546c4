use msgbus::Registry;

#[test]
fn registered_listener_is_found() {
    let mut reg: Registry<String, u32> = Registry::new();
    assert_eq!(reg.register("test".to_string(), 7), None);
    assert_eq!(reg.listener(&"test".to_string()), Some(&7));
    assert!(reg.contains(&"test".to_string()));
    assert_eq!(reg.len(), 1);
}

#[test]
fn unregistered_listener_is_gone() {
    let mut reg: Registry<String, u32> = Registry::new();
    reg.register("test".to_string(), 7);
    assert_eq!(reg.unregister(&"test".to_string()), Some(7));
    assert_eq!(reg.listener(&"test".to_string()), None);
    assert_eq!(reg.len(), 0);
}

#[test]
fn unknown_destination_has_no_listener() {
    let reg: Registry<String, u32> = Registry::new();
    assert_eq!(reg.listener(&"drop".to_string()), None);
    let reg2: Registry<usize, u32> = Registry::new();
    assert_eq!(reg2.listener(&1000), None);
}

#[test]
fn unregistering_unknown_key_changes_nothing() {
    let mut reg: Registry<usize, u32> = Registry::new();
    reg.register(1001, 1);
    assert_eq!(reg.unregister(&2002), None);
    assert_eq!(reg.len(), 1);
    assert_eq!(reg.listener(&1001), Some(&1));
}

#[test]
fn second_registration_replaces_first() {
    let mut reg: Registry<usize, &str> = Registry::new();
    assert_eq!(reg.register(1001, "first"), None);
    assert_eq!(reg.register(1001, "second"), Some("first"));
    assert_eq!(reg.listener(&1001), Some(&"second"));
    assert_eq!(reg.len(), 1);
}

#[test]
fn unregister_after_register_restores_empty_table() {
    let mut reg: Registry<usize, u32> = Registry::new();
    reg.register(5, 50);
    reg.unregister(&5);
    assert_eq!(reg.len(), 0);
    assert!(!reg.contains(&5));
}

fn sorted_keys(reg: &Registry<usize, u32>) -> Vec<(usize, u32)> {
    let mut ks: Vec<(usize, u32)> = reg.targets().into_iter().map(|(k, l)| (*k, *l)).collect();
    ks.sort();
    ks
}

#[test]
fn broadcast_reaches_every_listener_once() {
    let mut reg: Registry<usize, u32> = Registry::new();
    reg.register(1001, 1);
    reg.register(2002, 2);
    reg.register(3003, 3);
    assert_eq!(sorted_keys(&reg), vec![(1001, 1), (2002, 2), (3003, 3)]);
}

#[test]
fn broadcast_after_unregister_skips_the_unregistered() {
    let mut reg: Registry<usize, u32> = Registry::new();
    reg.register(1001, 1);
    reg.register(2002, 2);
    reg.register(3003, 3);
    reg.unregister(&2002);
    assert_eq!(sorted_keys(&reg), vec![(1001, 1), (3003, 3)]);
}

#[test]
fn empty_table_has_no_targets() {
    let reg: Registry<usize, u32> = Registry::new();
    assert!(reg.targets().is_empty());
}

#[test]
fn failed_direct_delivery_drops_listener() {
    let mut reg: Registry<usize, u32> = Registry::new();
    reg.register(1001, 1);
    reg.register(2002, 2);
    reg.settle_delivery(&1001, true);
    assert_eq!(reg.len(), 2);
    reg.settle_delivery(&1001, false);
    assert_eq!(reg.listener(&1001), None);
    assert_eq!(reg.listener(&2002), Some(&2));
}

#[test]
fn failed_broadcast_delivery_drops_only_failed_listeners() {
    let mut reg: Registry<usize, u32> = Registry::new();
    reg.register(1001, 1);
    reg.register(2002, 2);
    reg.register(3003, 3);
    reg.settle_broadcast(&vec![(1001, true), (2002, false), (3003, true)]);
    assert_eq!(sorted_keys(&reg), vec![(1001, 1), (3003, 3)]);
}

#[test]
fn broadcast_with_all_delivered_keeps_table() {
    let mut reg: Registry<usize, u32> = Registry::new();
    reg.register(1001, 1);
    reg.register(2002, 2);
    reg.settle_broadcast(&vec![(1001, true), (2002, true)]);
    assert_eq!(sorted_keys(&reg), vec![(1001, 1), (2002, 2)]);
    reg.settle_broadcast(&vec![]);
    assert_eq!(reg.len(), 2);
}

#[test]
fn shutdown_clears_table() {
    let mut reg: Registry<usize, u32> = Registry::new();
    reg.register(1001, 1);
    reg.register(2002, 2);
    assert_eq!(reg.targets().len(), 2);
    reg.clear();
    assert_eq!(reg.len(), 0);
    assert_eq!(reg.listener(&1001), None);
    assert!(reg.targets().is_empty());
}

#[test]
fn latest_change_decides_route() {
    // register, unregister, register again, fail a delivery, register again
    let mut reg: Registry<usize, u32> = Registry::new();
    reg.register(9, 1);
    reg.unregister(&9);
    reg.register(9, 2);
    assert_eq!(reg.listener(&9), Some(&2));
    reg.settle_delivery(&9, false);
    assert_eq!(reg.listener(&9), None);
    reg.register(9, 3);
    reg.register(4, 40);
    reg.settle_broadcast(&vec![(4, false)]);
    assert_eq!(reg.listener(&9), Some(&3));
    assert_eq!(reg.listener(&4), None);
}
