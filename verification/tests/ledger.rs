use coreum_fun::ledger::{rank, Ledger, Rank};

fn listing(ledger: &Ledger) -> Vec<(String, u128)> {
    (0..ledger.len())
        .map(|i| {
            let e = ledger.entry(i);
            (e.address.clone(), e.amount)
        })
        .collect()
}

#[test]
fn rank_orders_by_bytes() {
    assert_eq!(rank("a", "b"), Rank::Before);
    assert_eq!(rank("b", "a"), Rank::After);
    assert_eq!(rank("abc", "abc"), Rank::Same);
    assert_eq!(rank("", ""), Rank::Same);
    assert_eq!(rank("", "a"), Rank::Before);
    assert_eq!(rank("ab", "abc"), Rank::Before);
    assert_eq!(rank("abd", "abc"), Rank::After);
    assert_eq!(rank("Z", "a"), Rank::Before);
    assert_eq!(rank("core10", "core2"), Rank::Before);
    // by the bytes of the encoding, as the keys of a store are ordered
    assert_eq!(rank("z", "é"), Rank::Before);
    assert_eq!(rank("é", "z"), Rank::After);
    assert_eq!(rank("\u{ffff}", "\u{10000}"), Rank::Before);
}

#[test]
fn new_ledger_is_empty() {
    let ledger = Ledger::new();
    assert_eq!(ledger.len(), 0);
    assert_eq!(ledger.get("core1a"), None);
}

#[test]
fn set_keeps_addresses_in_ascending_order() {
    let mut ledger = Ledger::new();
    ledger.set("core1m", 5);
    ledger.set("core1z", 1);
    ledger.set("core1a", 7);
    ledger.set("core1n", 0);
    ledger.set("core1", 9);
    assert_eq!(
        listing(&ledger),
        vec![
            ("core1".to_string(), 9),
            ("core1a".to_string(), 7),
            ("core1m".to_string(), 5),
            ("core1n".to_string(), 0),
            ("core1z".to_string(), 1),
        ]
    );
    assert_eq!(ledger.get("core1n"), Some(0));
    assert_eq!(ledger.get("core1b"), None);
}

#[test]
fn set_replaces_the_amount_of_a_known_address() {
    let mut ledger = Ledger::new();
    ledger.set("b", 1);
    ledger.set("a", 2);
    ledger.set("b", 30);
    assert_eq!(listing(&ledger), vec![("a".to_string(), 2), ("b".to_string(), 30)]);
    assert_eq!(ledger.get("b"), Some(30));
    ledger.set("a", 0);
    assert_eq!(ledger.get("a"), Some(0));
    assert_eq!(ledger.len(), 2);
}

#[test]
fn the_order_does_not_depend_on_the_order_of_the_entries_made() {
    let names = ["d", "a", "c", "b", "e"];
    let mut forward = Ledger::new();
    for (i, n) in names.iter().enumerate() {
        forward.set(n, i as u128);
    }
    let mut backward = Ledger::new();
    for (i, n) in names.iter().enumerate().rev() {
        backward.set(n, i as u128);
    }
    assert_eq!(listing(&forward), listing(&backward));
    assert_eq!(forward.entry(0).address, "a");
    assert_eq!(forward.entry(4).address, "e");
}
