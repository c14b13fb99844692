use ngrok2::{PendingTable, HANDSHAKE, PENDING_TTL_MS};

#[test]
fn claim_removes_entry() {
    let mut t: PendingTable<&str> = PendingTable::new();
    assert!(t.insert(5, "ext", 0).is_ok());
    assert!(t.contains(5));
    assert_eq!(t.claim(5), Some("ext"));
    assert_eq!(t.claim(5), None);
    assert_eq!(t.len(), 0);
}

#[test]
fn claim_of_unknown_id_is_none() {
    let mut t: PendingTable<u32> = PendingTable::new();
    assert_eq!(t.claim(42), None);
}

#[test]
fn claim_before_ttl_succeeds() {
    let mut t: PendingTable<&str> = PendingTable::new();
    let start = 1_000;
    t.insert(9, "ext", start).unwrap();
    assert_eq!(t.sweep(9, start + 9_000), None);
    assert_eq!(t.claim(9), Some("ext"));
}

#[test]
fn sweep_after_ttl_evicts() {
    let mut t: PendingTable<&str> = PendingTable::new();
    let start = 1_000;
    t.insert(9, "ext", start).unwrap();
    assert_eq!(t.sweep(9, start + 11_000), Some("ext"));
    assert!(!t.contains(9));
    assert_eq!(t.claim(9), None);
}

#[test]
fn sweep_exactly_at_ttl_evicts() {
    let mut t: PendingTable<u8> = PendingTable::new();
    t.insert(1, 7, 50).unwrap();
    assert_eq!(t.sweep(1, 50 + PENDING_TTL_MS - 1), None);
    assert_eq!(t.sweep(1, 50 + PENDING_TTL_MS), Some(7));
}

#[test]
fn sweep_after_claim_is_noop() {
    let mut t: PendingTable<&str> = PendingTable::new();
    t.insert(3, "a", 0).unwrap();
    t.insert(4, "b", 0).unwrap();
    assert_eq!(t.claim(3), Some("a"));
    assert_eq!(t.sweep(3, 20_000), None);
    assert_eq!(t.len(), 1);
}

#[test]
fn sweep_of_other_id_keeps_entry() {
    let mut t: PendingTable<&str> = PendingTable::new();
    t.insert(3, "a", 0).unwrap();
    t.insert(4, "b", 5_000).unwrap();
    assert_eq!(t.sweep(3, 12_000), Some("a"));
    assert!(t.contains(4));
    assert_eq!(t.claim(4), Some("b"));
}

#[test]
fn duplicate_id_is_refused() {
    let mut t: PendingTable<&str> = PendingTable::new();
    t.insert(8, "first", 0).unwrap();
    assert_eq!(t.insert(8, "second", 1), Err("second"));
    assert_eq!(t.claim(8), Some("first"));
}

#[test]
fn handshake_marker_is_never_an_id() {
    let mut t: PendingTable<&str> = PendingTable::new();
    assert_eq!(t.insert(HANDSHAKE, "ext", 0), Err("ext"));
    assert_eq!(t.len(), 0);
}

#[test]
fn register_draws_distinct_usable_ids() {
    let mut t: PendingTable<u32> = PendingTable::new();
    let a = t.register(1, 0).unwrap();
    let b = t.register(2, 0).unwrap();
    assert_ne!(a, b);
    assert_ne!(a, HANDSHAKE);
    assert_eq!(t.len(), 2);
    assert_eq!(t.claim(b), Some(2));
    assert_eq!(t.claim(a), Some(1));
}
