use cashier::store::Store;

#[test]
fn get_never_written_is_none() {
    let s = Store::new();
    assert_eq!(s.get("missing", 0), None);
    assert_eq!(s.get("missing", u64::MAX), None);
}

#[test]
fn set_clears_prior_deadline() {
    let mut s = Store::new();
    s.set_with_deadline("key", "old", 10);
    s.set("key", "new");
    assert_eq!(s.get("key", u64::MAX).unwrap(), "new");
}

#[test]
fn set_replaces_whole_record() {
    let mut s = Store::new();
    s.set("key", "first");
    s.set("key", "second");
    assert_eq!(s.get("key", 0).unwrap(), "second");
}

#[test]
fn deadline_boundary() {
    let mut s = Store::new();
    s.set_with_deadline("key", "value", 10);
    assert_eq!(s.get("key", 9).unwrap(), "value");
    assert_eq!(s.get("key", 10), None);
    assert_eq!(s.get("key", 11), None);
}

#[test]
fn zero_ttl_deadline_already_passed() {
    let mut s = Store::new();
    let now: u64 = 1000;
    s.set_with_deadline("key", "value", now);
    assert_eq!(s.get("key", now), None);
}

#[test]
fn expired_entry_reads_like_absent_until_overwritten() {
    let mut s = Store::new();
    s.set_with_deadline("key", "value", 5);
    assert_eq!(s.get("key", 6), None);
    s.set("key", "value");
    assert_eq!(s.get("key", 6).unwrap(), "value");
}

#[test]
fn delete_absent_is_noop() {
    let mut s = Store::new();
    s.delete("missing");
    assert_eq!(s.get("missing", 0), None);
    s.set("key", "value");
    s.delete("other");
    assert_eq!(s.get("key", 0).unwrap(), "value");
}

#[test]
fn delete_then_get_is_none() {
    let mut s = Store::new();
    s.set("key", "value");
    s.delete("key");
    assert_eq!(s.get("key", 0), None);
}

#[test]
fn clear_empties_store() {
    let mut s = Store::new();
    s.set("x", "9");
    s.set("y", "8");
    s.set_with_deadline("z", "7", u64::MAX);
    s.clear();
    assert_eq!(s.get("x", 0), None);
    assert_eq!(s.get("y", 0), None);
    assert_eq!(s.get("z", 0), None);
}

#[test]
fn distinct_keys_do_not_interfere() {
    let mut s = Store::new();
    s.set("k1", "v1");
    s.set("k2", "v2");
    assert_eq!(s.get("k1", 0).unwrap(), "v1");
    assert_eq!(s.get("k2", 0).unwrap(), "v2");
    s.delete("k1");
    assert_eq!(s.get("k2", 0).unwrap(), "v2");
}

#[test]
fn deadline_check_matches_model() {
    assert!(cashier::is_deadline_passed(10, 10));
    assert!(cashier::is_deadline_passed(10, 11));
    assert!(!cashier::is_deadline_passed(10, 9));
}
