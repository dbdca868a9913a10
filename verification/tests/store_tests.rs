use shortlink::store::{MemoryStore, StoreFailure};

#[test]
fn new_store_is_empty() {
    let s = MemoryStore::new();
    assert_eq!(s.now(), 0);
    assert_eq!(s.contains("abc"), Ok(false));
    assert_eq!(s.get("abc"), Ok(None));
}

#[test]
fn write_then_read() {
    let mut s = MemoryStore::new();
    assert_eq!(s.set_if_absent_with_ttl("abc", "value", 10), Ok(true));
    assert_eq!(s.contains("abc"), Ok(true));
    assert_eq!(s.get("abc"), Ok(Some("value".to_string())));
    assert_eq!(s.contains("abd"), Ok(false));
    assert_eq!(s.get("ab"), Ok(None));
}

#[test]
fn second_write_does_not_overwrite() {
    let mut s = MemoryStore::new();
    assert_eq!(s.set_if_absent_with_ttl("abc", "first", 10), Ok(true));
    assert_eq!(s.set_if_absent_with_ttl("abc", "second", 10), Ok(false));
    assert_eq!(s.get("abc"), Ok(Some("first".to_string())));
}

#[test]
fn binding_expires_when_ttl_has_passed() {
    let mut s = MemoryStore::new();
    assert_eq!(s.set_if_absent_with_ttl("abc", "value", 10), Ok(true));
    s.advance(9);
    assert_eq!(s.now(), 9);
    assert_eq!(s.get("abc"), Ok(Some("value".to_string())));
    s.advance(1);
    assert_eq!(s.now(), 10);
    assert_eq!(s.contains("abc"), Ok(false));
    assert_eq!(s.get("abc"), Ok(None));
}

#[test]
fn expired_key_can_be_bound_again() {
    let mut s = MemoryStore::new();
    assert_eq!(s.set_if_absent_with_ttl("abc", "first", 10), Ok(true));
    assert_eq!(s.set_if_absent_with_ttl("xyz", "other", 100), Ok(true));
    s.advance(10);
    assert_eq!(s.set_if_absent_with_ttl("abc", "second", 10), Ok(true));
    assert_eq!(s.get("abc"), Ok(Some("second".to_string())));
    assert_eq!(s.get("xyz"), Ok(Some("other".to_string())));
    s.advance(10);
    assert_eq!(s.get("abc"), Ok(None));
}

#[test]
fn zero_ttl_binding_is_never_live() {
    let mut s = MemoryStore::new();
    assert_eq!(s.set_if_absent_with_ttl("abc", "value", 0), Ok(true));
    assert_eq!(s.contains("abc"), Ok(false));
}

#[test]
fn longest_ttl_at_latest_time_does_not_wrap() {
    let mut s = MemoryStore::new();
    s.advance(u64::MAX);
    assert_eq!(s.set_if_absent_with_ttl("abc", "value", u64::MAX), Ok(true));
    assert_eq!(s.get("abc"), Ok(Some("value".to_string())));
}

#[test]
fn offline_store_fails_and_keeps_its_contents() {
    let mut s = MemoryStore::new();
    assert_eq!(s.set_if_absent_with_ttl("abc", "value", 10), Ok(true));
    s.set_online(false);
    assert_eq!(s.contains("abc"), Err(StoreFailure {}));
    assert_eq!(s.get("abc"), Err(StoreFailure {}));
    assert_eq!(s.set_if_absent_with_ttl("new", "value", 10), Err(StoreFailure {}));
    s.set_online(true);
    assert_eq!(s.get("abc"), Ok(Some("value".to_string())));
    assert_eq!(s.contains("new"), Ok(false));
}
