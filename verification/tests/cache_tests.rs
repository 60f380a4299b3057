use meta_fuse_driver::cache::TtlCache;

#[test]
fn put_then_get_within_ttl_returns_the_value() {
    let mut c: TtlCache<u32> = TtlCache::new();
    let p = String::from("/a");
    c.put(&p, 7, 100);
    assert_eq!(c.get(&p, 100), Some(&7));
    assert_eq!(c.get(&p, 129), Some(&7));
}

#[test]
fn entry_expires_after_ttl_without_eviction() {
    let mut c: TtlCache<u32> = TtlCache::new();
    let p = String::from("/a");
    c.put(&p, 7, 100);
    assert_eq!(c.get(&p, 130), None);
    assert_eq!(c.get(&p, 500), None);
    // the entry is still there, only stale: a fresh put revives the key
    c.put(&p, 8, 500);
    assert_eq!(c.get(&p, 501), Some(&8));
}

#[test]
fn put_overwrites_and_restamps() {
    let mut c: TtlCache<u32> = TtlCache::new();
    let p = String::from("/a");
    c.put(&p, 1, 10);
    c.put(&p, 2, 20);
    assert_eq!(c.get(&p, 20), Some(&2));
    assert_eq!(c.get(&p, 49), Some(&2));
    assert_eq!(c.get(&p, 50), None);
}

#[test]
fn a_stamp_in_the_future_is_not_trusted() {
    let mut c: TtlCache<u32> = TtlCache::new();
    let p = String::from("/a");
    c.put(&p, 7, 100);
    assert_eq!(c.get(&p, 50), None);
}

#[test]
fn keys_are_independent() {
    let mut c: TtlCache<u32> = TtlCache::new();
    let a = String::from("/a");
    let b = String::from("/b");
    c.put(&a, 1, 10);
    c.put(&b, 2, 10);
    assert_eq!(c.get(&a, 11), Some(&1));
    assert_eq!(c.get(&b, 11), Some(&2));
    assert_eq!(c.get(&String::from("/c"), 11), None);
}
