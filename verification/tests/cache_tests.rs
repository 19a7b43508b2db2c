use block_demo::local_cache_util::{Expiration, InMemExpiry, LocalCache};

#[test]
fn as_duration_values() {
    assert_eq!(Expiration::Never.as_duration(), None);
    assert_eq!(Expiration::Minutes5.as_duration(), Some(300_000));
    assert_eq!(Expiration::Seconds30.as_duration(), Some(30_000));
    assert_eq!(Expiration::Seconds60.as_duration(), Some(60_000));
    assert_eq!(Expiration::Hours2.as_duration(), Some(7_200_000));
    assert_eq!(Expiration::AfterDuration(5).as_duration(), Some(5));
}

#[test]
fn expire_after_create_reads_policy() {
    let exp = InMemExpiry;
    let value = (Expiration::Seconds30, String::from("v"));
    assert_eq!(exp.expire_after_create(&String::from("k"), &value, 42), Some(30_000));
    let never = (Expiration::Never, String::from("v"));
    assert_eq!(exp.expire_after_create(&String::from("k"), &never, 42), None);
}

#[test]
fn insert_get_roundtrip() {
    let mut cache = LocalCache::new();
    cache.insert(String::from("k1"), (Expiration::Seconds60, String::from("v1")), 0);
    let hit = cache.get(&String::from("k1"), 100);
    assert_eq!(hit, Some((Expiration::Seconds60, String::from("v1"))));
    // the deadline is insertion time + 60 s, exclusive
    assert_eq!(cache.get(&String::from("k1"), 59_999), Some((Expiration::Seconds60, String::from("v1"))));
    assert_eq!(cache.get(&String::from("k1"), 60_000), None);
}

#[test]
fn get_unknown_key_is_none() {
    let cache = LocalCache::new();
    assert_eq!(cache.get(&String::from("missing"), 0), None);
}

#[test]
fn reinsert_overwrites_expiry() {
    let mut cache = LocalCache::new();
    cache.insert(String::from("k"), (Expiration::AfterDuration(1000), String::from("a")), 0);
    assert_eq!(cache.get(&String::from("k"), 500), Some((Expiration::AfterDuration(1000), String::from("a"))));
    // re-inserting recomputes the deadline from the new policy and time:
    // 500 + 100 = 600, not the prior 1000
    cache.insert(String::from("k"), (Expiration::AfterDuration(100), String::from("b")), 500);
    assert_eq!(cache.get(&String::from("k"), 550), Some((Expiration::AfterDuration(100), String::from("b"))));
    assert_eq!(cache.get(&String::from("k"), 650), None);
    // had the old deadline survived, 650 < 1000 would still be a hit
}

#[test]
fn immediate_expiry_is_absent() {
    let mut cache = LocalCache::new();
    cache.insert(String::from("k"), (Expiration::AfterDuration(0), String::from("x")), 10);
    assert_eq!(cache.get(&String::from("k"), 10), None);
    assert_eq!(cache.get(&String::from("k"), 11), None);
}

#[test]
fn never_policy_never_expires() {
    let mut cache = LocalCache::new();
    cache.insert(String::from("k"), (Expiration::Never, String::from("x")), 0);
    assert_eq!(cache.get(&String::from("k"), u64::MAX), Some((Expiration::Never, String::from("x"))));
}

#[test]
fn remove_drops_only_that_key() {
    let mut cache = LocalCache::new();
    cache.insert(String::from("a"), (Expiration::Never, String::from("1")), 0);
    cache.insert(String::from("b"), (Expiration::Never, String::from("2")), 0);
    cache.remove(&String::from("a"));
    assert_eq!(cache.get(&String::from("a"), 0), None);
    assert_eq!(cache.get(&String::from("b"), 0), Some((Expiration::Never, String::from("2"))));
}

#[test]
fn saturating_deadline_stays_visible() {
    let mut cache = LocalCache::new();
    cache.insert(String::from("k"), (Expiration::AfterDuration(u64::MAX), String::from("x")), 5);
    assert_eq!(cache.get(&String::from("k"), u64::MAX - 1), Some((Expiration::AfterDuration(u64::MAX), String::from("x"))));
    assert_eq!(cache.get(&String::from("k"), u64::MAX), None);
}
