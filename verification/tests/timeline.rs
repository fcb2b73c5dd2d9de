use std::time::{Duration, Instant};

use expiringmap::{ExpiringMap, ExpiringSet, ExpiryValue};

fn ms(n: u64) -> Duration {
    Duration::from_millis(n)
}

#[test]
fn entry_remaining_counts_down_to_zero() {
    let t0 = Instant::now();
    let e = ExpiryValue::stamped("x", ms(50), t0);
    assert_eq!(e.inserted(), t0);
    assert_eq!(e.ttl(), ms(50));
    assert_eq!(e.remaining_at(t0), ms(50));
    assert_eq!(e.remaining_at(t0 + ms(20)), ms(30));
    assert_eq!(e.remaining_at(t0 + Duration::from_nanos(49_999_999)), Duration::from_nanos(1));
    assert_eq!(e.remaining_at(t0 + ms(50)), Duration::ZERO);
    assert_eq!(e.remaining_at(t0 + ms(75)), Duration::ZERO);
    assert_eq!(e.value(), "x");
}

#[test]
fn entry_remaining_never_grows() {
    let t0 = Instant::now();
    let e = ExpiryValue::stamped((), ms(5), t0);
    let mut last = e.remaining_at(t0);
    for step in 0..10u64 {
        let left = e.remaining_at(t0 + ms(step));
        assert!(left <= last);
        last = left;
    }
    assert_eq!(last, Duration::ZERO);
}

#[test]
fn entry_expires_exactly_at_ttl() {
    let t0 = Instant::now();
    let e = ExpiryValue::stamped(7u8, ms(50), t0);
    assert!(e.not_expired_at(t0));
    assert!(!e.expired_at(t0));
    assert!(e.not_expired_at(t0 + Duration::from_nanos(49_999_999)));
    assert!(e.expired_at(t0 + ms(50)));
    assert!(!e.not_expired_at(t0 + ms(50)));
    assert!(e.expired_at(t0 + ms(75)));
}

#[test]
fn entry_read_before_insertion_counts_as_fresh() {
    let t0 = Instant::now();
    let e = ExpiryValue::stamped(7u8, ms(50), t0 + ms(10));
    assert_eq!(e.remaining_at(t0), ms(50));
    assert!(e.not_expired_at(t0));
}

#[test]
fn entry_with_zero_ttl_is_expired_at_once() {
    let t0 = Instant::now();
    let e = ExpiryValue::stamped(7u8, Duration::ZERO, t0);
    assert!(e.expired_at(t0));
    assert_eq!(e.remaining_at(t0), Duration::ZERO);
}

#[test]
fn key_is_contained_until_its_ttl_has_passed() {
    let t0 = Instant::now();
    let mut m = ExpiringMap::new();
    assert!(m.insert_at("v", "x", ms(50), t0).is_none());
    assert_eq!(m.get_at("v", t0), Some(&"x"));
    assert!(m.contains_key_at("v", t0));
    assert!(m.contains_key_at("v", t0 + ms(49)));
    assert!(!m.contains_key_at("v", t0 + ms(50)));
    assert!(!m.contains_key_at("v", t0 + ms(75)));
    assert_eq!(m.get_at("v", t0 + ms(75)), None);
    assert!(m.get_meta_at("v", t0 + ms(75)).is_none());
    assert_eq!(m.get_key_value_at("v", t0 + ms(75)), None);
    assert_eq!(m.len(), 1);
}

#[test]
fn reads_report_the_stored_entry() {
    let t0 = Instant::now();
    let mut m: ExpiringMap<String, u32> = ExpiringMap::new();
    m.insert_at(String::from("k"), 5, ms(50), t0);
    let meta = m.get_meta_at("k", t0 + ms(10)).unwrap();
    assert_eq!(meta.inserted(), t0);
    assert_eq!(meta.ttl(), ms(50));
    assert_eq!(meta.value, 5);
    assert_eq!(meta.remaining_at(t0 + ms(10)), ms(40));
    assert_eq!(m.get_key_value_at("k", t0 + ms(10)), Some((&String::from("k"), &5)));
    assert_eq!(m.get_at("other", t0), None);
    assert_eq!(m.get_key_value_at("other", t0), None);
    assert!(!m.contains_key_at("other", t0));
}

#[test]
fn insert_over_live_key_returns_previous_entry() {
    let t0 = Instant::now();
    let mut m = ExpiringMap::new();
    m.insert_at("v", "x", ms(50), t0);
    let prev = m.insert_at("v", "y", ms(50), t0 + ms(10)).unwrap();
    assert_eq!(prev.value, "x");
    assert_eq!(prev.inserted, t0);
    assert_eq!(prev.ttl, ms(50));
    assert_eq!(m.len(), 1);
    let meta = m.get_meta_at("v", t0 + ms(10)).unwrap();
    assert_eq!(meta.value, "y");
    assert_eq!(meta.inserted, t0 + ms(10));
}

#[test]
fn insert_over_expired_key_reports_no_previous_entry() {
    let t0 = Instant::now();
    let mut m = ExpiringMap::new();
    m.insert_at("v", "x", ms(50), t0);
    assert_eq!(m.insert_at("v", "y", ms(50), t0).map(|e| e.value), Some("x"));
    assert_eq!(m.len(), 1);
    assert!(m.insert_at("v", "z", ms(50), t0 + ms(75)).is_none());
    assert_eq!(m.get_at("v", t0 + ms(75)), Some(&"z"));
    assert_eq!(m.len(), 1);
}

#[test]
fn removing_twice_reports_false_the_second_time() {
    let t0 = Instant::now();
    let mut m = ExpiringMap::new();
    m.insert_at(1u64, "a", ms(50), t0);
    assert!(m.remove_at(&1, t0));
    assert_eq!(m.len(), 0);
    assert!(!m.remove_at(&1, t0));
    assert!(!m.remove_at(&2, t0));
}

#[test]
fn removing_an_expired_entry_reports_false_and_evicts_it() {
    let t0 = Instant::now();
    let mut m = ExpiringMap::new();
    m.insert_at(1u64, "a", ms(50), t0);
    m.insert_at(2u64, "b", ms(50), t0);
    assert!(!m.remove_at(&1, t0 + ms(50)));
    assert_eq!(m.len(), 1);
    assert_eq!(m.remove_entry_at(&2, t0 + ms(50)), None);
    assert_eq!(m.len(), 0);
}

#[test]
fn remove_entry_returns_key_and_value() {
    let t0 = Instant::now();
    let mut m: ExpiringMap<String, u32> = ExpiringMap::new();
    m.insert_at(String::from("a"), 1, ms(50), t0);
    m.insert_at(String::from("b"), 2, ms(50), t0);
    assert_eq!(m.remove_entry_at("a", t0 + ms(10)), Some((String::from("a"), 1)));
    assert_eq!(m.remove_entry_at("a", t0 + ms(10)), None);
    assert_eq!(m.len(), 1);
    assert_eq!(m.get_at("b", t0 + ms(10)), Some(&2));
}

#[test]
fn get_mut_changes_the_value_and_keeps_the_clock() {
    let t0 = Instant::now();
    let mut m = ExpiringMap::new();
    m.insert_at("v", 1u32, ms(50), t0);
    m.insert_at("w", 10u32, ms(50), t0);
    *m.get_mut_at("v", t0 + ms(40)).unwrap() = 2;
    let meta = m.get_meta_at("v", t0 + ms(40)).unwrap();
    assert_eq!(meta.value, 2);
    assert_eq!(meta.inserted, t0);
    assert_eq!(meta.ttl, ms(50));
    assert_eq!(m.get_at("w", t0 + ms(40)), Some(&10));
    assert!(m.get_mut_at("v", t0 + ms(50)).is_none());
    assert!(m.get_mut_at("x", t0).is_none());
    assert_eq!(m.len(), 2);
}

#[test]
fn reads_do_not_evict() {
    let t0 = Instant::now();
    let mut m = ExpiringMap::new();
    m.insert_at("v", 1u32, ms(50), t0);
    let late = t0 + ms(75);
    assert_eq!(m.get_at("v", late), None);
    assert!(m.get_mut_at("v", late).is_none());
    assert!(!m.contains_key_at("v", late));
    assert_eq!(m.len(), 1);
    assert_eq!(m.get_at("v", t0), Some(&1));
}

#[test]
fn vacuum_keeps_exactly_the_live_keys() {
    let t0 = Instant::now();
    let mut m = ExpiringMap::new();
    for k in 0..10u32 {
        m.insert_at(k, k * 2, ms(10 * (u64::from(k) + 1)), t0);
    }
    assert_eq!(m.len(), 10);
    m.vacuum_at(t0 + ms(40));
    assert_eq!(m.len(), 6);
    assert_eq!(m.last_size(), 8);
    for k in 0..4u32 {
        assert_eq!(m.get_at(&k, t0), None);
    }
    for k in 4..10u32 {
        assert_eq!(m.get_at(&k, t0 + ms(40)), Some(&(k * 2)));
    }
    m.vacuum_at(t0 + ms(40));
    assert_eq!(m.len(), 6);
    m.vacuum_at(t0 + ms(1000));
    assert!(m.is_empty());
    assert_eq!(m.last_size(), 8);
}

#[test]
fn vacuum_sets_watermark_to_length_above_the_floor() {
    let t0 = Instant::now();
    let mut m = ExpiringMap::new();
    for k in 0..12u32 {
        m.insert_at(k, (), ms(if k < 3 { 10 } else { 100 }), t0);
    }
    assert_eq!(m.last_size(), 8);
    m.vacuum_at(t0 + ms(50));
    assert_eq!(m.len(), 9);
    assert_eq!(m.last_size(), 9);
    m.vacuum_at(t0 + ms(50));
    assert_eq!(m.last_size(), 9);
}

#[test]
fn vacuum_if_needed_waits_for_half_as_much_again() {
    let t0 = Instant::now();
    let mut m = ExpiringMap::new();
    for k in 0..12u32 {
        m.insert_at(k, (), ms(10), t0);
    }
    let late = t0 + ms(20);
    m.vacuum_if_needed_at(late);
    assert_eq!(m.len(), 12);
    m.insert_at(12, (), ms(10), late);
    assert_eq!(m.len(), 13);
    assert_eq!(m.last_size(), 8);
    m.vacuum_if_needed_at(late);
    assert_eq!(m.len(), 1);
    assert_eq!(m.last_size(), 8);
    assert!(m.contains_key_at(&12, late));
}

#[test]
fn insert_sweeps_once_the_table_has_outgrown_its_watermark() {
    let t0 = Instant::now();
    let mut m = ExpiringMap::new();
    for k in 0..13u32 {
        m.insert_at(k, (), ms(if k < 10 { 10 } else { 100 }), t0);
    }
    assert_eq!(m.len(), 13);
    m.insert_at(100, (), ms(10), t0 + ms(20));
    assert_eq!(m.len(), 4);
    assert_eq!(m.last_size(), 8);
    for k in 10..13u32 {
        assert!(m.contains_key_at(&k, t0 + ms(20)));
    }
}

#[test]
fn watermark_follows_a_large_live_set() {
    let t0 = Instant::now();
    let mut m = ExpiringMap::new();
    for k in 0..14u32 {
        m.insert_at(k, (), ms(100), t0);
    }
    assert_eq!(m.len(), 14);
    assert_eq!(m.last_size(), 13);
    for k in 14..20u32 {
        m.insert_at(k, (), ms(100), t0);
    }
    assert_eq!(m.len(), 20);
    assert_eq!(m.last_size(), 13);
    m.insert_at(20, (), ms(100), t0 + ms(200));
    assert_eq!(m.len(), 1);
    assert_eq!(m.last_size(), 8);
}

#[test]
fn shrinking_sweeps_first() {
    let t0 = Instant::now();
    let mut m = ExpiringMap::with_capacity(256);
    for k in 0..10u32 {
        m.insert_at(k, (), ms(if k < 9 { 10 } else { 100 }), t0);
    }
    m.shrink_to_at(16, t0 + ms(20));
    assert_eq!(m.len(), 1);
    assert!(m.capacity() >= 16);
    assert!(m.capacity() < 256);
    m.insert_at(11, (), ms(10), t0);
    m.shrink_to_fit_at(t0 + ms(20));
    assert_eq!(m.len(), 1);
    assert!(m.capacity() < 16);
    assert!(m.contains_key_at(&9, t0 + ms(20)));
}

#[test]
fn set_members_expire() {
    let t0 = Instant::now();
    let mut s = ExpiringSet::new();
    assert!(!s.insert_at("v", ms(50), t0));
    assert!(s.insert_at("v", ms(50), t0 + ms(10)));
    assert!(s.contains_at("v", t0 + ms(59)));
    assert!(!s.contains_at("v", t0 + ms(60)));
    assert!(!s.insert_at("v", ms(50), t0 + ms(60)));
    assert!(s.contains_key_at("v", t0 + ms(60)));
    s.vacuum_at(t0 + ms(200));
    assert!(s.is_empty());
}

#[test]
fn set_take_returns_the_stored_key() {
    let t0 = Instant::now();
    let mut s: ExpiringSet<String> = ExpiringSet::new();
    s.insert_at(String::from("a"), ms(50), t0);
    s.insert_at(String::from("b"), ms(50), t0);
    assert_eq!(s.take_at("a", t0 + ms(10)), Some(String::from("a")));
    assert_eq!(s.take_at("a", t0 + ms(10)), None);
    assert_eq!(s.take_at("b", t0 + ms(50)), None);
    assert!(s.is_empty());
}

#[test]
fn set_shrinking_sweeps_first() {
    let t0 = Instant::now();
    let mut s = ExpiringSet::with_capacity(128);
    s.insert_at(1u8, ms(10), t0);
    s.insert_at(2u8, ms(100), t0);
    s.shrink_to_at(8, t0 + ms(20));
    assert_eq!(s.len(), 1);
    assert!(s.capacity() < 128);
    s.insert_at(3u8, ms(10), t0);
    s.shrink_to_fit_at(t0 + ms(20));
    assert_eq!(s.len(), 1);
    assert!(s.contains_at(&2, t0 + ms(20)));
}

#[test]
fn key_value_returns_the_key_looked_up_among_equal_entries() {
    let t0 = Instant::now();
    let mut m = ExpiringMap::new();
    m.insert_at(1u64, 7u32, ms(50), t0);
    m.insert_at(2u64, 7u32, ms(50), t0);
    assert_eq!(m.get_key_value_at(&1, t0), Some((&1, &7)));
    assert_eq!(m.get_key_value_at(&2, t0), Some((&2, &7)));
    let mut s: ExpiringMap<String, ()> = ExpiringMap::new();
    s.insert_at(String::from("a"), (), ms(50), t0);
    s.insert_at(String::from("b"), (), ms(50), t0);
    assert_eq!(s.get_key_value_at("b", t0), Some((&String::from("b"), &())));
}

#[test]
fn get_mut_writes_under_the_key_looked_up_among_equal_entries() {
    let t0 = Instant::now();
    let mut m = ExpiringMap::new();
    m.insert_at(1u64, 7u32, ms(50), t0);
    m.insert_at(2u64, 7u32, ms(50), t0);
    *m.get_mut_at(&2, t0).unwrap() = 9;
    assert_eq!(m.get_at(&2, t0), Some(&9));
    assert_eq!(m.get_at(&1, t0), Some(&7));
    assert_eq!(m.len(), 2);
    assert_eq!(m.last_size(), 8);
}

#[test]
fn boxed_key_is_found_by_its_content() {
    let t0 = Instant::now();
    let mut m: ExpiringMap<Box<u64>, u32> = ExpiringMap::new();
    m.insert_at(Box::new(5), 1, ms(50), t0);
    assert_eq!(m.get_at(&5u64, t0), Some(&1));
    assert_eq!(m.get_at(&Box::new(5u64), t0), Some(&1));
    assert_eq!(m.get_at(&6u64, t0), m.get_at(&Box::new(6u64), t0));
    assert_eq!(m.get_at(&5u64, t0 + ms(50)), m.get_at(&Box::new(5u64), t0 + ms(50)));
}
