//! The backing hash table.
//!
//! The table is `std::collections::HashMap`, whose view is the mathematical
//! map from keys to entries. The operations below are the ones the container
//! needs beyond those that vstd already specifies.

use vstd::prelude::*;
use vstd::std_specs::hash::{
    borrowed_key_removed, contains_borrowed_key, maps_borrowed_key_to_value, obeys_key_model,
    spec_hash_map_len,
};
use std::borrow::Borrow;
use std::collections::HashMap;
use std::hash::Hash;
use std::time::Instant;
use crate::entry::ExpiryValue;

verus! {

/// The entries of `m` that are live at `now`, under their keys.
pub open spec fn live_part<K, V>(m: Map<K, ExpiryValue<V>>, now: Instant) -> Map<
    K,
    ExpiryValue<V>,
> {
    Map::new(|k: K| m.contains_key(k) && m[k].live_at(now), |k: K| m[k])
}

/// `key` denotes the stored key `k` of `m`: the table holds `k`, and taking
/// out what `key` finds is taking out `k`.
pub open spec fn denotes<K, T, Q: ?Sized>(m: Map<K, T>, key: &Q, k: K) -> bool {
    m.contains_key(k) && borrowed_key_removed(m, m.remove(k), key)
}

/// `key` finds the entry `e` in `m`, and `e` is live at `now`.
pub open spec fn finds_live<K, V, Q: ?Sized>(
    m: Map<K, ExpiryValue<V>>,
    key: &Q,
    now: Instant,
    e: ExpiryValue<V>,
) -> bool {
    maps_borrowed_key_to_value(m, key, e) && e.live_at(now)
}

/// `key` finds no entry in `m`, or one that has expired by `now`.
pub open spec fn finds_none_live<K, V, Q: ?Sized>(
    m: Map<K, ExpiryValue<V>>,
    key: &Q,
    now: Instant,
) -> bool {
    !contains_borrowed_key(m, key) || exists|e: ExpiryValue<V>|
        #[trigger] maps_borrowed_key_to_value(m, key, e) && !e.live_at(now)
}

/// `HashMap::capacity` returns how many elements the table can hold without
/// reallocating, which is never fewer than it holds.
#[verifier::external_body]
pub(crate) fn capacity_of<K, T>(store: &HashMap<K, T>) -> (c: usize)
    ensures
        c >= spec_hash_map_len(store),
{
    store.capacity()
}

/// `HashMap::shrink_to_fit` gives spare capacity back and leaves the contents
/// as they are.
#[verifier::external_body]
pub(crate) fn release_spare<K: Eq + Hash, T>(store: &mut HashMap<K, T>)
    ensures
        final(store)@ == old(store)@,
{
    store.shrink_to_fit();
}

/// `HashMap::shrink_to` lowers the capacity towards `min_capacity` and leaves
/// the contents as they are.
#[verifier::external_body]
pub(crate) fn release_spare_to<K: Eq + Hash, T>(store: &mut HashMap<K, T>, min_capacity: usize)
    ensures
        final(store)@ == old(store)@,
{
    store.shrink_to(min_capacity);
}

/// `HashMap::get_key_value` looks `key` up and returns the stored key that
/// `key` denotes, with the value held under it, which is the one `key` maps
/// to. It returns `None` where the table has no such key.
#[verifier::external_body]
pub(crate) fn find_pair<'a, K, T, Q>(store: &'a HashMap<K, T>, key: &Q) -> (r: Option<(&'a K, &'a T)>)
    where
        K: Borrow<Q> + Eq + Hash,
        Q: Hash + Eq + ?Sized,
    ensures
        obeys_key_model::<K>() ==> match r {
            Some((k, v)) => denotes(store@, key, *k) && store@[*k] == *v
                && maps_borrowed_key_to_value(store@, key, *v),
            None => !contains_borrowed_key(store@, key),
        },
{
    store.get_key_value(key)
}

/// `HashMap::get_mut` looks `key` up and lends out the value stored under
/// the stored key that `key` denotes. Whatever the borrower leaves there is
/// what the table then holds under that same key, and nothing else in the
/// table changes. Where the table has no such key it returns `None` and the
/// table stays as it is.
#[verifier::external_body]
pub(crate) fn find_mut<'a, K, T, Q>(store: &'a mut HashMap<K, T>, key: &Q) -> (r: Option<&'a mut T>)
    where
        K: Borrow<Q> + Eq + Hash,
        Q: Hash + Eq + ?Sized,
    ensures
        obeys_key_model::<K>() ==> match r {
            Some(_) => maps_borrowed_key_to_value(old(store)@, key, *r.unwrap()) && exists|k: K|
                #[trigger] denotes(old(store)@, key, k) && old(store)@[k] == *r.unwrap()
                    && final(store)@ == old(store)@.insert(k, *final(r.unwrap())),
            None => !contains_borrowed_key(old(store)@, key) && final(store)@ == old(store)@,
        },
{
    store.get_mut(key)
}

/// `HashMap::remove_entry` takes the pair found under `key` out of the table
/// and returns it. Where the table has no such key it returns `None` and the
/// table stays as it is.
#[verifier::external_body]
pub(crate) fn take_pair<K, T, Q>(store: &mut HashMap<K, T>, key: &Q) -> (r: Option<(K, T)>)
    where
        K: Borrow<Q> + Eq + Hash,
        Q: Hash + Eq + ?Sized,
    ensures
        obeys_key_model::<K>() ==> borrowed_key_removed(old(store)@, final(store)@, key),
        obeys_key_model::<K>() ==> match r {
            Some((k, v)) => old(store)@.contains_key(k) && old(store)@[k] == v
                && maps_borrowed_key_to_value(old(store)@, key, v) && final(store)@ == old(store)@.remove(k),
            None => !contains_borrowed_key(old(store)@, key) && final(store)@ == old(store)@,
        },
{
    store.remove_entry(key)
}

/// `HashMap::retain`, handed the liveness test at `now`: the table keeps, in
/// place and unchanged, exactly the entries that the test accepts.
#[verifier::external_body]
pub(crate) fn retain_live<K, V>(store: &mut HashMap<K, ExpiryValue<V>>, now: Instant)
    ensures
        final(store)@ == live_part(old(store)@, now),
{
    store.retain(|_, e| e.not_expired_at(now));
}

} // verus!
