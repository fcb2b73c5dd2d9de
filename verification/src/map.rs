//! The expiring map.

use vstd::prelude::*;
use vstd::std_specs::hash::{borrowed_key_removed, obeys_key_model};
use std::borrow::Borrow;
use std::collections::HashMap;
use std::hash::Hash;
use std::time::{Duration, Instant};
use crate::entry::ExpiryValue;
use crate::store::{
    capacity_of, denotes, find_mut, find_pair, finds_live, finds_none_live, live_part, release_spare,
    release_spare_to, retain_live, take_pair,
};

verus! {

broadcast use vstd::std_specs::hash::group_hash_axioms;

/// The least value the watermark ever takes, so that a small table is not
/// swept on every insertion.
pub const MINIMUM_VACUUM_SIZE: usize = 8;

/// The watermark that a sweep leaving `len` entries sets: `len`, or the floor
/// where that is larger.
pub open spec fn floored(len: nat) -> nat {
    if len > MINIMUM_VACUUM_SIZE {
        len
    } else {
        MINIMUM_VACUUM_SIZE as nat
    }
}

/// A hash map in which every entry lives for a time of its own.
#[derive(Debug)]
pub struct ExpiringMap<K, V> {
    last_size: usize,
    inner: HashMap<K, ExpiryValue<V>>,
}

impl<K, V> View for ExpiringMap<K, V> {
    type V = Map<K, ExpiryValue<V>>;

    /// Everything the table physically holds, expired entries included.
    closed spec fn view(&self) -> Map<K, ExpiryValue<V>> {
        self.inner@
    }
}

impl<K, V> ExpiringMap<K, V> {
    /// The watermark: the table's size after the latest sweep, or the floor
    /// where that is larger.
    pub closed spec fn watermark(&self) -> usize {
        self.last_size
    }

    /// The invariant of the container: the watermark never lies below the
    /// floor.
    pub open spec fn wf(&self) -> bool {
        self.watermark() >= MINIMUM_VACUUM_SIZE
    }

    /// Whether the table has outgrown its watermark by more than half.
    pub open spec fn vacuum_due(&self) -> bool {
        self@.len() > (self.watermark() * 3) / 2
    }

    /// What the table holds once it has been swept at `now` if that was due.
    pub open spec fn tidied(&self, now: Instant) -> Map<K, ExpiryValue<V>> {
        if self.vacuum_due() {
            live_part(self@, now)
        } else {
            self@
        }
    }

    /// The watermark once the table has been swept at `now` if that was due.
    pub open spec fn tidied_watermark(&self, now: Instant) -> nat {
        if self.vacuum_due() {
            floored(live_part(self@, now).len())
        } else {
            self.watermark() as nat
        }
    }

    /// The entry that `m` holds under `key`, if it is live at `now`.
    pub open spec fn live_under(m: Map<K, ExpiryValue<V>>, key: K, now: Instant) -> Option<
        ExpiryValue<V>,
    > {
        if m.contains_key(key) && m[key].live_at(now) {
            Some(m[key])
        } else {
            None
        }
    }

    /// The table never holds more than finitely many entries.
    pub proof fn lemma_view_finite(self)
        ensures
            self@.dom().finite(),
    {
    }

}

impl<K: PartialEq + Eq + Hash, V> ExpiringMap<K, V> {
    /// Creates an empty map.
    pub fn new() -> (m: Self)
        ensures
            m@ == Map::<K, ExpiryValue<V>>::empty(),
            m.watermark() == MINIMUM_VACUUM_SIZE,
            m.wf(),
    {
        Self::with_capacity(0)
    }

    /// Creates an empty map with room for `capacity` entries.
    pub fn with_capacity(capacity: usize) -> (m: Self)
        ensures
            m@ == Map::<K, ExpiryValue<V>>::empty(),
            m.watermark() == MINIMUM_VACUUM_SIZE,
            m.wf(),
    {
        ExpiringMap { inner: HashMap::with_capacity(capacity), last_size: MINIMUM_VACUUM_SIZE }
    }

    /// The watermark set by the latest sweep.
    pub fn last_size(&self) -> (n: usize)
        ensures
            n == self.watermark(),
    {
        self.last_size
    }

    /// The number of entries the table physically holds, expired ones
    /// included.
    pub fn len(&self) -> (n: usize)
        ensures
            obeys_key_model::<K>() ==> n == self@.len(),
    {
        self.inner.len()
    }

    /// Whether the table physically holds no entry at all.
    pub fn is_empty(&self) -> (b: bool)
        ensures
            obeys_key_model::<K>() ==> b == (self@.len() == 0),
    {
        self.inner.len() == 0
    }

    /// The number of entries the table can hold without reallocating.
    pub fn capacity(&self) -> (c: usize)
        ensures
            obeys_key_model::<K>() ==> c >= self@.len(),
    {
        capacity_of(&self.inner)
    }

    /// Makes room for at least `additional` more entries.
    pub fn reserve(&mut self, additional: usize)
        ensures
            final(self)@ == old(self)@,
            final(self).watermark() == old(self).watermark(),
    {
        self.inner.reserve(additional);
    }

    /// Sweeps the table at `now`: every entry that has expired by then is
    /// dropped, every other entry stays as it is, and the watermark becomes
    /// the size that is left, or the floor where that is larger.
    pub fn vacuum_at(&mut self, now: Instant)
        ensures
            final(self)@ == live_part(old(self)@, now),
            final(self).wf(),
            obeys_key_model::<K>() ==> final(self).watermark() == floored(final(self)@.len()),
    {
        retain_live(&mut self.inner, now);
        if self.inner.len() > MINIMUM_VACUUM_SIZE {
            self.last_size = self.inner.len();
        } else {
            self.last_size = MINIMUM_VACUUM_SIZE;
        }
    }

    /// Sweeps at `now` if the table has outgrown its watermark by more than
    /// half, and does nothing otherwise.
    pub fn vacuum_if_needed_at(&mut self, now: Instant)
        requires
            old(self).wf(),
        ensures
            final(self).wf(),
            obeys_key_model::<K>() ==> final(self)@ == old(self).tidied(now),
            obeys_key_model::<K>() ==> final(self).watermark() == old(self).tidied_watermark(now),
    {
        let len = self.inner.len();
        let mark = self.last_size;
        // `len > (mark * 3) / 2`, computed without leaving `usize`
        if len > mark && len - mark > mark / 2 {
            self.vacuum_at(now);
        }
    }

    /// The entry under `key`, with its timing data, if there is one and it is
    /// live at `now`. An expired entry is not reported and not evicted.
    pub fn get_meta_at<Q>(&self, key: &Q, now: Instant) -> (r: Option<&ExpiryValue<V>>)
        where
            K: Borrow<Q>,
            Q: ?Sized + Hash + Eq,
        ensures
            obeys_key_model::<K>() ==> match r {
                Some(e) => finds_live(self@, key, now, *e),
                None => finds_none_live(self@, key, now),
            },
    {
        match self.inner.get(key) {
            Some(e) => if e.not_expired_at(now) {
                Some(e)
            } else {
                None
            },
            None => None,
        }
    }

    /// The value under `key`, if there is one and it is live at `now`.
    pub fn get_at<Q>(&self, key: &Q, now: Instant) -> (r: Option<&V>)
        where
            K: Borrow<Q>,
            Q: ?Sized + Hash + Eq,
        ensures
            obeys_key_model::<K>() ==> match r {
                Some(v) => exists|e: ExpiryValue<V>| #[trigger]
                    finds_live(self@, key, now, e) && e.value == *v,
                None => finds_none_live(self@, key, now),
            },
    {
        match self.get_meta_at(key, now) {
            Some(e) => Some(&e.value),
            None => None,
        }
    }

    /// The stored key that `key` denotes and the value under it, if there is
    /// such an entry and it is live at `now`.
    pub fn get_key_value_at<Q>(&self, key: &Q, now: Instant) -> (r: Option<(&K, &V)>)
        where
            K: Borrow<Q>,
            Q: ?Sized + Hash + Eq,
        ensures
            obeys_key_model::<K>() ==> match r {
                Some((k, v)) => denotes(self@, key, *k) && self@[*k].value == *v && finds_live(
                    self@,
                    key,
                    now,
                    self@[*k],
                ),
                None => finds_none_live(self@, key, now),
            },
    {
        match find_pair(&self.inner, key) {
            Some((k, e)) => if e.not_expired_at(now) {
                Some((k, &e.value))
            } else {
                None
            },
            None => None,
        }
    }

    /// Whether there is an entry under `key` that is live at `now`.
    pub fn contains_key_at<Q>(&self, key: &Q, now: Instant) -> (b: bool)
        where
            K: Borrow<Q>,
            Q: ?Sized + Hash + Eq,
        ensures
            obeys_key_model::<K>() ==> if b {
                exists|e: ExpiryValue<V>| #[trigger] finds_live(self@, key, now, e)
            } else {
                finds_none_live(self@, key, now)
            },
    {
        self.get_meta_at(key, now).is_some()
    }

    /// Lends out the value under `key` for changing in place, if there is such
    /// an entry and it is live at `now`. The write lands under the stored key
    /// that `key` denotes; the entry keeps its insertion time and its
    /// time-to-live, and nothing else in the table changes.
    pub fn get_mut_at<Q>(&mut self, key: &Q, now: Instant) -> (r: Option<&mut V>)
        where
            K: Borrow<Q>,
            Q: ?Sized + Hash + Eq,
        ensures
            final(self).watermark() == old(self).watermark(),
            obeys_key_model::<K>() ==> match r {
                Some(_) => exists|k: K|
                    #[trigger] denotes(old(self)@, key, k) && old(self)@[k].value == *r.unwrap()
                        && finds_live(old(self)@, key, now, old(self)@[k])
                        && final(self)@ == old(self)@.insert(
                        k,
                        (ExpiryValue {
                            inserted: old(self)@[k].inserted,
                            ttl: old(self)@[k].ttl,
                            value: *final(r.unwrap()),
                        }),
                    ),
                None => finds_none_live(old(self)@, key, now) && final(self)@ == old(self)@,
            },
    {
        let ghost before = self@;
        match find_mut(&mut self.inner, key) {
            Some(e) => if e.not_expired_at(now) {
                assert(obeys_key_model::<K>() ==> finds_live(before, key, now, *e));
                Some(&mut e.value)
            } else {
                None
            },
            None => None,
        }
    }

    /// Stores `value` under `key`, stamped with `now` and living for `ttl`.
    ///
    /// The table is first swept if that is due. Whatever entry was under
    /// `key` is overwritten; it is returned only if it was still live at
    /// `now`.
    pub fn insert_at(&mut self, key: K, value: V, ttl: Duration, now: Instant) -> (r: Option<
        ExpiryValue<V>,
    >)
        requires
            old(self).wf(),
        ensures
            final(self).wf(),
            obeys_key_model::<K>() ==> final(self)@ == old(self).tidied(now).insert(
                key,
                (ExpiryValue { inserted: now, ttl, value }),
            ),
            obeys_key_model::<K>() ==> final(self).watermark() == old(self).tidied_watermark(now),
            obeys_key_model::<K>() ==> r == Self::live_under(old(self)@, key, now),
    {
        self.vacuum_if_needed_at(now);
        let entry = ExpiryValue::stamped(value, ttl, now);
        match self.inner.insert(key, entry) {
            Some(prev) => if prev.not_expired_at(now) {
                Some(prev)
            } else {
                None
            },
            None => None,
        }
    }

    /// Takes the entry under `key` out of the table, and says whether it was
    /// live at `now`.
    pub fn remove_at<Q>(&mut self, key: &Q, now: Instant) -> (b: bool)
        where
            K: Borrow<Q>,
            Q: ?Sized + Hash + Eq,
        ensures
            final(self).watermark() == old(self).watermark(),
            obeys_key_model::<K>() ==> borrowed_key_removed(old(self)@, final(self)@, key),
            obeys_key_model::<K>() ==> if b {
                exists|e: ExpiryValue<V>| #[trigger] finds_live(old(self)@, key, now, e)
            } else {
                finds_none_live(old(self)@, key, now)
            },
    {
        match self.inner.remove(key) {
            Some(e) => {
                let live = e.not_expired_at(now);
                assert(obeys_key_model::<K>() && live ==> finds_live(old(self)@, key, now, e));
                live
            },
            None => false,
        }
    }

    /// Takes the entry under `key` out of the table, and returns the stored
    /// key and the value if the entry was live at `now`.
    pub fn remove_entry_at<Q>(&mut self, key: &Q, now: Instant) -> (r: Option<(K, V)>)
        where
            K: Borrow<Q>,
            Q: ?Sized + Hash + Eq,
        ensures
            final(self).watermark() == old(self).watermark(),
            obeys_key_model::<K>() ==> borrowed_key_removed(old(self)@, final(self)@, key),
            obeys_key_model::<K>() ==> match r {
                Some((k, v)) => old(self)@.contains_key(k) && old(self)@[k].value == v
                    && finds_live(old(self)@, key, now, old(self)@[k]) && final(self)@ == old(self)@.remove(k),
                None => finds_none_live(old(self)@, key, now),
            },
    {
        match take_pair(&mut self.inner, key) {
            Some((k, e)) => if e.not_expired_at(now) {
                Some((k, e.value()))
            } else {
                None
            },
            None => None,
        }
    }

    /// Sweeps the table at `now`, then gives back the capacity that the live
    /// entries do not need.
    pub fn shrink_to_fit_at(&mut self, now: Instant)
        ensures
            final(self).wf(),
            final(self)@ == live_part(old(self)@, now),
            obeys_key_model::<K>() ==> final(self).watermark() == floored(final(self)@.len()),
    {
        self.vacuum_at(now);
        release_spare(&mut self.inner);
    }

    /// Sweeps the table at `now`, then lowers the capacity towards
    /// `min_capacity`, never below what the live entries need.
    pub fn shrink_to_at(&mut self, min_capacity: usize, now: Instant)
        ensures
            final(self).wf(),
            final(self)@ == live_part(old(self)@, now),
            obeys_key_model::<K>() ==> final(self).watermark() == floored(final(self)@.len()),
    {
        self.vacuum_at(now);
        release_spare_to(&mut self.inner, min_capacity);
    }

    /// Sweeps the table by the clock's present reading.
    pub fn vacuum(&mut self)
        ensures
            final(self).wf(),
            exists|now: Instant| final(self)@ == #[trigger] live_part(old(self)@, now),
            obeys_key_model::<K>() ==> final(self).watermark() == floored(final(self)@.len()),
    {
        let now = Instant::now();
        self.vacuum_at(now);
    }

    /// Sweeps by the clock's present reading if the table has outgrown its
    /// watermark by more than half.
    pub fn vacuum_if_needed(&mut self)
        requires
            old(self).wf(),
        ensures
            final(self).wf(),
            obeys_key_model::<K>() ==> exists|now: Instant|
                final(self)@ == #[trigger] old(self).tidied(now) && final(self).watermark() == old(self).tidied_watermark(now),
    {
        let now = Instant::now();
        self.vacuum_if_needed_at(now);
    }

    /// The entry under `key`, with its timing data, if there is one and it is
    /// live by the clock's present reading.
    pub fn get_meta<Q>(&self, key: &Q) -> (r: Option<&ExpiryValue<V>>)
        where
            K: Borrow<Q>,
            Q: ?Sized + Hash + Eq,
        ensures
            obeys_key_model::<K>() ==> match r {
                Some(e) => exists|now: Instant| #[trigger] finds_live(self@, key, now, *e),
                None => exists|now: Instant| #[trigger] finds_none_live(self@, key, now),
            },
    {
        let now = Instant::now();
        self.get_meta_at(key, now)
    }

    /// The value under `key`, if there is one and it is live by the clock's
    /// present reading.
    pub fn get<Q>(&self, key: &Q) -> (r: Option<&V>)
        where
            K: Borrow<Q>,
            Q: ?Sized + Hash + Eq,
        ensures
            obeys_key_model::<K>() ==> match r {
                Some(v) => exists|now: Instant, e: ExpiryValue<V>| #[trigger]
                    finds_live(self@, key, now, e) && e.value == *v,
                None => exists|now: Instant| #[trigger] finds_none_live(self@, key, now),
            },
    {
        let now = Instant::now();
        self.get_at(key, now)
    }

    /// The stored key that `key` denotes and the value under it, if there is
    /// such an entry and it is live by the clock's present reading.
    pub fn get_key_value<Q>(&self, key: &Q) -> (r: Option<(&K, &V)>)
        where
            K: Borrow<Q>,
            Q: ?Sized + Hash + Eq,
        ensures
            obeys_key_model::<K>() ==> match r {
                Some((k, v)) => denotes(self@, key, *k) && self@[*k].value == *v && exists|
                    now: Instant,
                | #[trigger] finds_live(self@, key, now, self@[*k]),
                None => exists|now: Instant| #[trigger] finds_none_live(self@, key, now),
            },
    {
        let now = Instant::now();
        self.get_key_value_at(key, now)
    }

    /// Lends out the value under `key` for changing in place, if there is such
    /// an entry and it is live by the clock's present reading. The write
    /// lands under the stored key that `key` denotes.
    pub fn get_mut<Q>(&mut self, key: &Q) -> (r: Option<&mut V>)
        where
            K: Borrow<Q>,
            Q: ?Sized + Hash + Eq,
        ensures
            final(self).watermark() == old(self).watermark(),
            obeys_key_model::<K>() ==> match r {
                Some(_) => exists|now: Instant, k: K|
                    #[trigger] denotes(old(self)@, key, k) && old(self)@[k].value == *r.unwrap()
                        && #[trigger] finds_live(old(self)@, key, now, old(self)@[k]) && final(self)@
                        == old(self)@.insert(
                        k,
                        (ExpiryValue {
                            inserted: old(self)@[k].inserted,
                            ttl: old(self)@[k].ttl,
                            value: *final(r.unwrap()),
                        }),
                    ),
                None => final(self)@ == old(self)@ && exists|now: Instant| #[trigger]
                    finds_none_live(old(self)@, key, now),
            },
    {
        let now = Instant::now();
        self.get_mut_at(key, now)
    }

    /// Stores `value` under `key`, stamped with the clock's present reading
    /// and living for `ttl`. Returns the entry that was under `key` if it was
    /// still live.
    pub fn insert(&mut self, key: K, value: V, ttl: Duration) -> (r: Option<ExpiryValue<V>>)
        requires
            old(self).wf(),
        ensures
            final(self).wf(),
            obeys_key_model::<K>() ==> exists|now: Instant|
                final(self)@ == #[trigger] old(self).tidied(now).insert(
                    key,
                    (ExpiryValue { inserted: now, ttl, value }),
                ) && final(self).watermark() == old(self).tidied_watermark(now) && r
                    == Self::live_under(old(self)@, key, now),
    {
        let now = Instant::now();
        self.insert_at(key, value, ttl, now)
    }

    /// Whether there is an entry under `key` that is live by the clock's
    /// present reading.
    pub fn contains_key<Q>(&self, key: &Q) -> (b: bool)
        where
            K: Borrow<Q>,
            Q: ?Sized + Hash + Eq,
        ensures
            obeys_key_model::<K>() ==> if b {
                exists|now: Instant, e: ExpiryValue<V>| #[trigger] finds_live(self@, key, now, e)
            } else {
                exists|now: Instant| #[trigger] finds_none_live(self@, key, now)
            },
    {
        let now = Instant::now();
        self.contains_key_at(key, now)
    }

    /// Takes the entry under `key` out of the table, and says whether it was
    /// live by the clock's present reading.
    pub fn remove<Q>(&mut self, key: &Q) -> (b: bool)
        where
            K: Borrow<Q>,
            Q: ?Sized + Hash + Eq,
        ensures
            final(self).watermark() == old(self).watermark(),
            obeys_key_model::<K>() ==> borrowed_key_removed(old(self)@, final(self)@, key),
            obeys_key_model::<K>() ==> if b {
                exists|now: Instant, e: ExpiryValue<V>| #[trigger]
                    finds_live(old(self)@, key, now, e)
            } else {
                exists|now: Instant| #[trigger] finds_none_live(old(self)@, key, now)
            },
    {
        let now = Instant::now();
        self.remove_at(key, now)
    }

    /// Takes the entry under `key` out of the table, and returns the stored
    /// key and the value if the entry was live by the clock's present
    /// reading.
    pub fn remove_entry<Q>(&mut self, key: &Q) -> (r: Option<(K, V)>)
        where
            K: Borrow<Q>,
            Q: ?Sized + Hash + Eq,
        ensures
            final(self).watermark() == old(self).watermark(),
            obeys_key_model::<K>() ==> borrowed_key_removed(old(self)@, final(self)@, key),
            obeys_key_model::<K>() ==> match r {
                Some((k, v)) => old(self)@.contains_key(k) && old(self)@[k].value == v
                    && final(self)@ == old(self)@.remove(k) && exists|now: Instant| #[trigger]
                    finds_live(old(self)@, key, now, old(self)@[k]),
                None => exists|now: Instant| #[trigger] finds_none_live(old(self)@, key, now),
            },
    {
        let now = Instant::now();
        self.remove_entry_at(key, now)
    }

    /// Sweeps the table by the clock's present reading, then gives back the
    /// capacity that the live entries do not need.
    pub fn shrink_to_fit(&mut self)
        ensures
            final(self).wf(),
            exists|now: Instant| final(self)@ == #[trigger] live_part(old(self)@, now),
            obeys_key_model::<K>() ==> final(self).watermark() == floored(final(self)@.len()),
    {
        let now = Instant::now();
        self.shrink_to_fit_at(now);
    }

    /// Sweeps the table by the clock's present reading, then lowers the
    /// capacity towards `min_capacity`.
    pub fn shrink_to(&mut self, min_capacity: usize)
        ensures
            final(self).wf(),
            exists|now: Instant| final(self)@ == #[trigger] live_part(old(self)@, now),
            obeys_key_model::<K>() ==> final(self).watermark() == floored(final(self)@.len()),
    {
        let now = Instant::now();
        self.shrink_to_at(min_capacity, now);
    }
}

impl<K: PartialEq + Eq + Hash, V> Default for ExpiringMap<K, V> {
    fn default() -> (m: Self)
        ensures
            m@ == Map::<K, ExpiryValue<V>>::empty(),
            m.watermark() == MINIMUM_VACUUM_SIZE,
    {
        Self::new()
    }
}

} // verus!
