//! The expiring set: the expiring map with nothing stored under its keys.

use vstd::prelude::*;
use vstd::std_specs::hash::{borrowed_key_removed, obeys_key_model};
use std::borrow::Borrow;
use std::hash::Hash;
use std::ops::{Deref, DerefMut};
use std::time::{Duration, Instant};
use crate::entry::ExpiryValue;
use crate::map::{floored, ExpiringMap, MINIMUM_VACUUM_SIZE};
use crate::store::{finds_live, finds_none_live, live_part};

verus! {

/// A set in which every member lives for a time of its own.
///
/// It is an [`ExpiringMap`] from the members to the unit value, and can be
/// used as one.
#[derive(Debug)]
pub struct ExpiringSet<K>(ExpiringMap<K, ()>);

impl<K> ExpiringSet<K> {
    /// The map that holds the members.
    pub closed spec fn as_map(&self) -> ExpiringMap<K, ()> {
        self.0
    }

    /// The invariant of the container: that of the map underneath.
    pub open spec fn wf(&self) -> bool {
        self.as_map().wf()
    }
}

impl<K> View for ExpiringSet<K> {
    type V = Map<K, ExpiryValue<()>>;

    /// Every member the table physically holds, expired ones included, with
    /// its timing data.
    open spec fn view(&self) -> Map<K, ExpiryValue<()>> {
        self.as_map()@
    }
}

impl<K> Deref for ExpiringSet<K> {
    type Target = ExpiringMap<K, ()>;

    fn deref(&self) -> (m: &ExpiringMap<K, ()>)
        ensures
            *m == self.as_map(),
    {
        &self.0
    }
}

impl<K> DerefMut for ExpiringSet<K> {
    fn deref_mut(&mut self) -> (m: &mut ExpiringMap<K, ()>)
        ensures
            *m == old(self).as_map(),
            final(self).as_map() == *final(m),
    {
        &mut self.0
    }
}

impl<K: PartialEq + Eq + Hash> ExpiringSet<K> {
    /// Creates an empty set.
    pub fn new() -> (s: Self)
        ensures
            s@ == Map::<K, ExpiryValue<()>>::empty(),
            s.as_map().watermark() == MINIMUM_VACUUM_SIZE,
            s.wf(),
    {
        Self::with_capacity(0)
    }

    /// Creates an empty set with room for `capacity` members.
    pub fn with_capacity(capacity: usize) -> (s: Self)
        ensures
            s@ == Map::<K, ExpiryValue<()>>::empty(),
            s.as_map().watermark() == MINIMUM_VACUUM_SIZE,
            s.wf(),
    {
        ExpiringSet(ExpiringMap::with_capacity(capacity))
    }

    /// Puts `key` into the set, stamped with `now` and living for `ttl`, and
    /// says whether it was a live member already. The table is first swept
    /// if that is due.
    pub fn insert_at(&mut self, key: K, ttl: Duration, now: Instant) -> (b: bool)
        requires
            old(self).wf(),
        ensures
            final(self).wf(),
            obeys_key_model::<K>() ==> final(self)@ == old(self).as_map().tidied(now).insert(
                key,
                (ExpiryValue { inserted: now, ttl, value: () }),
            ),
            obeys_key_model::<K>() ==> final(self).as_map().watermark() == old(self).as_map().tidied_watermark(now),
            obeys_key_model::<K>() ==> b == (old(self)@.contains_key(key) && old(self)@[key].live_at(
                now,
            )),
    {
        self.0.insert_at(key, (), ttl, now).is_some()
    }

    /// Whether `key` is a member that is live at `now`.
    pub fn contains_at<Q>(&self, key: &Q, now: Instant) -> (b: bool)
        where
            K: Borrow<Q>,
            Q: ?Sized + Hash + Eq,
        ensures
            obeys_key_model::<K>() ==> if b {
                exists|e: ExpiryValue<()>| #[trigger] finds_live(self@, key, now, e)
            } else {
                finds_none_live(self@, key, now)
            },
    {
        let b = self.0.contains_key_at(key, now);
        proof {
            if obeys_key_model::<K>() && b {
                let e = choose|e: ExpiryValue<()>| #[trigger] finds_live(self.0@, key, now, e);
                assert(finds_live(self@, key, now, e));
            }
        }
        b
    }

    /// Takes the member found under `key` out of the set, and returns the
    /// stored key if the member was live at `now`.
    pub fn take_at<Q>(&mut self, key: &Q, now: Instant) -> (r: Option<K>)
        where
            K: Borrow<Q>,
            Q: ?Sized + Hash + Eq,
        ensures
            final(self).as_map().watermark() == old(self).as_map().watermark(),
            obeys_key_model::<K>() ==> borrowed_key_removed(old(self)@, final(self)@, key),
            obeys_key_model::<K>() ==> match r {
                Some(k) => old(self)@.contains_key(k) && finds_live(
                    old(self)@,
                    key,
                    now,
                    old(self)@[k],
                ) && final(self)@ == old(self)@.remove(k),
                None => finds_none_live(old(self)@, key, now),
            },
    {
        match self.0.remove_entry_at(key, now) {
            Some((k, _)) => Some(k),
            None => None,
        }
    }

    /// Sweeps the set at `now`, then gives back the capacity that the live
    /// members do not need.
    pub fn shrink_to_fit_at(&mut self, now: Instant)
        ensures
            final(self).wf(),
            final(self)@ == live_part(old(self)@, now),
            obeys_key_model::<K>() ==> final(self).as_map().watermark() == floored(final(self)@.len()),
    {
        self.0.shrink_to_fit_at(now);
    }

    /// Sweeps the set at `now`, then lowers the capacity towards
    /// `min_capacity`.
    pub fn shrink_to_at(&mut self, min_capacity: usize, now: Instant)
        ensures
            final(self).wf(),
            final(self)@ == live_part(old(self)@, now),
            obeys_key_model::<K>() ==> final(self).as_map().watermark() == floored(final(self)@.len()),
    {
        self.0.shrink_to_at(min_capacity, now);
    }

    /// Puts `key` into the set, stamped with the clock's present reading and
    /// living for `ttl`, and says whether it was a live member already.
    pub fn insert(&mut self, key: K, ttl: Duration) -> (b: bool)
        requires
            old(self).wf(),
        ensures
            final(self).wf(),
            obeys_key_model::<K>() ==> exists|now: Instant|
                final(self)@ == #[trigger] old(self).as_map().tidied(now).insert(
                    key,
                    (ExpiryValue { inserted: now, ttl, value: () }),
                ) && final(self).as_map().watermark() == old(self).as_map().tidied_watermark(now)
                    && b == (old(self)@.contains_key(key) && old(self)@[key].live_at(now)),
    {
        let now = Instant::now();
        self.insert_at(key, ttl, now)
    }

    /// Whether `key` is a member that is live by the clock's present reading.
    pub fn contains<Q>(&self, key: &Q) -> (b: bool)
        where
            K: Borrow<Q>,
            Q: ?Sized + Hash + Eq,
        ensures
            obeys_key_model::<K>() ==> if b {
                exists|now: Instant, e: ExpiryValue<()>| #[trigger] finds_live(self@, key, now, e)
            } else {
                exists|now: Instant| #[trigger] finds_none_live(self@, key, now)
            },
    {
        let now = Instant::now();
        self.contains_at(key, now)
    }

    /// Takes the member found under `key` out of the set, and returns the
    /// stored key if the member was live by the clock's present reading.
    pub fn take<Q>(&mut self, key: &Q) -> (r: Option<K>)
        where
            K: Borrow<Q>,
            Q: ?Sized + Hash + Eq,
        ensures
            final(self).as_map().watermark() == old(self).as_map().watermark(),
            obeys_key_model::<K>() ==> borrowed_key_removed(old(self)@, final(self)@, key),
            obeys_key_model::<K>() ==> match r {
                Some(k) => old(self)@.contains_key(k) && final(self)@ == old(self)@.remove(k)
                    && exists|now: Instant| #[trigger]
                    finds_live(old(self)@, key, now, old(self)@[k]),
                None => exists|now: Instant| #[trigger] finds_none_live(old(self)@, key, now),
            },
    {
        let now = Instant::now();
        self.take_at(key, now)
    }

    /// Sweeps the set by the clock's present reading, then gives back the
    /// capacity that the live members do not need.
    pub fn shrink_to_fit(&mut self)
        ensures
            final(self).wf(),
            exists|now: Instant| final(self)@ == #[trigger] live_part(old(self)@, now),
            obeys_key_model::<K>() ==> final(self).as_map().watermark() == floored(final(self)@.len()),
    {
        let now = Instant::now();
        self.shrink_to_fit_at(now);
    }

    /// Sweeps the set by the clock's present reading, then lowers the
    /// capacity towards `min_capacity`.
    pub fn shrink_to(&mut self, min_capacity: usize)
        ensures
            final(self).wf(),
            exists|now: Instant| final(self)@ == #[trigger] live_part(old(self)@, now),
            obeys_key_model::<K>() ==> final(self).as_map().watermark() == floored(final(self)@.len()),
    {
        let now = Instant::now();
        self.shrink_to_at(min_capacity, now);
    }
}

impl<K: PartialEq + Eq + Hash> Default for ExpiringSet<K> {
    fn default() -> (s: Self)
        ensures
            s@ == Map::<K, ExpiryValue<()>>::empty(),
            s.as_map().watermark() == MINIMUM_VACUUM_SIZE,
    {
        Self::new()
    }
}

} // verus!
