//! A stored value together with the moment it was stored and how long it is
//! to live.

use vstd::prelude::*;
use std::ops::Deref;
use std::time::{Duration, Instant};
use crate::clock::{duration_nanos, nanos_between, nanos_left};

verus! {

/// A value, the instant at which it was inserted and its time-to-live.
///
/// An entry is never restamped: an update replaces the whole entry.
#[derive(Debug, Clone)]
pub struct ExpiryValue<T> {
    pub inserted: Instant,
    pub ttl: Duration,
    pub value: T,
}

impl<T> Deref for ExpiryValue<T> {
    type Target = T;

    /// An entry can be read as the value it holds.
    fn deref(&self) -> (v: &T)
        ensures
            *v == self.value,
    {
        &self.value
    }
}

impl<T> ExpiryValue<T> {
    /// Nanoseconds this entry has been stored for, as seen at `now`.
    pub open spec fn age_at(&self, now: Instant) -> nat {
        nanos_between(now, self.inserted)
    }

    /// Nanoseconds this entry still has to live at `now`.
    pub open spec fn left_at(&self, now: Instant) -> nat {
        nanos_left(duration_nanos(self.ttl), self.age_at(now))
    }

    /// Whether the entry is still visible at `now`: strictly less than its
    /// time-to-live has gone by.
    pub open spec fn live_at(&self, now: Instant) -> bool {
        self.age_at(now) < duration_nanos(self.ttl)
    }

    /// An entry for `value`, stamped with `now`.
    pub fn stamped(value: T, ttl: Duration, now: Instant) -> (e: Self)
        ensures
            e == (ExpiryValue { inserted: now, ttl, value }),
    {
        ExpiryValue { inserted: now, ttl, value }
    }

    /// When this value was inserted.
    pub fn inserted(&self) -> (t: Instant)
        ensures
            t == self.inserted,
    {
        self.inserted
    }

    /// How long this entry is to live, counted from its insertion.
    pub fn ttl(&self) -> (d: Duration)
        ensures
            d == self.ttl,
    {
        self.ttl
    }

    /// Takes the stored value out of the entry.
    pub fn value(self) -> (v: T)
        ensures
            v == self.value,
    {
        self.value
    }

    /// How long is left at `now` before this entry expires; zero once it has.
    pub fn remaining_at(&self, now: Instant) -> (d: Duration)
        ensures
            duration_nanos(d) == self.left_at(now),
    {
        self.ttl.saturating_sub(now.duration_since(self.inserted))
    }

    /// Whether the entry has expired at `now`.
    pub fn expired_at(&self, now: Instant) -> (b: bool)
        ensures
            b == !self.live_at(now),
    {
        self.remaining_at(now).as_nanos() == 0
    }

    /// Whether the entry is still live at `now`.
    pub fn not_expired_at(&self, now: Instant) -> (b: bool)
        ensures
            b == self.live_at(now),
    {
        !self.expired_at(now)
    }

    /// How long is left before this entry expires, by the clock's present
    /// reading.
    pub fn remaining(&self) -> (d: Duration)
        ensures
            exists|now: Instant| duration_nanos(d) == #[trigger] self.left_at(now),
    {
        let now = Instant::now();
        self.remaining_at(now)
    }

    /// Whether the entry has expired, by the clock's present reading.
    pub fn expired(&self) -> (b: bool)
        ensures
            exists|now: Instant| b == !#[trigger] self.live_at(now),
    {
        let now = Instant::now();
        self.expired_at(now)
    }

    /// Whether the entry is still live, by the clock's present reading.
    pub fn not_expired(&self) -> (b: bool)
        ensures
            exists|now: Instant| b == #[trigger] self.live_at(now),
    {
        let now = Instant::now();
        self.not_expired_at(now)
    }
}

} // verus!
