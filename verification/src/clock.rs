//! The monotonic clock and the durations measured on it.
//!
//! `Instant` and `Duration` are opaque to the verifier. Two names give them
//! meaning: the length of a duration in nanoseconds, and the duration from
//! one instant to a later one. Everything else in the crate is stated over
//! those two.

use vstd::prelude::*;
use std::time::{Duration, Instant};

verus! {

/// `std::time::Instant`, carried through verified code as an opaque value.
#[verifier::external_type_specification]
#[verifier::external_body]
pub struct ExInstant(Instant);

/// The whole length of a duration in nanoseconds: what `Duration::as_nanos`
/// returns for it.
pub uninterp spec fn duration_nanos(d: Duration) -> nat;

/// The time from `earlier` to `later` on the monotonic clock: what
/// `Instant::duration_since` returns for the two.
pub uninterp spec fn time_between(later: Instant, earlier: Instant) -> Duration;

/// Nanoseconds from `earlier` to `later`; zero where `earlier` is the later
/// of the two.
pub open spec fn nanos_between(later: Instant, earlier: Instant) -> nat {
    duration_nanos(time_between(later, earlier))
}

/// What is left of `ttl` once `elapsed` has gone by, never below zero.
pub open spec fn nanos_left(ttl: nat, elapsed: nat) -> nat {
    if elapsed < ttl {
        (ttl - elapsed) as nat
    } else {
        0
    }
}

/// `Instant::now` reads the monotonic clock. Nothing is claimed of the
/// reading: every caller is verified for whatever instant comes back.
pub assume_specification[ Instant::now ]() -> (now: Instant)
;

/// `Instant::duration_since` returns the time elapsed from `earlier` to
/// `this`, saturating at zero. The contract only names that result.
pub assume_specification[ Instant::duration_since ](this: &Instant, earlier: Instant) -> (d: Duration)
    ensures
        d == time_between(*this, earlier),
;

/// `Duration::as_nanos` returns the total number of nanoseconds the duration
/// holds. The contract only names that result.
pub assume_specification[ Duration::as_nanos ](d: &Duration) -> (n: u128)
    ensures
        n == duration_nanos(*d),
;

/// `Duration::saturating_sub` computes `a - b`, and the zero duration where
/// `b` is the longer one.
pub assume_specification[ Duration::saturating_sub ](a: Duration, b: Duration) -> (r: Duration)
    ensures
        duration_nanos(r) == nanos_left(duration_nanos(a), duration_nanos(b)),
;

/// `Instant` is `Copy`: its `clone` returns the same instant.
pub assume_specification[ <Instant as Clone>::clone ](t: &Instant) -> (r: Instant)
    ensures
        r == *t,
;

/// `Duration` is `Copy`: its `clone` returns the same duration.
pub assume_specification[ <Duration as Clone>::clone ](d: &Duration) -> (r: Duration)
    ensures
        r == *d,
;

} // verus!
