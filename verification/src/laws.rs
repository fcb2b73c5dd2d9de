//! What holds across calls: the properties that tie the operations of the
//! containers to one another, each stated over the same views and spec
//! functions as the operations' own contracts.

use vstd::prelude::*;
use vstd::std_specs::hash::{borrowed_key_removed, obeys_key_model};
use std::time::{Duration, Instant};
use crate::clock::{duration_nanos, nanos_between};
use crate::entry::ExpiryValue;
use crate::map::{floored, ExpiringMap, MINIMUM_VACUUM_SIZE};
use crate::store::{denotes, finds_live, finds_none_live, live_part};

verus! {

broadcast use vstd::std_specs::hash::group_hash_axioms;

/// A lookup by the key type itself is exact: it finds the entry that the
/// table holds under that very key, and finds nothing live exactly when the
/// table holds no entry there or one that has expired.
pub proof fn lemma_lookup_by_own_key<K, V>(
    m: Map<K, ExpiryValue<V>>,
    key: K,
    now: Instant,
    e: ExpiryValue<V>,
)
    ensures
        finds_live(m, &key, now, e) <==> m.contains_key(key) && m[key] == e && e.live_at(now),
        finds_none_live(m, &key, now) <==> !(m.contains_key(key) && m[key].live_at(now)),
{
    if m.contains_key(key) && !m[key].live_at(now) {
        assert(vstd::std_specs::hash::maps_borrowed_key_to_value(m, &key, m[key]));
    }
}

/// Looked up by the key type itself, a key denotes the stored key equal to
/// it and no other.
pub proof fn lemma_own_key_denotes_itself<K, T>(m: Map<K, T>, key: K, k: K)
    ensures
        denotes(m, &key, k) <==> m.contains_key(k) && k == key,
{
    if denotes(m, &key, k) {
        assert(m.remove(k) == m.remove(key));
        assert(!m.remove(key).contains_key(k));
    }
    if m.contains_key(k) && k == key {
        assert(borrowed_key_removed(m, m.remove(k), &key));
    }
}

/// The pair that a lookup by the key type itself returns is the key looked
/// up and the value of the live entry stored under it, also where other keys
/// hold equal entries.
pub proof fn law_key_value_is_of_the_key_looked_up<K, V>(
    m: Map<K, ExpiryValue<V>>,
    key: K,
    now: Instant,
    k: K,
    v: V,
)
    requires
        denotes(m, &key, k),
        m[k].value == v,
        finds_live(m, &key, now, m[k]),
    ensures
        k == key,
        m.contains_key(key),
        m[key].value == v,
        m[key].live_at(now),
{
    lemma_own_key_denotes_itself(m, key, k);
}

/// A value changed through a lookup by the key type itself is changed under
/// the key looked up: a later lookup of that key finds the written value
/// with the insertion time and time-to-live it had, for as long as the entry
/// lives, and every other key keeps its entry.
pub proof fn law_write_lands_under_the_key_looked_up<K, V>(
    before: Map<K, ExpiryValue<V>>,
    after: Map<K, ExpiryValue<V>>,
    key: K,
    now: Instant,
    k: K,
    written: V,
    later: Instant,
)
    requires
        denotes(before, &key, k),
        finds_live(before, &key, now, before[k]),
        after == before.insert(
            k,
            (ExpiryValue { inserted: before[k].inserted, ttl: before[k].ttl, value: written }),
        ),
    ensures
        k == key,
        after.dom() == before.dom(),
        after[key] == (ExpiryValue {
            inserted: before[key].inserted,
            ttl: before[key].ttl,
            value: written,
        }),
        forall|other: K| other != key && #[trigger] before.contains_key(other) ==> after[other]
            == before[other],
        after[key].live_at(later) <==> before[key].live_at(later),
        forall|e: ExpiryValue<V>| #[trigger]
            finds_live(after, &key, later, e) <==> e == after[key] && before[key].live_at(later),
        finds_none_live(after, &key, later) <==> !before[key].live_at(later),
{
    lemma_own_key_denotes_itself(before, key, k);
    assert(after.dom() =~= before.dom());
    lemma_lookup_by_own_key(after, key, later, after[key]);
    assert forall|e: ExpiryValue<V>| #[trigger]
        finds_live(after, &key, later, e) <==> e == after[key] && before[key].live_at(
            later,
        ) by {
        lemma_lookup_by_own_key(after, key, later, e);
    }
}

/// A table keyed by boxed keys answers a lookup by the bare content of a key
/// as it answers a lookup by the boxed key itself.
pub proof fn law_boxed_key_found_by_its_content<Q, V>(
    m: Map<Box<Q>, ExpiryValue<V>>,
    content: Q,
    now: Instant,
    e: ExpiryValue<V>,
    k: Box<Q>,
)
    ensures
        finds_live(m, &content, now, e) <==> finds_live(m, &Box::new(content), now, e),
        finds_none_live(m, &content, now) <==> finds_none_live(m, &Box::new(content), now),
        denotes(m, &content, k) <==> denotes(m, &Box::new(content), k),
{
    let boxed = Box::new(content);
    lemma_lookup_by_own_key(m, boxed, now, e);
    if m.contains_key(boxed) && !m[boxed].live_at(now) {
        assert(vstd::std_specs::hash::maps_borrowed_key_to_value(m, &content, m[boxed]));
    }
    lemma_own_key_denotes_itself(m, boxed, k);
}

/// A key inserted at `t0` to live for `ttl` is reported as contained at `t1`
/// exactly while less than `ttl` has gone by since `t0`: never missed before
/// that, never seen from then on. In particular it is contained at once if
/// `ttl` is not zero.
pub proof fn law_contained_until_ttl<K, V>(
    before: ExpiringMap<K, V>,
    after: ExpiringMap<K, V>,
    key: K,
    value: V,
    ttl: Duration,
    t0: Instant,
    t1: Instant,
    contained: bool,
)
    requires
        after@ == before.tidied(t0).insert(key, (ExpiryValue { inserted: t0, ttl, value })),
        if contained {
            exists|e: ExpiryValue<V>| #[trigger] finds_live(after@, &key, t1, e)
        } else {
            finds_none_live(after@, &key, t1)
        },
    ensures
        contained <==> nanos_between(t1, t0) < duration_nanos(ttl),
        nanos_between(t1, t0) == 0 && duration_nanos(ttl) > 0 ==> contained,
{
    let stored = ExpiryValue { inserted: t0, ttl, value };
    lemma_lookup_by_own_key(after@, key, t1, stored);
    if contained {
        let e = choose|e: ExpiryValue<V>| #[trigger] finds_live(after@, &key, t1, e);
        lemma_lookup_by_own_key(after@, key, t1, e);
    }
}

/// What is left of an entry's life never grows from one reading of the clock
/// to a later one, and stays at zero once it has reached zero.
pub proof fn law_remaining_never_grows<T>(e: ExpiryValue<T>, earlier: Instant, later: Instant)
    requires
        e.age_at(earlier) <= e.age_at(later),
    ensures
        e.left_at(later) <= e.left_at(earlier),
        e.left_at(earlier) == 0 ==> e.left_at(later) == 0,
        !e.live_at(earlier) ==> !e.live_at(later),
{
}

/// An entry is live exactly while something is left of its life.
pub proof fn law_live_iff_time_left<T>(e: ExpiryValue<T>, now: Instant)
    ensures
        e.live_at(now) <==> e.left_at(now) > 0,
        e.left_at(now) <= duration_nanos(e.ttl),
{
}

/// Once a key has been removed, removing it again reports that nothing live
/// was there, whatever the clock reads, and leaves the table as it is.
pub proof fn law_second_removal_reports_absence<K, V>(
    m0: Map<K, ExpiryValue<V>>,
    m1: Map<K, ExpiryValue<V>>,
    m2: Map<K, ExpiryValue<V>>,
    key: K,
    now: Instant,
    removed_again: bool,
)
    requires
        borrowed_key_removed(m0, m1, &key),
        borrowed_key_removed(m1, m2, &key),
        if removed_again {
            exists|e: ExpiryValue<V>| #[trigger] finds_live(m1, &key, now, e)
        } else {
            finds_none_live(m1, &key, now)
        },
    ensures
        !removed_again,
        m2 == m1,
{
    assert(m1 == m0.remove(key));
    assert(m2 =~= m1);
    if removed_again {
        let e = choose|e: ExpiryValue<V>| #[trigger] finds_live(m1, &key, now, e);
        lemma_lookup_by_own_key(m1, key, now, e);
    }
}

/// Inserting under a key that was inserted at `t0` returns the entry stored
/// then if it is still live, and reports no previous entry once it has
/// expired, though the table still held it.
pub proof fn law_insert_returns_live_predecessor<K, V>(
    before: ExpiringMap<K, V>,
    after: ExpiringMap<K, V>,
    key: K,
    value: V,
    ttl: Duration,
    t0: Instant,
    t1: Instant,
    previous: Option<ExpiryValue<V>>,
)
    requires
        after@ == before.tidied(t0).insert(key, (ExpiryValue { inserted: t0, ttl, value })),
        previous == ExpiringMap::<K, V>::live_under(after@, key, t1),
    ensures
        after@.contains_key(key),
        nanos_between(t1, t0) < duration_nanos(ttl) ==> previous == Some(
            ExpiryValue { inserted: t0, ttl, value },
        ),
        nanos_between(t1, t0) >= duration_nanos(ttl) ==> previous is None,
{
}

/// A sweep keeps exactly the keys that were live, each with the entry it
/// had, and so leaves nothing expired behind; sweeping again at the same
/// instant changes nothing.
pub proof fn law_sweep_keeps_exactly_the_live<K, V>(m: Map<K, ExpiryValue<V>>, now: Instant)
    ensures
        forall|k: K| #[trigger]
            live_part(m, now).contains_key(k) <==> m.contains_key(k) && m[k].live_at(now),
        forall|k: K| #[trigger] live_part(m, now).contains_key(k) ==> live_part(m, now)[k] == m[k],
        live_part(m, now).submap_of(m),
        live_part(live_part(m, now), now) == live_part(m, now),
{
    assert(live_part(live_part(m, now), now) =~= live_part(m, now));
}

/// A sweep never lengthens the table.
pub proof fn law_sweep_never_lengthens<K, V>(m: Map<K, ExpiryValue<V>>, now: Instant)
    requires
        m.dom().finite(),
    ensures
        live_part(m, now).dom().finite(),
        live_part(m, now).len() <= m.len(),
{
    assert(live_part(m, now).dom().subset_of(m.dom()));
    vstd::set_lib::lemma_len_subset(live_part(m, now).dom(), m.dom());
}

/// The watermark that a sweep sets is the length it leaves or the floor,
/// whichever is larger.
pub proof fn law_watermark_is_length_or_floor(len: nat)
    ensures
        floored(len) >= MINIMUM_VACUUM_SIZE,
        floored(len) >= len,
        floored(len) == len || floored(len) == MINIMUM_VACUUM_SIZE,
{
}

/// A sweep is due exactly when the table holds more than one and a half
/// times its watermark.
pub proof fn law_due_when_outgrown_by_half<K, V>(m: ExpiringMap<K, V>)
    ensures
        m.vacuum_due() <==> 2 * m@.len() > 3 * m.watermark(),
{
}

/// Once the table holds more than one and a half times its watermark, the
/// next insertion sweeps first: besides the inserted key the table then holds
/// only entries that were live, so its length is at most one more than their
/// number, and exactly their number where the key was live among them.
pub proof fn law_insert_sweeps_when_outgrown<K, V>(
    before: ExpiringMap<K, V>,
    after: ExpiringMap<K, V>,
    key: K,
    value: V,
    ttl: Duration,
    now: Instant,
)
    requires
        before.vacuum_due(),
        after@ == before.tidied(now).insert(key, (ExpiryValue { inserted: now, ttl, value })),
    ensures
        after@ == live_part(before@, now).insert(key, (ExpiryValue { inserted: now, ttl, value })),
        forall|k: K| #[trigger]
            after@.contains_key(k) && k != key ==> before@.contains_key(k) && before@[k].live_at(
                now,
            ),
        after@.len() <= live_part(before@, now).len() + 1,
        live_part(before@, now).contains_key(key) ==> after@.len() == live_part(
            before@,
            now,
        ).len(),
{
    before.lemma_view_finite();
    law_sweep_never_lengthens(before@, now);
}

/// While the table holds no more than one and a half times its watermark,
/// an insertion sweeps nothing: every entry stays, expired or not, but the
/// one under the inserted key.
pub proof fn law_insert_leaves_small_table_unswept<K, V>(
    before: ExpiringMap<K, V>,
    after: ExpiringMap<K, V>,
    key: K,
    value: V,
    ttl: Duration,
    now: Instant,
)
    requires
        !before.vacuum_due(),
        after@ == before.tidied(now).insert(key, (ExpiryValue { inserted: now, ttl, value })),
    ensures
        after@ == before@.insert(key, (ExpiryValue { inserted: now, ttl, value })),
{
}

} // verus!
