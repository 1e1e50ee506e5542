//! The change-detection engine shared by every poller: per-entity decisions,
//! the scan over all watched entities, and the partition of the detected
//! changes into bounded notification batches.
use vstd::prelude::*;

use crate::batching::{batch_count, in_batch, law_each_item_sent_once};

verus! {

/// The persisted state of one watched entity: the last observed fingerprint
/// (none before the first observation) and when it was last polled, both as
/// seconds since the Unix epoch.
#[derive(Clone, Copy, Debug, PartialEq, Eq, Structural)]
pub struct Watched {
    pub fingerprint: Option<i64>,
    pub last_checked_at: i64,
}

/// What one tick's remote fetch produced for one entity.
#[derive(Clone, Copy, Debug, PartialEq, Eq, Structural)]
pub enum Fetched {
    /// The request failed; the entity is skipped until the next tick.
    Failed,
    /// The remote has nothing that qualifies (no matching update).
    Absent,
    /// The remote's current fingerprint.
    Observed(i64),
}

/// How one integration treats first observations and failed fetches.
#[derive(Clone, Copy, Debug, PartialEq, Eq, Structural)]
pub struct TrackPolicy {
    /// Whether an entity seen for the first time is reported as a change.
    pub notify_first_sight: bool,
    /// Whether a failed fetch still advances the entity's check time.
    pub touch_on_failure: bool,
}

/// The decision for one entity in one tick.
#[derive(Clone, Copy, Debug, PartialEq, Eq, Structural)]
pub struct Step {
    /// The record to hold after this tick.
    pub record: Watched,
    /// Whether the entity produces a notification item.
    pub notify: bool,
    /// Whether the record is written back.
    pub persist: bool,
}

/// An observed fingerprint moves the stored one forward: it is strictly
/// newer, or nothing was stored yet.
pub open spec fn advances(stored: Option<i64>, remote: i64) -> bool {
    match stored {
        Some(s) => remote > s,
        None => true,
    }
}

/// The fetch result is a change worth a notification.
pub open spec fn notifies(rec: Watched, fetched: Fetched, policy: TrackPolicy) -> bool {
    match fetched {
        Fetched::Observed(t) => match rec.fingerprint {
            Some(s) => t > s,
            None => policy.notify_first_sight,
        },
        _ => false,
    }
}

/// The record is written back after this tick.
pub open spec fn persists(fetched: Fetched, policy: TrackPolicy) -> bool {
    fetched != Fetched::Failed || policy.touch_on_failure
}

/// The record held after this tick: the fingerprint advances only to a newer
/// observation, the check time becomes `now` unless a failed fetch leaves the
/// record alone.
pub open spec fn next_record(rec: Watched, fetched: Fetched, policy: TrackPolicy, now: i64) -> Watched {
    match fetched {
        Fetched::Failed => if policy.touch_on_failure {
            Watched { fingerprint: rec.fingerprint, last_checked_at: now }
        } else {
            rec
        },
        Fetched::Absent => Watched { fingerprint: rec.fingerprint, last_checked_at: now },
        Fetched::Observed(t) => Watched {
            fingerprint: if advances(rec.fingerprint, t) {
                Some(t)
            } else {
                rec.fingerprint
            },
            last_checked_at: now,
        },
    }
}

/// Decides what one tick does with one entity.
pub fn step(rec: Watched, fetched: Fetched, policy: TrackPolicy, now: i64) -> (r: Step)
    ensures
        r.record == next_record(rec, fetched, policy, now),
        r.notify == notifies(rec, fetched, policy),
        r.persist == persists(fetched, policy),
{
    match fetched {
        Fetched::Failed => {
            let record = if policy.touch_on_failure {
                Watched { fingerprint: rec.fingerprint, last_checked_at: now }
            } else {
                rec
            };
            Step { record, notify: false, persist: policy.touch_on_failure }
        },
        Fetched::Absent => Step {
            record: Watched { fingerprint: rec.fingerprint, last_checked_at: now },
            notify: false,
            persist: true,
        },
        Fetched::Observed(t) => {
            let (fingerprint, notify) = match rec.fingerprint {
                Some(s) => if t > s {
                    (Some(t), true)
                } else {
                    (rec.fingerprint, false)
                },
                None => (Some(t), policy.notify_first_sight),
            };
            Step { record: Watched { fingerprint, last_checked_at: now }, notify, persist: true }
        },
    }
}

/// The indices among the first `n` entities that produce a notification, in
/// increasing order.
pub open spec fn changed_upto(
    recs: Seq<Watched>,
    fetched: Seq<Fetched>,
    policy: TrackPolicy,
    n: nat,
) -> Seq<int>
    decreases n,
{
    if n == 0 {
        Seq::empty()
    } else {
        let prev = changed_upto(recs, fetched, policy, (n - 1) as nat);
        if notifies(recs[n - 1], fetched[n - 1], policy) {
            prev.push(n - 1)
        } else {
            prev
        }
    }
}

/// The indices of all entities that produce a notification in one tick.
pub open spec fn changed_indices(recs: Seq<Watched>, fetched: Seq<Fetched>, policy: TrackPolicy) -> Seq<int> {
    changed_upto(recs, fetched, policy, recs.len())
}

/// The result of one scan over all watched entities.
pub struct Scan {
    /// The record of each entity after the tick, in input order.
    pub records: Vec<Watched>,
    /// Whether each entity's record is written back.
    pub persist: Vec<bool>,
    /// The indices of the entities that changed, in increasing order.
    pub changed: Vec<usize>,
}

/// Runs the change detector over every watched entity, given what the
/// remote fetch produced for each one.
pub fn scan(records: &Vec<Watched>, fetched: &Vec<Fetched>, policy: TrackPolicy, now: i64) -> (r: Scan)
    requires
        records.len() == fetched.len(),
    ensures
        r.records@.len() == records@.len(),
        r.persist@.len() == records@.len(),
        forall|i: int|
            0 <= i < records@.len() ==> #[trigger] r.records@[i] == next_record(
                records@[i],
                fetched@[i],
                policy,
                now,
            ),
        forall|i: int|
            0 <= i < records@.len() ==> #[trigger] r.persist@[i] == persists(fetched@[i], policy),
        r.changed@.map_values(|k: usize| k as int) == changed_indices(records@, fetched@, policy),
{
    let mut out: Vec<Watched> = Vec::new();
    let mut persist: Vec<bool> = Vec::new();
    let mut changed: Vec<usize> = Vec::new();
    let mut i: usize = 0;
    while i < records.len()
        invariant
            records.len() == fetched.len(),
            i <= records.len(),
            out@.len() == i,
            persist@.len() == i,
            forall|j: int|
                0 <= j < i ==> #[trigger] out@[j] == next_record(records@[j], fetched@[j], policy, now),
            forall|j: int| 0 <= j < i ==> #[trigger] persist@[j] == persists(fetched@[j], policy),
            changed@.map_values(|k: usize| k as int) == changed_upto(records@, fetched@, policy, i as nat),
        decreases records.len() - i,
    {
        let s = step(records[i], fetched[i], policy, now);
        out.push(s.record);
        persist.push(s.persist);
        if s.notify {
            changed.push(i);
        }
        assert(changed@.map_values(|k: usize| k as int) =~= changed_upto(records@, fetched@, policy, (i + 1) as nat));
        i = i + 1;
    }
    Scan { records: out, persist, changed }
}

/// The changed indices among the first `n` entities are strictly
/// increasing, below `n`, and hold exactly the entities that notify.
proof fn lemma_changed_shape(recs: Seq<Watched>, fetched: Seq<Fetched>, policy: TrackPolicy, n: nat)
    requires
        n <= recs.len(),
        recs.len() == fetched.len(),
    ensures
        forall|a: int, b: int|
            0 <= a < b < changed_upto(recs, fetched, policy, n).len() ==> changed_upto(
                recs,
                fetched,
                policy,
                n,
            )[a] < changed_upto(recs, fetched, policy, n)[b],
        forall|k: int|
            0 <= k < changed_upto(recs, fetched, policy, n).len() ==> 0 <= #[trigger] changed_upto(
                recs,
                fetched,
                policy,
                n,
            )[k] < n,
        forall|i: int|
            0 <= i < n ==> (changed_upto(recs, fetched, policy, n).contains(i) <==> notifies(
                recs[i],
                fetched[i],
                policy,
            )),
    decreases n,
{
    if n > 0 {
        lemma_changed_shape(recs, fetched, policy, (n - 1) as nat);
        let prev = changed_upto(recs, fetched, policy, (n - 1) as nat);
        let cur = changed_upto(recs, fetched, policy, n);
        assert forall|i: int| 0 <= i < n implies (cur.contains(i) <==> notifies(
            recs[i],
            fetched[i],
            policy,
        )) by {
            if i < n - 1 {
                if cur.contains(i) {
                    let k = choose|k: int| 0 <= k < cur.len() && cur[k] == i;
                    if k < prev.len() {
                        assert(prev[k] == i);
                    }
                }
                if prev.contains(i) {
                    let k = choose|k: int| 0 <= k < prev.len() && prev[k] == i;
                    assert(cur[k] == i);
                }
            } else {
                if notifies(recs[i], fetched[i], policy) {
                    assert(cur[cur.len() - 1] == i);
                } else {
                    assert(cur == prev);
                }
            }
        }
    }
}

/// A change is reported exactly once in the tick's list of changed
/// entities, and, with a destination, travels in exactly one message.
pub proof fn law_one_item_per_change(
    recs: Seq<Watched>,
    fetched: Seq<Fetched>,
    policy: TrackPolicy,
    size: int,
    i: int,
)
    requires
        recs.len() == fetched.len(),
        0 <= i < recs.len(),
        size > 0,
        notifies(recs[i], fetched[i], policy),
    ensures
        exists|k: int|
            0 <= k < changed_indices(recs, fetched, policy).len() && #[trigger] changed_indices(
                recs,
                fetched,
                policy,
            )[k] == i,
        forall|k1: int, k2: int|
            0 <= k1 < changed_indices(recs, fetched, policy).len() && 0 <= k2 < changed_indices(
                recs,
                fetched,
                policy,
            ).len() && #[trigger] changed_indices(recs, fetched, policy)[k1] == i
                && #[trigger] changed_indices(recs, fetched, policy)[k2] == i ==> k1 == k2,
        forall|k: int|
            0 <= k < changed_indices(recs, fetched, policy).len() && #[trigger] changed_indices(
                recs,
                fetched,
                policy,
            )[k] == i ==> {
                let n = changed_indices(recs, fetched, policy).len() as int;
                &&& exists|b: int| 0 <= b < batch_count(n, size, true) && #[trigger] in_batch(size, n, b, k)
                &&& forall|b1: int, b2: int|
                    0 <= b1 < batch_count(n, size, true) && 0 <= b2 < batch_count(n, size, true)
                        && #[trigger] in_batch(size, n, b1, k) && #[trigger] in_batch(size, n, b2, k)
                        ==> b1 == b2
            },
{
    lemma_changed_shape(recs, fetched, policy, recs.len());
    let c = changed_indices(recs, fetched, policy);
    assert(c.contains(i));
    assert forall|k1: int, k2: int|
        0 <= k1 < c.len() && 0 <= k2 < c.len() && #[trigger] c[k1] == i && #[trigger] c[k2] == i
            implies k1 == k2 by {
        if k1 < k2 {
            assert(c[k1] < c[k2]);
        }
        if k2 < k1 {
            assert(c[k2] < c[k1]);
        }
    }
    assert forall|k: int| 0 <= k < c.len() && #[trigger] c[k] == i implies {
        let n = c.len() as int;
        &&& exists|b: int| 0 <= b < batch_count(n, size, true) && #[trigger] in_batch(size, n, b, k)
        &&& forall|b1: int, b2: int|
            0 <= b1 < batch_count(n, size, true) && 0 <= b2 < batch_count(n, size, true)
                && #[trigger] in_batch(size, n, b1, k) && #[trigger] in_batch(size, n, b2, k)
                ==> b1 == b2
    } by {
        law_each_item_sent_once(c.len() as int, size, k);
    }
}

/// An observation that is not newer than the stored fingerprint produces no
/// notification item and leaves the fingerprint as it was; only the check
/// time moves to `now`.
pub proof fn law_stale_observation_is_quiet(
    recs: Seq<Watched>,
    fetched: Seq<Fetched>,
    policy: TrackPolicy,
    now: i64,
    i: int,
    stored: i64,
    remote: i64,
)
    requires
        recs.len() == fetched.len(),
        0 <= i < recs.len(),
        recs[i].fingerprint == Some(stored),
        fetched[i] == Fetched::Observed(remote),
        remote <= stored,
    ensures
        !changed_indices(recs, fetched, policy).contains(i),
        next_record(recs[i], fetched[i], policy, now) == (Watched {
            fingerprint: Some(stored),
            last_checked_at: now,
        }),
{
    lemma_changed_shape(recs, fetched, policy, recs.len());
}

/// A failed fetch produces no notification item; unless the integration
/// touches failed entities, its record stays exactly as it was, to be tried
/// again on the next tick.
pub proof fn law_failed_fetch_is_skipped(
    recs: Seq<Watched>,
    fetched: Seq<Fetched>,
    policy: TrackPolicy,
    now: i64,
    i: int,
)
    requires
        recs.len() == fetched.len(),
        0 <= i < recs.len(),
        fetched[i] == Fetched::Failed,
    ensures
        !changed_indices(recs, fetched, policy).contains(i),
        next_record(recs[i], fetched[i], policy, now).fingerprint == recs[i].fingerprint,
        !policy.touch_on_failure ==> next_record(recs[i], fetched[i], policy, now) == recs[i]
            && !persists(fetched[i], policy),
{
    lemma_changed_shape(recs, fetched, policy, recs.len());
}

} // verus!
