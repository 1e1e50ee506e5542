use mikisayaka::batching::{plan_batches, Batch};
use mikisayaka::tracker::{scan, step, Fetched, TrackPolicy, Watched};

const MANGA: TrackPolicy = TrackPolicy { notify_first_sight: true, touch_on_failure: false };
const FUEL: TrackPolicy = TrackPolicy { notify_first_sight: false, touch_on_failure: true };

fn watched(fingerprint: Option<i64>, last_checked_at: i64) -> Watched {
    Watched { fingerprint, last_checked_at }
}

#[test]
fn newer_fingerprint_emits_one_event_and_is_persisted() {
    let s = step(watched(Some(1_000), 900), Fetched::Observed(2_000), MANGA, 3_000);
    assert!(s.notify);
    assert!(s.persist);
    assert_eq!(s.record, watched(Some(2_000), 3_000));
}

#[test]
fn equal_fingerprint_is_quiet_and_kept() {
    let s = step(watched(Some(1_000), 900), Fetched::Observed(1_000), MANGA, 3_000);
    assert!(!s.notify);
    assert_eq!(s.record, watched(Some(1_000), 3_000));
}

#[test]
fn older_fingerprint_does_not_move_back() {
    let s = step(watched(Some(1_000), 900), Fetched::Observed(500), FUEL, 3_000);
    assert!(!s.notify);
    assert_eq!(s.record.fingerprint, Some(1_000));
}

#[test]
fn first_sight_follows_policy() {
    let m = step(watched(None, 0), Fetched::Observed(42), MANGA, 7);
    assert!(m.notify);
    assert_eq!(m.record, watched(Some(42), 7));
    let f = step(watched(None, 0), Fetched::Observed(42), FUEL, 7);
    assert!(!f.notify);
    assert_eq!(f.record, watched(Some(42), 7));
}

#[test]
fn absent_remote_data_only_advances_check_time() {
    let s = step(watched(Some(10), 1), Fetched::Absent, MANGA, 99);
    assert!(!s.notify);
    assert!(s.persist);
    assert_eq!(s.record, watched(Some(10), 99));
}

#[test]
fn failed_fetch_touch_policy() {
    let skip = step(watched(Some(10), 1), Fetched::Failed, MANGA, 99);
    assert!(!skip.notify);
    assert!(!skip.persist);
    assert_eq!(skip.record, watched(Some(10), 1));
    let touch = step(watched(Some(10), 1), Fetched::Failed, FUEL, 99);
    assert!(!touch.notify);
    assert!(touch.persist);
    assert_eq!(touch.record, watched(Some(10), 99));
}

#[test]
fn failing_entity_does_not_stop_the_others() {
    let records = vec![watched(Some(100), 5), watched(Some(100), 5)];
    let fetched = vec![Fetched::Failed, Fetched::Observed(200)];
    let r = scan(&records, &fetched, MANGA, 50);
    assert_eq!(r.changed, vec![1]);
    assert_eq!(r.records[0], watched(Some(100), 5));
    assert!(!r.persist[0]);
    assert_eq!(r.records[1], watched(Some(200), 50));
    assert!(r.persist[1]);
}

#[test]
fn each_change_is_listed_once() {
    let records = vec![watched(Some(1), 0), watched(Some(5), 0), watched(None, 0), watched(Some(3), 0)];
    let fetched = vec![Fetched::Observed(2), Fetched::Observed(5), Fetched::Observed(1), Fetched::Observed(4)];
    let r = scan(&records, &fetched, MANGA, 10);
    assert_eq!(r.changed, vec![0, 2, 3]);
    assert_eq!(r.records.len(), 4);
}

#[test]
fn twenty_five_changes_make_three_messages() {
    let b = plan_batches(25, 10, true);
    assert_eq!(
        b,
        vec![Batch { start: 0, len: 10 }, Batch { start: 10, len: 10 }, Batch { start: 20, len: 5 }]
    );
}

#[test]
fn zero_change_tick_sends_nothing() {
    assert!(plan_batches(0, 10, true).is_empty());
}

#[test]
fn unconfigured_destination_sends_nothing() {
    assert!(plan_batches(25, 10, false).is_empty());
    assert!(plan_batches(1, 10, false).is_empty());
}

#[test]
fn batches_never_exceed_chunk_size() {
    for size in 1..12usize {
        for count in 0..60usize {
            let b = plan_batches(count, size, true);
            let mut next = 0;
            for batch in &b {
                assert!(batch.len >= 1 && batch.len <= size);
                assert_eq!(batch.start, next);
                next += batch.len;
            }
            assert_eq!(next, count);
        }
    }
}

#[test]
fn exactly_one_full_batch() {
    assert_eq!(plan_batches(10, 10, true), vec![Batch { start: 0, len: 10 }]);
}
