use sensor_panel::clock::Timestamp;
use sensor_panel::presence::{resolve, PresenceData, Present};

fn at(secs: u64) -> Timestamp {
    Timestamp::from_secs(secs)
}

fn presence(present: Present, since: u64) -> PresenceData {
    PresenceData { present, last_switch_to_false: at(since) }
}

#[test]
fn departure_starts_the_grace_period() {
    let after = resolve(false, &presence(Present::YES, 7), at(100), 600);
    assert_eq!(after, presence(Present::PENDING, 100));
}

#[test]
fn presence_stays_while_somebody_is_seen() {
    let after = resolve(true, &presence(Present::YES, 7), at(100), 600);
    assert_eq!(after, presence(Present::YES, 7));
}

#[test]
fn pending_waits_out_the_grace_period() {
    let after = resolve(false, &presence(Present::PENDING, 100), at(400), 600);
    assert_eq!(after, presence(Present::PENDING, 100));
}

#[test]
fn pending_stays_at_exactly_the_grace_period() {
    let after = resolve(false, &presence(Present::PENDING, 100), at(700), 600);
    assert_eq!(after, presence(Present::PENDING, 100));
}

#[test]
fn pending_becomes_absent_one_second_past_the_grace_period() {
    let after = resolve(false, &presence(Present::PENDING, 100), at(701), 600);
    assert_eq!(after, presence(Present::NO, 100));
}

#[test]
fn return_from_pending_is_immediate() {
    let after = resolve(true, &presence(Present::PENDING, 100), at(101), 600);
    assert_eq!(after, presence(Present::YES, 100));
}

#[test]
fn return_from_absent_is_immediate() {
    let after = resolve(true, &presence(Present::NO, 100), at(5000), 600);
    assert_eq!(after, presence(Present::YES, 100));
}

#[test]
fn absent_stays_absent_without_a_sighting() {
    let after = resolve(false, &presence(Present::NO, 100), at(5000), 600);
    assert_eq!(after, presence(Present::NO, 100));
}

#[test]
fn clock_set_back_counts_as_no_time_elapsed() {
    let after = resolve(false, &presence(Present::PENDING, 1000), at(10), 0);
    assert_eq!(after, presence(Present::PENDING, 1000));
}

#[test]
fn zero_grace_period_still_needs_a_second_reading() {
    let first = resolve(false, &presence(Present::YES, 0), at(50), 0);
    assert_eq!(first, presence(Present::PENDING, 50));
    let same_second = resolve(false, &first, at(50), 0);
    assert_eq!(same_second.present, Present::PENDING);
    let later = resolve(false, &first, at(51), 0);
    assert_eq!(later.present, Present::NO);
}

#[test]
fn largest_grace_period_and_latest_time_do_not_overflow() {
    let after = resolve(false, &presence(Present::PENDING, 0), at(u64::MAX), u32::MAX);
    assert_eq!(after.present, Present::NO);
    let before = resolve(false, &presence(Present::PENDING, u64::MAX), at(0), u32::MAX);
    assert_eq!(before.present, Present::PENDING);
}

#[test]
fn presence_never_jumps_from_yes_to_no() {
    let mut current = presence(Present::YES, 0);
    let readings =
        [(false, 10_000u64), (false, 20_000), (true, 20_001), (false, 90_000), (false, 90_001)];
    let mut seen = Vec::new();
    for (raw, secs) in readings {
        let next = resolve(raw, &current, at(secs), 600);
        assert!(!(current.present == Present::YES && next.present == Present::NO));
        seen.push(next.present);
        current = next;
    }
    assert_eq!(
        seen,
        vec![Present::PENDING, Present::NO, Present::YES, Present::PENDING, Present::PENDING]
    );
}

#[test]
fn short_absence_is_suppressed() {
    let mut current = presence(Present::YES, 0);
    for secs in [100u64, 250, 400, 700] {
        current = resolve(false, &current, at(secs), 600);
        assert_eq!(current, presence(Present::PENDING, 100));
    }
    current = resolve(true, &current, at(701), 600);
    assert_eq!(current.present, Present::YES);
}

#[test]
fn stamp_changes_only_on_departure() {
    let starts = [Present::YES, Present::NO, Present::PENDING];
    for start in starts {
        for raw in [true, false] {
            let before = presence(start, 40);
            let after = resolve(raw, &before, at(5000), 600);
            let departed = start == Present::YES && !raw;
            assert_eq!(after.last_switch_to_false != before.last_switch_to_false, departed);
        }
    }
}
