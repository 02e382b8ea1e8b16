//! The presence resolver: turns the raw readings of an occupancy sensor into
//! a debounced three-valued signal. Departure is delayed by a grace period,
//! return is immediate.

use crate::clock::Timestamp;
use vstd::prelude::*;

verus! {

/// Whether somebody is taken to be in the room.
#[allow(non_camel_case_types)]
#[derive(Clone, Copy, Debug, PartialEq, Eq, Structural)]
pub enum Present {
    /// Somebody is there.
    YES,
    /// Nobody has been there for longer than the grace period.
    NO,
    /// The sensor reports nobody, but the grace period has not run out.
    PENDING,
}

/// The debounced presence together with the moment the current absence began.
#[derive(Clone, Copy, Debug, PartialEq, Eq, Structural)]
pub struct PresenceData {
    pub present: Present,
    /// The time of the reading that last took `present` from `YES` to
    /// `PENDING`. No other transition writes it.
    pub last_switch_to_false: Timestamp,
}

/// One reading of the occupancy sensor and the time it was taken at.
#[derive(Clone, Copy, Debug, PartialEq, Eq, Structural)]
pub struct Reading {
    pub raw_present: bool,
    pub at: Timestamp,
}

/// The transition table of the resolver.
///
/// | previous  | raw   | elapsed > grace | next                    |
/// |-----------|-------|-----------------|-------------------------|
/// | any       | true  |                 | `YES`                   |
/// | `YES`     | false |                 | `PENDING`, stamped `now`|
/// | `PENDING` | false | yes             | `NO`                    |
/// | `PENDING` | false | no              | `PENDING`               |
/// | `NO`      | false |                 | `NO`                    |
///
/// "elapsed" is the time from `previous.last_switch_to_false` to `now`, and
/// zero when `now` lies before it.
pub open spec fn spec_resolve(
    previous: PresenceData,
    raw_present: bool,
    now: Timestamp,
    grace_secs: u32,
) -> PresenceData {
    if raw_present {
        PresenceData { present: Present::YES, ..previous }
    } else {
        match previous.present {
            Present::YES => PresenceData { present: Present::PENDING, last_switch_to_false: now },
            Present::PENDING => if now.spec_elapsed_since(previous.last_switch_to_false)
                > grace_secs {
                PresenceData { present: Present::NO, ..previous }
            } else {
                previous
            },
            Present::NO => previous,
        }
    }
}

/// The presence after a whole run of readings, taken in order from `start`.
pub open spec fn resolve_all(start: PresenceData, readings: Seq<Reading>, grace_secs: u32)
    -> PresenceData
    decreases readings.len(),
{
    if readings.len() == 0 {
        start
    } else {
        spec_resolve(
            resolve_all(start, readings.drop_last(), grace_secs),
            readings.last().raw_present,
            readings.last().at,
            grace_secs,
        )
    }
}

/// The presence after the first `n` readings of a run.
pub open spec fn presence_after(
    start: PresenceData,
    readings: Seq<Reading>,
    grace_secs: u32,
    n: int,
) -> PresenceData {
    resolve_all(start, readings.take(n), grace_secs)
}

/// Resolves one raw reading against the previous presence.
///
/// Total: a `now` that lies before the recorded start of the absence counts
/// as no time elapsed.
pub fn resolve(
    raw_present: bool,
    previous: &PresenceData,
    now: Timestamp,
    absence_grace_period: u32,
) -> (next: PresenceData)
    ensures
        next == spec_resolve(*previous, raw_present, now, absence_grace_period),
{
    let mut next = *previous;
    let waited: u64 = now.elapsed_since(previous.last_switch_to_false);
    if raw_present && previous.present == Present::NO {
        next.present = Present::YES;
    } else if !raw_present && previous.present == Present::PENDING && waited
        > absence_grace_period as u64 {
        next.present = Present::NO;
    } else if !raw_present && previous.present == Present::YES {
        next.present = Present::PENDING;
        next.last_switch_to_false = now;
    } else if raw_present {
        next.present = Present::YES;
    }
    next
}

/// Each step of a run is one application of the transition table.
pub proof fn lemma_presence_after_step(
    start: PresenceData,
    readings: Seq<Reading>,
    grace_secs: u32,
    n: int,
)
    requires
        0 <= n < readings.len(),
    ensures
        presence_after(start, readings, grace_secs, n + 1) == spec_resolve(
            presence_after(start, readings, grace_secs, n),
            readings[n].raw_present,
            readings[n].at,
            grace_secs,
        ),
{
    assert(readings.take(n + 1).drop_last() =~= readings.take(n));
    assert(readings.take(n + 1).last() == readings[n]);
}

/// The stamp of the start of an absence changes only on the step from `YES`
/// to `PENDING`, and then it is the time of that reading.
pub proof fn lemma_stamp_written_only_on_departure(
    previous: PresenceData,
    raw_present: bool,
    now: Timestamp,
    grace_secs: u32,
)
    ensures
        ({
            let next = spec_resolve(previous, raw_present, now, grace_secs);
            &&& next.last_switch_to_false != previous.last_switch_to_false ==> {
                &&& previous.present == Present::YES
                &&& next.present == Present::PENDING
                &&& !raw_present
            }
            &&& previous.present == Present::YES && !raw_present ==> next.last_switch_to_false
                == now
        }),
{
}

/// In no run of readings does presence go from `YES` to `NO` in one step:
/// `NO` is entered from `PENDING` alone, on a reading of absence taken more
/// than the grace period after the recorded start of the absence.
pub proof fn lemma_no_direct_absence(
    start: PresenceData,
    readings: Seq<Reading>,
    grace_secs: u32,
    n: int,
)
    requires
        0 <= n < readings.len(),
    ensures
        ({
            let before = presence_after(start, readings, grace_secs, n);
            let after = presence_after(start, readings, grace_secs, n + 1);
            &&& before.present == Present::YES ==> after.present != Present::NO
            &&& after.present == Present::NO && before.present != Present::NO ==> {
                &&& before.present == Present::PENDING
                &&& !readings[n].raw_present
                &&& readings[n].at.spec_elapsed_since(before.last_switch_to_false) > grace_secs
            }
        }),
{
    lemma_presence_after_step(start, readings, grace_secs, n);
}

/// Where reading `onset` began the absence that still lasts after `n`
/// readings: presence was `YES` before it, it and every reading since
/// reported absence, and its time is the recorded start of the absence.
pub open spec fn absence_began_at(
    start: PresenceData,
    readings: Seq<Reading>,
    grace_secs: u32,
    n: int,
    onset: int,
) -> bool {
    &&& 0 <= onset < n <= readings.len()
    &&& presence_after(start, readings, grace_secs, onset).present == Present::YES
    &&& forall|i: int| onset <= i < n ==> !(#[trigger] readings[i]).raw_present
    &&& presence_after(start, readings, grace_secs, n).last_switch_to_false
        == readings[onset].at
}

/// A run that does not start in `PENDING` is in `PENDING` after `n` readings
/// only if one of those readings began an absence that has lasted since.
pub proof fn lemma_pending_has_onset(
    start: PresenceData,
    readings: Seq<Reading>,
    grace_secs: u32,
    n: int,
) -> (onset: int)
    requires
        start.present != Present::PENDING,
        0 <= n <= readings.len(),
        presence_after(start, readings, grace_secs, n).present == Present::PENDING,
    ensures
        absence_began_at(start, readings, grace_secs, n, onset),
    decreases n,
{
    if n == 0 {
        assert(readings.take(0) =~= Seq::<Reading>::empty());
        0
    } else {
        lemma_presence_after_step(start, readings, grace_secs, n - 1);
        let before = presence_after(start, readings, grace_secs, n - 1);
        if before.present == Present::YES {
            n - 1
        } else {
            let onset = lemma_pending_has_onset(start, readings, grace_secs, n - 1);
            assert forall|i: int| onset <= i < n implies !(#[trigger] readings[i]).raw_present by {
                if i < n - 1 {
                    assert(!readings[i].raw_present);
                }
            }
            onset
        }
    }
}

/// Debounce over a whole run: when a run that does not start in `PENDING`
/// enters `NO` with reading `n`, an earlier reading began the absence while
/// presence was `YES`, every reading from that one on reported absence, and
/// reading `n` was taken more than the grace period after it.
pub proof fn lemma_absence_only_after_grace(
    start: PresenceData,
    readings: Seq<Reading>,
    grace_secs: u32,
    n: int,
) -> (onset: int)
    requires
        start.present != Present::PENDING,
        0 <= n < readings.len(),
        presence_after(start, readings, grace_secs, n).present != Present::NO,
        presence_after(start, readings, grace_secs, n + 1).present == Present::NO,
    ensures
        0 <= onset < n,
        presence_after(start, readings, grace_secs, onset).present == Present::YES,
        forall|i: int| onset <= i <= n ==> !(#[trigger] readings[i]).raw_present,
        readings[n].at.secs - readings[onset].at.secs > grace_secs,
{
    lemma_no_direct_absence(start, readings, grace_secs, n);
    let onset = lemma_pending_has_onset(start, readings, grace_secs, n);
    assert forall|i: int| onset <= i <= n implies !(#[trigger] readings[i]).raw_present by {
        if i < n {
            assert(!readings[i].raw_present);
        }
    }
    onset
}

/// Flap suppression: from `YES`, a run of absence readings that all lie
/// within the grace period of the first one never reaches `NO`, and the
/// next reading of presence gives `YES` at once.
pub proof fn lemma_flap_suppressed(
    start: PresenceData,
    absences: Seq<Reading>,
    grace_secs: u32,
    back: Reading,
)
    requires
        start.present == Present::YES,
        absences.len() > 0,
        forall|i: int|
            0 <= i < absences.len() ==> {
                &&& !(#[trigger] absences[i]).raw_present
                &&& absences[i].at.spec_elapsed_since(absences[0].at) <= grace_secs
            },
        back.raw_present,
    ensures
        forall|n: int|
            0 <= n <= absences.len() ==> (#[trigger] presence_after(
                start,
                absences,
                grace_secs,
                n,
            )).present != Present::NO,
        resolve_all(start, absences.push(back), grace_secs).present == Present::YES,
{
    assert forall|n: int| 0 <= n <= absences.len() implies (#[trigger] presence_after(
        start,
        absences,
        grace_secs,
        n,
    )).present != Present::NO by {
        lemma_short_absence_stays_pending(start, absences, grace_secs, n);
    }
    assert(absences.push(back).drop_last() =~= absences);
}

/// The state inside a short absence: `start` before the first reading, and
/// afterwards `PENDING` since the first reading.
proof fn lemma_short_absence_stays_pending(
    start: PresenceData,
    absences: Seq<Reading>,
    grace_secs: u32,
    n: int,
)
    requires
        start.present == Present::YES,
        0 <= n <= absences.len(),
        forall|i: int|
            0 <= i < absences.len() ==> {
                &&& !(#[trigger] absences[i]).raw_present
                &&& absences[i].at.spec_elapsed_since(absences[0].at) <= grace_secs
            },
    ensures
        n == 0 ==> presence_after(start, absences, grace_secs, n) == start,
        n > 0 ==> presence_after(start, absences, grace_secs, n) == (PresenceData {
            present: Present::PENDING,
            last_switch_to_false: absences[0].at,
        }),
    decreases n,
{
    if n == 0 {
        assert(absences.take(0) =~= Seq::<Reading>::empty());
    } else {
        lemma_short_absence_stays_pending(start, absences, grace_secs, n - 1);
        lemma_presence_after_step(start, absences, grace_secs, n - 1);
        assert(!absences[n - 1].raw_present);
    }
}

} // verus!
