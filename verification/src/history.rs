//! The history store: the latest reports in order of arrival, at most
//! `HISTORY_CAPACITY` of them.

use crate::data::{SensorData, SensorDataView};
use vstd::prelude::*;

verus! {

/// The number of reports that the history keeps.
pub const HISTORY_CAPACITY: usize = 500;

/// The reports of a history as mathematical values, oldest first.
pub open spec fn history_view(history: Seq<SensorData>) -> Seq<SensorDataView> {
    history.map_values(|data: SensorData| data@)
}

/// The last `capacity` items of a sequence, or all of it if it has fewer.
pub open spec fn keep_latest<T>(items: Seq<T>, capacity: nat) -> Seq<T> {
    if items.len() > capacity {
        items.skip(items.len() - capacity)
    } else {
        items
    }
}

/// The history after one more report has arrived: the report goes to the
/// end, and the oldest reports leave until the capacity is kept.
pub open spec fn spec_append(
    history: Seq<SensorDataView>,
    report: SensorDataView,
) -> Seq<SensorDataView> {
    keep_latest(history.push(report), HISTORY_CAPACITY as nat)
}

/// Appends `report` to `history` and evicts from the front what is over
/// capacity. Reports of all reporters share the one sequence; nothing is
/// deduplicated.
pub fn append(history: Vec<SensorData>, report: SensorData) -> (grown: Vec<SensorData>)
    ensures
        ({
            let before = history_view(history@);
            let after = history_view(grown@);
            &&& after == spec_append(before, report@)
            &&& history@.len() < HISTORY_CAPACITY ==> after == before.push(report@)
            &&& history@.len() == HISTORY_CAPACITY ==> after == before.skip(1).push(report@)
        }),
        grown@.len() <= HISTORY_CAPACITY,
{
    let ghost full = history@.push(report);
    let mut grown = history;
    grown.push(report);
    while grown.len() > HISTORY_CAPACITY
        invariant
            grown@.len() <= full.len(),
            grown@.len() >= HISTORY_CAPACITY || grown@.len() == full.len(),
            grown@ == full.skip(full.len() - grown@.len()),
        decreases grown@.len(),
    {
        grown.remove(0);
        assert(grown@ =~= full.skip(full.len() - grown@.len()));
    }
    proof {
        assert(full.skip(0) =~= full);
        assert(history_view(full) =~= history_view(history@).push(report@));
        assert(history_view(grown@) =~= keep_latest(
            history_view(full),
            HISTORY_CAPACITY as nat,
        ));
        if history@.len() == HISTORY_CAPACITY {
            lemma_append_full_evicts_oldest(history_view(history@), report@);
        }
    }
    grown
}

/// The history never holds more than its capacity, whatever it held before.
pub proof fn lemma_append_bounded(history: Seq<SensorDataView>, report: SensorDataView)
    ensures
        spec_append(history, report).len() <= HISTORY_CAPACITY,
        spec_append(history, report).len() > 0,
        spec_append(history, report).last() == report,
{
}

/// Below capacity nothing leaves: the new report is added at the end.
pub proof fn lemma_append_below_capacity(history: Seq<SensorDataView>, report: SensorDataView)
    requires
        history.len() < HISTORY_CAPACITY,
    ensures
        spec_append(history, report) == history.push(report),
{
}

/// Appending to a full history evicts exactly one report, the oldest: the
/// others move up by one place and the new report takes the last.
pub proof fn lemma_append_full_evicts_oldest(history: Seq<SensorDataView>, report: SensorDataView)
    requires
        history.len() == HISTORY_CAPACITY,
    ensures
        spec_append(history, report) == history.skip(1).push(report),
        spec_append(history, report).len() == HISTORY_CAPACITY,
{
    assert(spec_append(history, report) =~= history.skip(1).push(report));
}

} // verus!
