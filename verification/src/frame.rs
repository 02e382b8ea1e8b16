//! What the render loop is to do with the current state: which panel a
//! frame shows, and what happens while the screen is off. Drawing itself is
//! not done here.

use crate::clock::Timestamp;
use crate::data::{SensorData, SensorDataView};
use crate::history::history_view;
use crate::screenctl::ScreenBackend;
use crate::state::{State, StateView};
use vstd::prelude::*;

verus! {

/// The reporter of the Windows machine.
pub const WINDOWS_AGENT: &'static str = "windows-sensor-agent";

/// The reporter of the Linux machine.
pub const LINUX_AGENT: &'static str = "linux-sensor-agent";

/// A report counts as fresh while it is younger than this many seconds.
pub const FRESH_SECS: u64 = 10;

/// The panels there are.
#[derive(Clone, Copy, Debug, PartialEq, Eq, Structural)]
pub enum PanelKind {
    Windows,
    Linux,
    /// The test card that is shown while no machine reports.
    Pending,
}

/// What one pass of the render loop does.
#[derive(Clone, Copy, Debug, PartialEq, Eq, Structural)]
pub enum Frame {
    /// Draw the panel.
    Draw(PanelKind),
    /// Paint the window black.
    Clear,
    /// Draw nothing and wait a second.
    Sleep,
}

/// Whether `data` came from `reporter` less than `FRESH_SECS` before `now`.
/// A report stamped later than `now` is fresh.
pub open spec fn is_fresh_from(data: SensorDataView, reporter: Seq<char>, now: Timestamp) -> bool {
    data.reporter == reporter && now.spec_elapsed_since(data.received) < FRESH_SECS
}

/// Whether the history holds a fresh report of `reporter`.
pub open spec fn has_fresh(history: Seq<SensorDataView>, reporter: Seq<char>, now: Timestamp)
    -> bool {
    exists|i: int| 0 <= i < history.len() && is_fresh_from(#[trigger] history[i], reporter, now)
}

/// The panel for a history: that of the Windows machine while it reports,
/// else that of the Linux machine while it reports, else the test card.
pub open spec fn spec_select_panel(history: Seq<SensorDataView>, now: Timestamp) -> PanelKind {
    if has_fresh(history, WINDOWS_AGENT@, now) {
        PanelKind::Windows
    } else if has_fresh(history, LINUX_AGENT@, now) {
        PanelKind::Linux
    } else {
        PanelKind::Pending
    }
}

/// What the render loop does in a state: it draws while the screen is on;
/// while it is off it paints black where nothing else darkens the screen,
/// and sleeps where the screen is switched off for real.
pub open spec fn spec_next_frame(state: StateView, backend: ScreenBackend, now: Timestamp)
    -> Frame {
    if state.screen_on {
        Frame::Draw(spec_select_panel(state.history, now))
    } else if backend == ScreenBackend::Software {
        Frame::Clear
    } else {
        Frame::Sleep
    }
}

/// Whether `data` is from `reporter`.
pub open spec fn is_from(reporter: Seq<char>) -> spec_fn(SensorDataView) -> bool {
    |data: SensorDataView| data.reporter == reporter
}

/// The contents of a list of borrowed reports.
pub open spec fn borrowed_view(reports: Seq<&SensorData>) -> Seq<SensorDataView> {
    reports.map_values(|data: &SensorData| data@)
}

/// Whether the history holds a report of `reporter` that is fresh at `now`.
pub fn has_fresh_report(history: &Vec<SensorData>, reporter: &str, now: Timestamp) -> (found: bool)
    ensures
        found == has_fresh(history_view(history@), reporter@, now),
{
    let wanted = reporter.to_owned();
    let mut i: usize = 0;
    while i < history.len()
        invariant
            i <= history@.len(),
            wanted@ == reporter@,
            forall|j: int|
                0 <= j < i ==> !is_fresh_from(#[trigger] history_view(history@)[j], reporter@, now),
        decreases history@.len() - i,
    {
        if history[i].reporter == wanted && now.elapsed_since(history[i].received) < FRESH_SECS {
            assert(is_fresh_from(history_view(history@)[i as int], reporter@, now));
            return true;
        }
        i += 1;
    }
    false
}

/// The panel that a frame shows at `now`.
pub fn select_panel(history: &Vec<SensorData>, now: Timestamp) -> (panel: PanelKind)
    ensures
        panel == spec_select_panel(history_view(history@), now),
{
    if has_fresh_report(history, WINDOWS_AGENT, now) {
        PanelKind::Windows
    } else if has_fresh_report(history, LINUX_AGENT, now) {
        PanelKind::Linux
    } else {
        PanelKind::Pending
    }
}

/// What the render loop does in `state` at `now`.
pub fn next_frame(state: &State, backend: ScreenBackend, now: Timestamp) -> (frame: Frame)
    ensures
        frame == spec_next_frame(state@, backend, now),
{
    if state.screen_on {
        Frame::Draw(select_panel(&state.sensor_data, now))
    } else if backend.should_clear_screen() {
        Frame::Clear
    } else {
        Frame::Sleep
    }
}

/// The reports of `reporter` in the history, in order of arrival.
pub fn reports_of<'a>(history: &'a Vec<SensorData>, reporter: &str) -> (found: Vec<&'a SensorData>)
    ensures
        borrowed_view(found@) == history_view(history@).filter(is_from(reporter@)),
{
    let wanted = reporter.to_owned();
    let mut found: Vec<&'a SensorData> = Vec::new();
    let mut i: usize = 0;
    proof {
        reveal(Seq::filter);
        assert(history_view(history@.take(0)) =~= Seq::<SensorDataView>::empty());
    }
    while i < history.len()
        invariant
            i <= history@.len(),
            wanted@ == reporter@,
            borrowed_view(found@) == history_view(history@.take(i as int)).filter(
                is_from(reporter@),
            ),
        decreases history@.len() - i,
    {
        proof {
            reveal(Seq::filter);
            let longer = history_view(history@.take(i + 1));
            assert(longer.drop_last() =~= history_view(history@.take(i as int)));
            assert(longer.last() == history@[i as int]@);
        }
        let ghost before = borrowed_view(found@);
        if history[i].reporter == wanted {
            found.push(&history[i]);
            assert(borrowed_view(found@) =~= before.push(history@[i as int]@));
        }
        i += 1;
    }
    assert(history@.take(i as int) =~= history@);
    found
}

} // verus!
