//! Event dispatch: each incoming report is classified by its topic and
//! routed to the presence resolver, the screen state machine and the
//! history. A dispatch computes a new state and the actions that the change
//! calls for; it performs none of them.

use crate::clock::{system_now, Timestamp};
use crate::config::Config;
use crate::history::{append, spec_append, HISTORY_CAPACITY};
use crate::presence::{spec_resolve, Present};
use crate::report::{SensorReport, SensorReportView};
use crate::state::{
    spec_actions, spec_toggle, spec_update_presence, Action, ScreenState, State, StateExt,
    StateView,
};
use vstd::prelude::*;

verus! {

/// The topic of manual actions.
pub const ACTIONS_TOPIC: &'static str = "actions";

/// The topic of sensor readings.
pub const SENSORS_TOPIC: &'static str = "sensors";

/// The measurement whose presence in an action report asks for a toggle of
/// the screen. Its value is not read.
pub const TOGGLE_KEY: &'static str = "toggle_screen";

/// The measurement that carries the raw reading of the occupancy sensor.
pub const PRESENCE_KEY: &'static str = "hue_presence";

/// The value of `PRESENCE_KEY` that says somebody is there. Any other value
/// says nobody is.
pub const PRESENT_VALUE: &'static str = "true";

/// Whether a value of `PRESENCE_KEY` says that somebody is there.
pub open spec fn says_present(value: Seq<char>) -> bool {
    value == PRESENT_VALUE@
}

/// The state after a report of the topic `actions`: toggled if the report
/// carries `TOGGLE_KEY`, unchanged if not.
pub open spec fn spec_handle_action(report: SensorReportView, state: StateView) -> StateView {
    if report.sensors.contains_key(TOGGLE_KEY@) {
        spec_toggle(state)
    } else {
        state
    }
}

/// The state after a report of the topic `sensors` taken in at `now`: if
/// the report carries `PRESENCE_KEY`, the presence is resolved and applied;
/// in every case the report is appended to the history.
pub open spec fn spec_handle_sensor(
    report: SensorReportView,
    state: StateView,
    grace_secs: u32,
    now: Timestamp,
) -> StateView {
    let resolved = if report.sensors.contains_key(PRESENCE_KEY@) {
        spec_update_presence(
            state,
            says_present(report.sensors[PRESENCE_KEY@]),
            grace_secs,
            now,
        )
    } else {
        state
    };
    StateView { history: spec_append(resolved.history, report.stored()), ..resolved }
}

/// The state after any report taken in at `now`. A report of another topic
/// than `actions` and `sensors` leaves the state as it is.
pub open spec fn spec_handle(
    report: SensorReportView,
    state: StateView,
    grace_secs: u32,
    now: Timestamp,
) -> StateView {
    if report.topic == ACTIONS_TOPIC@ {
        spec_handle_action(report, state)
    } else if report.topic == SENSORS_TOPIC@ {
        spec_handle_sensor(report, state, grace_secs, now)
    } else {
        state
    }
}

/// Whether `text` reads `literal`.
fn reads(text: &String, literal: &str) -> (same: bool)
    ensures
        same == (text@ == literal@),
{
    let owned = literal.to_owned();
    *text == owned
}

/// Handles the raw reading `presence` of the occupancy sensor, taken in at
/// `now`: somebody is there if and only if it reads `PRESENT_VALUE`.
pub fn handle_presence_at(
    presence: &String,
    state: &State,
    config: &Config,
    now: Timestamp,
) -> (next: State)
    ensures
        next@ == spec_update_presence(
            state@,
            says_present(presence@),
            config.presence_threshold_secs,
            now,
        ),
        state@.wf() ==> next@.wf(),
{
    state.update_presence_at(reads(presence, PRESENT_VALUE), config.presence_threshold_secs, now)
}

/// Handles the raw reading `presence` of the occupancy sensor at the time
/// that the wall clock shows: the result is that of `handle_presence_at` for
/// the time that was read.
pub fn handle_presence(presence: &String, state: &State, config: &Config) -> (next: State)
    ensures
        exists|now: Timestamp|
            next@ == #[trigger] spec_update_presence(
                state@,
                says_present(presence@),
                config.presence_threshold_secs,
                now,
            ),
        state@.wf() ==> next@.wf(),
{
    handle_presence_at(presence, state, config, system_now())
}

/// Handles a report of the topic `sensors`, taken in at `now`.
pub fn handle_sensor_at(
    event: SensorReport,
    state: &State,
    config: &Config,
    now: Timestamp,
) -> (next: State)
    ensures
        next@ == spec_handle_sensor(event@, state@, config.presence_threshold_secs, now),
        next@.history.len() <= HISTORY_CAPACITY,
        state@.wf() ==> next@.wf(),
{
    let resolved = match event.sensors.get(PRESENCE_KEY) {
        Some(presence) => handle_presence_at(presence, state, config, now),
        None => state.clone(),
    };
    let State { sensor_data, screen_on, screen_state, presence } = resolved;
    State { sensor_data: append(sensor_data, event.into_data()), screen_on, screen_state, presence }
}

/// Handles a report of the topic `sensors` at the time that the wall clock
/// shows: the result is that of `handle_sensor_at` for the time that was
/// read.
pub fn handle_sensor(event: SensorReport, state: &State, config: &Config) -> (next: State)
    ensures
        exists|now: Timestamp|
            next@ == #[trigger] spec_handle_sensor(
                event@,
                state@,
                config.presence_threshold_secs,
                now,
            ),
        next@.history.len() <= HISTORY_CAPACITY,
        state@.wf() ==> next@.wf(),
{
    handle_sensor_at(event, state, config, system_now())
}

/// Handles a report of the topic `actions`.
pub fn handle_action(sensor_report: SensorReport, state: &State) -> (next: State)
    ensures
        next@ == spec_handle_action(sensor_report@, state@),
        state@.wf() ==> next@.wf(),
{
    if sensor_report.sensors.contains_key(TOGGLE_KEY) {
        state.toggle_screen_state()
    } else {
        state.clone()
    }
}

/// The dispatcher of incoming reports.
pub struct Event();

/// Dispatch of one report against the current state.
pub trait EventExt {
    /// The state after `sensor_report`, at the time that the wall clock
    /// shows. `state` is left as it is.
    fn handle(sensor_report: SensorReport, state: &State, config: &Config) -> State;
}

impl EventExt for Event {
    /// Reads the wall clock: the result is that of `handle_at` for the time
    /// that was read.
    fn handle(sensor_report: SensorReport, state: &State, config: &Config) -> (next: State)
        ensures
            exists|now: Timestamp|
                next@ == #[trigger] spec_handle(
                    sensor_report@,
                    state@,
                    config.presence_threshold_secs,
                    now,
                ),
            state@.wf() ==> next@.wf(),
    {
        Event::handle_at(sensor_report, state, config, system_now())
    }
}

impl Event {
    /// The state after `sensor_report`, taken in at `now`.
    pub fn handle_at(
        sensor_report: SensorReport,
        state: &State,
        config: &Config,
        now: Timestamp,
    ) -> (next: State)
        ensures
            next@ == spec_handle(sensor_report@, state@, config.presence_threshold_secs, now),
            state@.wf() ==> next@.wf(),
    {
        if reads(&sensor_report.topic, ACTIONS_TOPIC) {
            handle_action(sensor_report, state)
        } else if reads(&sensor_report.topic, SENSORS_TOPIC) {
            handle_sensor_at(sensor_report, state, config, now)
        } else {
            state.clone()
        }
    }

    /// One step of the engine on a report taken in at `now`: the new state,
    /// and the actions that the screen control is to perform for it. There
    /// is one action if the screen flips and none if it does not.
    pub fn dispatch_at(
        sensor_report: SensorReport,
        state: &State,
        config: &Config,
        now: Timestamp,
    ) -> (step: (State, Vec<Action>))
        ensures
            step.0@ == spec_handle(sensor_report@, state@, config.presence_threshold_secs, now),
            step.1@ == spec_actions(state.screen_on, step.0.screen_on),
            step.1@.len() <= 1,
            step.1@.len() == 1 <==> state.screen_on != step.0.screen_on,
            state@.wf() ==> step.0@.wf(),
    {
        let next = Event::handle_at(sensor_report, state, config, now);
        let actions = next.state_change_actions(state);
        (next, actions)
    }

    /// One step of the engine at the time that the wall clock shows: the
    /// result is that of `dispatch_at` for the time that was read.
    pub fn dispatch(
        sensor_report: SensorReport,
        state: &State,
        config: &Config,
    ) -> (step: (State, Vec<Action>))
        ensures
            exists|now: Timestamp|
                step.0@ == #[trigger] spec_handle(
                    sensor_report@,
                    state@,
                    config.presence_threshold_secs,
                    now,
                ),
            step.1@ == spec_actions(state.screen_on, step.0.screen_on),
            step.1@.len() <= 1,
            step.1@.len() == 1 <==> state.screen_on != step.0.screen_on,
            state@.wf() ==> step.0@.wf(),
    {
        Event::dispatch_at(sensor_report, state, config, system_now())
    }
}

/// One report and the time it was taken in at.
pub struct Arrival {
    pub report: SensorReportView,
    pub at: Timestamp,
}

/// The state after a whole run of reports, taken in order from `start`.
pub open spec fn handle_all(start: StateView, arrivals: Seq<Arrival>, grace_secs: u32)
    -> StateView
    decreases arrivals.len(),
{
    if arrivals.len() == 0 {
        start
    } else {
        spec_handle(
            arrivals.last().report,
            handle_all(start, arrivals.drop_last(), grace_secs),
            grace_secs,
            arrivals.last().at,
        )
    }
}

/// The two topics are different words, so no report is of both.
pub proof fn lemma_topics_differ()
    ensures
        ACTIONS_TOPIC@ != SENSORS_TOPIC@,
{
    reveal_strlit("actions");
    reveal_strlit("sensors");
    assert(ACTIONS_TOPIC@[0] != SENSORS_TOPIC@[0]);
}

/// Routing: each part of the state has one kind of report that moves it.
/// The presence takes one step of the resolver on a `sensors` report that
/// carries `PRESENCE_KEY`, the mode is toggled by an `actions` report that
/// carries `TOGGLE_KEY`, the history grows by every `sensors` report; no
/// other report touches the part.
pub proof fn lemma_routing(
    report: SensorReportView,
    state: StateView,
    grace_secs: u32,
    now: Timestamp,
)
    ensures
        ({
            let next = spec_handle(report, state, grace_secs, now);
            &&& next.presence == if report.topic == SENSORS_TOPIC@ && report.sensors.contains_key(
                PRESENCE_KEY@,
            ) {
                spec_resolve(
                    state.presence,
                    says_present(report.sensors[PRESENCE_KEY@]),
                    now,
                    grace_secs,
                )
            } else {
                state.presence
            }
            &&& next.screen_state == if report.topic == ACTIONS_TOPIC@
                && report.sensors.contains_key(TOGGLE_KEY@) {
                spec_toggle(state).screen_state
            } else {
                state.screen_state
            }
            &&& next.history == if report.topic == SENSORS_TOPIC@ {
                spec_append(state.history, report.stored())
            } else {
                state.history
            }
        }),
{
    lemma_topics_differ();
}

/// No report takes the presence from `YES` to `NO`, and none turns the
/// screen off under `AUTO` while the presence it leaves is not `NO`.
pub proof fn lemma_handle_never_skips_pending(
    report: SensorReportView,
    state: StateView,
    grace_secs: u32,
    now: Timestamp,
)
    requires
        state.wf(),
    ensures
        ({
            let next = spec_handle(report, state, grace_secs, now);
            &&& state.presence.present == Present::YES ==> next.presence.present != Present::NO
            &&& next.screen_state == ScreenState::AUTO && next.presence.present != Present::NO
                ==> next.screen_on
        }),
{
    lemma_routing(report, state, grace_secs, now);
}

/// Every run of reports from a well-formed state ends in a well-formed
/// state: the history stays within capacity and the screen stays what the
/// mode and the presence make it.
pub proof fn lemma_run_stays_well_formed(
    start: StateView,
    arrivals: Seq<Arrival>,
    grace_secs: u32,
)
    requires
        start.wf(),
    ensures
        handle_all(start, arrivals, grace_secs).wf(),
    decreases arrivals.len(),
{
    if arrivals.len() > 0 {
        lemma_run_stays_well_formed(start, arrivals.drop_last(), grace_secs);
    }
}

} // verus!
