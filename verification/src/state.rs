//! The state of the engine and the screen state machine: how the manual
//! screen mode and the debounced presence decide whether the screen is on,
//! and which action a change of that calls for.

use crate::clock::{system_now, Timestamp};
use crate::data::{SensorData, SensorDataView};
use crate::history::{history_view, HISTORY_CAPACITY};
use crate::presence::{resolve, spec_resolve, PresenceData, Present};
use vstd::prelude::*;

verus! {

/// The manual screen mode.
#[allow(non_camel_case_types)]
#[derive(Clone, Copy, Debug, PartialEq, Eq, Structural)]
pub enum ScreenState {
    /// The screen is forced off, whoever is there.
    OFF,
    /// The screen follows presence.
    AUTO,
}

/// The whole state of the engine at one instant.
#[derive(Debug)]
pub struct State {
    /// The history of reports, oldest first.
    pub sensor_data: Vec<SensorData>,
    pub screen_on: bool,
    pub screen_state: ScreenState,
    pub presence: PresenceData,
}

/// The mathematical content of a `State`.
pub struct StateView {
    pub history: Seq<SensorDataView>,
    pub screen_on: bool,
    pub screen_state: ScreenState,
    pub presence: PresenceData,
}

/// What the screen control has to do when the screen changes.
#[derive(Clone, Copy, Debug, PartialEq, Eq, Structural)]
pub enum Action {
    ScreenOn,
    ScreenOff,
}

impl View for State {
    type V = StateView;

    open spec fn view(&self) -> StateView {
        StateView {
            history: history_view(self.sensor_data@),
            screen_on: self.screen_on,
            screen_state: self.screen_state,
            presence: self.presence,
        }
    }
}

/// Whether the screen is on under a mode and a presence.
///
/// | mode   | presence  | screen |
/// |--------|-----------|--------|
/// | `OFF`  | any       | off    |
/// | `AUTO` | `YES`     | on     |
/// | `AUTO` | `PENDING` | on     |
/// | `AUTO` | `NO`      | off    |
pub open spec fn screen_on_for(mode: ScreenState, present: Present) -> bool {
    mode == ScreenState::AUTO && present != Present::NO
}

impl StateView {
    /// What every reachable state keeps: the history is within capacity, and
    /// the screen is as the mode and the presence say.
    pub open spec fn wf(self) -> bool {
        &&& self.history.len() <= HISTORY_CAPACITY
        &&& self.screen_on == screen_on_for(self.screen_state, self.presence.present)
    }
}

/// The state at startup: no history, mode `AUTO`, somebody present, screen
/// on. `now` fills the stamp of the presence, which nothing reads before the
/// first departure overwrites it.
pub open spec fn spec_init(now: Timestamp) -> StateView {
    StateView {
        history: Seq::empty(),
        screen_on: true,
        screen_state: ScreenState::AUTO,
        presence: PresenceData { present: Present::YES, last_switch_to_false: now },
    }
}

/// The state after the presence has become `presence`: the screen follows
/// it under `AUTO` and stays off under `OFF`.
pub open spec fn spec_apply_presence(state: StateView, presence: PresenceData) -> StateView {
    StateView {
        presence,
        screen_on: screen_on_for(state.screen_state, presence.present),
        ..state
    }
}

/// The state after one raw reading of the occupancy sensor taken at `now`.
pub open spec fn spec_update_presence(
    state: StateView,
    raw_present: bool,
    grace_secs: u32,
    now: Timestamp,
) -> StateView {
    spec_apply_presence(state, spec_resolve(state.presence, raw_present, now, grace_secs))
}

/// The mode after a manual toggle: `OFF` becomes `AUTO`; `AUTO` becomes
/// `OFF` if the screen is on and stays `AUTO` if it is not.
pub open spec fn toggled_mode(mode: ScreenState, screen_on: bool) -> ScreenState {
    match mode {
        ScreenState::OFF => ScreenState::AUTO,
        ScreenState::AUTO => if screen_on {
            ScreenState::OFF
        } else {
            ScreenState::AUTO
        },
    }
}

/// The state after a manual toggle: the mode changes, then the screen is
/// decided anew from the new mode and the presence.
pub open spec fn spec_toggle(state: StateView) -> StateView {
    let mode = toggled_mode(state.screen_state, state.screen_on);
    StateView {
        screen_state: mode,
        screen_on: screen_on_for(mode, state.presence.present),
        ..state
    }
}

/// The actions that a step from `previous_on` to `current_on` calls for:
/// one when the screen flips, none when it does not.
pub open spec fn spec_actions(previous_on: bool, current_on: bool) -> Seq<Action> {
    if previous_on && !current_on {
        seq![Action::ScreenOff]
    } else if !previous_on && current_on {
        seq![Action::ScreenOn]
    } else {
        Seq::empty()
    }
}

impl Clone for State {
    fn clone(&self) -> (copy: State)
        ensures
            copy@ == self@,
    {
        let sensor_data = self.sensor_data.clone();
        assert(history_view(sensor_data@) =~= history_view(self.sensor_data@));
        State {
            sensor_data,
            screen_on: self.screen_on,
            screen_state: self.screen_state,
            presence: self.presence,
        }
    }
}

impl State {
    /// The state at startup, with `now` as the stamp of the presence.
    pub fn init_at(now: Timestamp) -> (state: State)
        ensures
            state@ == spec_init(now),
            state@.wf(),
    {
        let state = State {
            sensor_data: Vec::new(),
            screen_on: true,
            screen_state: ScreenState::AUTO,
            presence: PresenceData { present: Present::YES, last_switch_to_false: now },
        };
        assert(state@.history =~= Seq::<SensorDataView>::empty());
        state
    }

    /// Takes over a new presence and decides the screen from it. Under
    /// `OFF` the screen is off whatever the presence is.
    pub fn apply_presence(&self, new_presence: PresenceData) -> (next: State)
        ensures
            next@ == spec_apply_presence(self@, new_presence),
            self.screen_state == ScreenState::OFF ==> !next.screen_on,
            self@.wf() ==> next@.wf(),
    {
        let mut next = self.clone();
        next.presence = new_presence;
        next.screen_on = next.screen_state == ScreenState::AUTO && new_presence.present
            != Present::NO;
        next
    }

    /// Resolves one raw reading of the occupancy sensor taken at `now`
    /// against the presence of this state, then applies the result.
    pub fn update_presence_at(
        &self,
        present: bool,
        presence_threshold_secs: u32,
        now: Timestamp,
    ) -> (next: State)
        ensures
            next@ == spec_update_presence(self@, present, presence_threshold_secs, now),
            self@.wf() ==> next@.wf(),
    {
        let presence = resolve(present, &self.presence, now, presence_threshold_secs);
        self.apply_presence(presence)
    }
}

/// The operations of the engine on its state.
pub trait StateExt: Sized {
    /// Moves this state into `other`.
    fn transfer_to(self, other: &mut Self);

    /// The state after one raw reading of the occupancy sensor, taken now.
    fn update_presence(&self, present: bool, presence_threshold_secs: u32) -> Self;

    /// The state after a manual toggle of the screen.
    fn toggle_screen_state(&self) -> Self;

    /// The actions that the step from `previous` to this state calls for.
    fn state_change_actions(&self, previous: &Self) -> Vec<Action>;

    /// The state at startup.
    fn init() -> Self;
}

impl StateExt for State {
    fn transfer_to(self, other: &mut State)
        ensures
            *final(other) == self,
    {
        other.presence = self.presence;
        other.screen_state = self.screen_state;
        other.screen_on = self.screen_on;
        other.sensor_data = self.sensor_data;
    }

    /// Reads the wall clock and resolves the reading against it: the result
    /// is that of `update_presence_at` for the time that was read.
    fn update_presence(&self, present: bool, presence_threshold_secs: u32) -> (next: State)
        ensures
            exists|now: Timestamp|
                next@ == #[trigger] spec_update_presence(
                    self@,
                    present,
                    presence_threshold_secs,
                    now,
                ),
            self@.wf() ==> next@.wf(),
    {
        let now = system_now();
        self.update_presence_at(present, presence_threshold_secs, now)
    }

    fn toggle_screen_state(&self) -> (next: State)
        ensures
            next@ == spec_toggle(self@),
            self@.wf() ==> next@.wf(),
    {
        let mut next = self.clone();
        next.screen_state = match self.screen_state {
            ScreenState::OFF => ScreenState::AUTO,
            ScreenState::AUTO => if self.screen_on {
                ScreenState::OFF
            } else {
                ScreenState::AUTO
            },
        };
        next.screen_on = match next.screen_state {
            ScreenState::OFF => false,
            ScreenState::AUTO => self.presence.present != Present::NO,
        };
        next
    }

    fn state_change_actions(&self, previous: &State) -> (actions: Vec<Action>)
        ensures
            actions@ == spec_actions(previous.screen_on, self.screen_on),
            actions@.len() <= 1,
            actions@.len() == 1 <==> previous.screen_on != self.screen_on,
    {
        let mut actions = Vec::new();
        if !self.screen_on && previous.screen_on {
            actions.push(Action::ScreenOff);
        } else if self.screen_on && !previous.screen_on {
            actions.push(Action::ScreenOn);
        }
        assert(actions@ =~= spec_actions(previous.screen_on, self.screen_on));
        actions
    }

    /// Reads the wall clock for the stamp of the presence: the result is
    /// that of `init_at` for the time that was read.
    fn init() -> (state: State)
        ensures
            exists|now: Timestamp| state@ == #[trigger] spec_init(now),
            state@.wf(),
    {
        State::init_at(system_now())
    }
}

/// Toggling twice from `AUTO` with the screen on and somebody present (or
/// the grace period still running) gives the state back: the first toggle
/// forces the screen off, the second returns to `AUTO` and the screen
/// follows the unchanged presence again.
pub proof fn lemma_toggle_twice_restores(state: StateView)
    requires
        state.screen_state == ScreenState::AUTO,
        state.screen_on,
        state.presence.present != Present::NO,
    ensures
        spec_toggle(state).screen_state == ScreenState::OFF,
        !spec_toggle(state).screen_on,
        spec_toggle(spec_toggle(state)) == state,
{
}

/// The mode dominates: under `OFF` the screen is off after any presence has
/// been applied.
pub proof fn lemma_off_dominates(state: StateView, presence: PresenceData)
    requires
        state.screen_state == ScreenState::OFF,
    ensures
        !spec_apply_presence(state, presence).screen_on,
        spec_apply_presence(state, presence).screen_state == ScreenState::OFF,
{
}

/// What a toggle does to a well-formed state. Under `AUTO` with nobody
/// there it changes nothing. Otherwise it flips the mode, and the screen is
/// on afterwards exactly if it was off and the presence is not `NO`.
pub proof fn lemma_toggle_of_well_formed(state: StateView)
    requires
        state.wf(),
    ensures
        spec_toggle(state).wf(),
        state.screen_state == ScreenState::AUTO && state.presence.present == Present::NO
            ==> spec_toggle(state) == state,
        !(state.screen_state == ScreenState::AUTO && state.presence.present == Present::NO)
            ==> spec_toggle(state).screen_on == (state.presence.present != Present::NO
            && !state.screen_on),
{
}

/// At most one action per step, and one only when the screen flips: the
/// action then names the new side.
pub proof fn lemma_one_action_per_flip(previous_on: bool, current_on: bool)
    ensures
        ({
            let actions = spec_actions(previous_on, current_on);
            &&& actions.len() <= 1
            &&& actions.len() == 1 <==> previous_on != current_on
            &&& previous_on && !current_on ==> actions == seq![Action::ScreenOff]
            &&& !previous_on && current_on ==> actions == seq![Action::ScreenOn]
            &&& previous_on == current_on ==> actions == Seq::<Action>::empty()
        }),
{
}

} // verus!
