use sensor_panel::clock::Timestamp;
use sensor_panel::config::Config;
use sensor_panel::event::{
    handle_action, handle_presence, handle_presence_at, handle_sensor, handle_sensor_at, Event,
    EventExt, ACTIONS_TOPIC, PRESENCE_KEY, PRESENT_VALUE, SENSORS_TOPIC, TOGGLE_KEY,
};
use sensor_panel::measurements::Measurements;
use sensor_panel::presence::{PresenceData, Present};
use sensor_panel::report::SensorReport;
use sensor_panel::state::{Action, ScreenState, State};

fn at(secs: u64) -> Timestamp {
    Timestamp::from_secs(secs)
}

fn config(grace: u32) -> Config {
    Config {
        resources: "./resources".to_string(),
        relay_host: "127.0.0.1".to_string(),
        presence_threshold_secs: grace,
    }
}

fn report(topic: &str, pairs: &[(&str, &str)], received: u64) -> SensorReport {
    let mut sensors = Measurements::new();
    for (name, value) in pairs {
        sensors.insert(name.to_string(), value.to_string());
    }
    SensorReport {
        reporter: "hue-sensor-agent".to_string(),
        topic: topic.to_string(),
        sensors,
        received: at(received),
    }
}

fn initial() -> State {
    State::init_at(at(0))
}

#[test]
fn topics_and_keys_are_the_wire_names() {
    assert_eq!(ACTIONS_TOPIC, "actions");
    assert_eq!(SENSORS_TOPIC, "sensors");
    assert_eq!(TOGGLE_KEY, "toggle_screen");
    assert_eq!(PRESENCE_KEY, "hue_presence");
    assert_eq!(PRESENT_VALUE, "true");
}

#[test]
fn absence_turns_the_screen_off_after_the_grace_period() {
    let settings = config(600);
    let start = initial();
    assert_eq!(start.screen_state, ScreenState::AUTO);
    assert_eq!(start.presence.present, Present::YES);
    assert!(start.screen_on);

    let (pending, actions) = Event::dispatch_at(
        report("sensors", &[("hue_presence", "false")], 0),
        &start,
        &settings,
        at(0),
    );
    assert_eq!(pending.presence.present, Present::PENDING);
    assert!(pending.screen_on);
    assert_eq!(actions, Vec::<Action>::new());

    let (absent, actions) = Event::dispatch_at(
        report("sensors", &[("hue_presence", "false")], 601),
        &pending,
        &settings,
        at(601),
    );
    assert_eq!(absent.presence.present, Present::NO);
    assert!(!absent.screen_on);
    assert_eq!(actions, vec![Action::ScreenOff]);
    assert_eq!(absent.sensor_data.len(), 2);
}

#[test]
fn return_turns_the_screen_on_at_once() {
    let settings = config(600);
    let mut away = initial();
    away.presence.present = Present::NO;
    away.screen_on = false;
    let (back, actions) = Event::dispatch_at(
        report("sensors", &[("hue_presence", "true")], 5),
        &away,
        &settings,
        at(5),
    );
    assert_eq!(back.presence.present, Present::YES);
    assert!(back.screen_on);
    assert_eq!(actions, vec![Action::ScreenOn]);
}

#[test]
fn toggle_action_forces_the_screen_off() {
    let start = initial();
    let toggle = report("actions", &[("toggle_screen", "1")], 3);
    let (off, actions) = Event::dispatch_at(toggle, &start, &config(600), at(3));
    assert_eq!(off.screen_state, ScreenState::OFF);
    assert!(!off.screen_on);
    assert_eq!(actions, vec![Action::ScreenOff]);
    assert!(off.sensor_data.is_empty());
}

#[test]
fn toggle_action_on_a_dark_screen_emits_nothing() {
    let mut dark = initial();
    dark.presence.present = Present::NO;
    dark.screen_on = false;
    let toggle = report("actions", &[("toggle_screen", "")], 3);
    let (after, actions) = Event::dispatch_at(toggle, &dark, &config(600), at(3));
    assert_eq!(after.screen_state, ScreenState::AUTO);
    assert!(!after.screen_on);
    assert_eq!(actions, Vec::<Action>::new());
}

#[test]
fn toggle_action_from_off_shows_the_screen_again() {
    let mut off = initial();
    off.screen_state = ScreenState::OFF;
    off.screen_on = false;
    let toggle = report("actions", &[("toggle_screen", "x")], 3);
    let (shown, actions) = Event::dispatch_at(toggle, &off, &config(600), at(3));
    assert_eq!(shown.screen_state, ScreenState::AUTO);
    assert!(shown.screen_on);
    assert_eq!(actions, vec![Action::ScreenOn]);
}

#[test]
fn action_report_without_the_toggle_key_changes_nothing() {
    let start = initial();
    let after = handle_action(report("actions", &[("volume", "3")], 3), &start);
    assert_eq!(after.screen_state, ScreenState::AUTO);
    assert!(after.screen_on);
    assert!(after.sensor_data.is_empty());
    assert_eq!(after.presence, start.presence);
}

#[test]
fn action_report_is_not_stored() {
    let start = initial();
    let after = handle_action(report("actions", &[("toggle_screen", "1")], 3), &start);
    assert!(after.sensor_data.is_empty());
}

#[test]
fn sensor_report_without_presence_is_only_stored() {
    let start = initial();
    let after = handle_sensor_at(
        report("sensors", &[("cpu_temp", "40"), ("gpu_temp", "55")], 9),
        &start,
        &config(600),
        at(9),
    );
    assert_eq!(after.presence, start.presence);
    assert!(after.screen_on);
    assert_eq!(after.sensor_data.len(), 1);
    assert_eq!(after.sensor_data[0].reporter, "hue-sensor-agent");
    assert_eq!(after.sensor_data[0].received, at(9));
    assert_eq!(after.sensor_data[0].values.get("cpu_temp"), Some(&"40".to_string()));
    assert_eq!(after.sensor_data[0].values.get("gpu_temp"), Some(&"55".to_string()));
}

#[test]
fn sensor_report_with_presence_is_stored_too() {
    let start = initial();
    let after = handle_sensor_at(
        report("sensors", &[("hue_presence", "false"), ("hue_temperature", "21.5")], 9),
        &start,
        &config(600),
        at(12),
    );
    assert_eq!(
        after.presence,
        PresenceData { present: Present::PENDING, last_switch_to_false: at(12) }
    );
    assert_eq!(after.sensor_data.len(), 1);
    assert_eq!(after.sensor_data[0].values.get("hue_presence"), Some(&"false".to_string()));
    assert_eq!(after.sensor_data[0].values.get("hue_temperature"), Some(&"21.5".to_string()));
    assert_eq!(after.sensor_data[0].received, at(9));
}

#[test]
fn only_the_word_true_means_present() {
    let mut away = initial();
    away.presence.present = Present::NO;
    away.screen_on = false;
    for value in ["True", "1", "yes", "", " true", "false"] {
        let text = value.to_string();
        let after = handle_presence_at(&text, &away, &config(600), at(1));
        assert_eq!(after.presence.present, Present::NO);
        assert!(!after.screen_on);
    }
    let after = handle_presence_at(&"true".to_string(), &away, &config(600), at(1));
    assert_eq!(after.presence.present, Present::YES);
    assert!(after.screen_on);
}

#[test]
fn grace_period_comes_from_the_configuration() {
    let mut pending = initial();
    pending.presence = PresenceData { present: Present::PENDING, last_switch_to_false: at(100) };
    let text = "false".to_string();
    let short = handle_presence_at(&text, &pending, &config(5), at(106));
    assert_eq!(short.presence.present, Present::NO);
    let long = handle_presence_at(&text, &pending, &config(6), at(106));
    assert_eq!(long.presence.present, Present::PENDING);
}

#[test]
fn other_topics_leave_the_state_alone() {
    let start = initial();
    for topic in ["", "sensor", "Sensors", "actions ", "metrics"] {
        let (after, actions) = Event::dispatch_at(
            report(topic, &[("toggle_screen", "1"), ("hue_presence", "false")], 3),
            &start,
            &config(600),
            at(3),
        );
        assert_eq!(after.screen_state, start.screen_state);
        assert_eq!(after.screen_on, start.screen_on);
        assert_eq!(after.presence, start.presence);
        assert!(after.sensor_data.is_empty());
        assert_eq!(actions, Vec::<Action>::new());
    }
}

#[test]
fn presence_is_applied_while_the_screen_is_forced_off() {
    let mut off = initial();
    off.screen_state = ScreenState::OFF;
    off.screen_on = false;
    let (after, actions) = Event::dispatch_at(
        report("sensors", &[("hue_presence", "true")], 3),
        &off,
        &config(600),
        at(3),
    );
    assert_eq!(after.presence.present, Present::YES);
    assert_eq!(after.screen_state, ScreenState::OFF);
    assert!(!after.screen_on);
    assert_eq!(actions, Vec::<Action>::new());
}

#[test]
fn handling_leaves_the_old_state_alone() {
    let start = initial();
    let after = Event::handle_at(
        report("sensors", &[("hue_presence", "false")], 3),
        &start,
        &config(600),
        at(3),
    );
    assert_eq!(start.presence.present, Present::YES);
    assert!(start.sensor_data.is_empty());
    assert_eq!(after.presence.present, Present::PENDING);
    assert_eq!(after.sensor_data.len(), 1);
}

#[test]
fn history_of_the_state_is_bounded() {
    let settings = config(600);
    let mut current = initial();
    for n in 1..=501u64 {
        let number = n.to_string();
        let (next, _) = Event::dispatch_at(
            report("sensors", &[("n", number.as_str())], n),
            &current,
            &settings,
            at(n),
        );
        current = next;
    }
    assert_eq!(current.sensor_data.len(), 500);
    assert_eq!(current.sensor_data[0].values.get("n"), Some(&"2".to_string()));
    assert_eq!(current.sensor_data[499].values.get("n"), Some(&"501".to_string()));
}

#[test]
fn dispatch_by_the_clock_handles_toggle_and_sensors() {
    let settings = config(600);
    let start = initial();
    let toggle = report("actions", &[("toggle_screen", "1")], 3);
    let (off, actions) = Event::dispatch(toggle, &start, &settings);
    assert_eq!(off.screen_state, ScreenState::OFF);
    assert_eq!(actions, vec![Action::ScreenOff]);

    let departure = report("sensors", &[("hue_presence", "false")], 3);
    let pending = Event::handle(departure, &start, &settings);
    assert_eq!(pending.presence.present, Present::PENDING);
    assert!(pending.presence.last_switch_to_false.secs > 1_600_000_000);
    assert_eq!(pending.sensor_data.len(), 1);

    let mut stale = initial();
    stale.presence = PresenceData { present: Present::PENDING, last_switch_to_false: at(1000) };
    let (absent, actions) =
        Event::dispatch(report("sensors", &[("hue_presence", "false")], 3), &stale, &settings);
    assert_eq!(absent.presence.present, Present::NO);
    assert_eq!(actions, vec![Action::ScreenOff]);
}

#[test]
fn sensor_and_presence_handlers_by_the_clock() {
    let settings = config(600);
    let mut stale = initial();
    stale.presence = PresenceData { present: Present::PENDING, last_switch_to_false: at(1000) };
    let absent = handle_presence(&"false".to_string(), &stale, &settings);
    assert_eq!(absent.presence.present, Present::NO);
    assert!(!absent.screen_on);
    let sighting = report("sensors", &[("hue_presence", "true")], 8);
    let stored = handle_sensor(sighting, &stale, &settings);
    assert_eq!(stored.presence.present, Present::YES);
    assert_eq!(stored.sensor_data.len(), 1);
}
