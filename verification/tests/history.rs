use sensor_panel::clock::Timestamp;
use sensor_panel::data::SensorData;
use sensor_panel::history::{append, HISTORY_CAPACITY};
use sensor_panel::measurements::Measurements;

fn numbered(n: usize) -> SensorData {
    let mut values = Measurements::new();
    values.insert("n".to_string(), n.to_string());
    SensorData {
        reporter: format!("reporter-{}", n % 3),
        values,
        received: Timestamp::from_secs(n as u64),
    }
}

fn number_of(data: &SensorData) -> String {
    data.values.get("n").unwrap().clone()
}

#[test]
fn capacity_is_five_hundred() {
    assert_eq!(HISTORY_CAPACITY, 500);
}

#[test]
fn append_adds_at_the_end() {
    let mut history = Vec::new();
    for n in 1..=3 {
        history = append(history, numbered(n));
    }
    assert_eq!(history.len(), 3);
    assert_eq!(number_of(&history[0]), "1");
    assert_eq!(number_of(&history[2]), "3");
    assert_eq!(history[2].reporter, "reporter-0");
    assert_eq!(history[2].received, Timestamp::from_secs(3));
}

#[test]
fn append_keeps_duplicates() {
    let mut history = Vec::new();
    history = append(history, numbered(1));
    history = append(history, numbered(1));
    assert_eq!(history.len(), 2);
    assert_eq!(number_of(&history[0]), number_of(&history[1]));
}

#[test]
fn five_hundred_reports_fit() {
    let mut history = Vec::new();
    for n in 1..=500 {
        history = append(history, numbered(n));
    }
    assert_eq!(history.len(), 500);
    assert_eq!(number_of(&history[0]), "1");
    assert_eq!(number_of(&history[499]), "500");
}

#[test]
fn report_501_evicts_the_first() {
    let mut history = Vec::new();
    for n in 1..=501 {
        history = append(history, numbered(n));
    }
    assert_eq!(history.len(), 500);
    assert_eq!(number_of(&history[0]), "2");
    assert_eq!(number_of(&history[1]), "3");
    assert_eq!(number_of(&history[499]), "501");
}

#[test]
fn each_append_to_a_full_history_evicts_one() {
    let mut history = Vec::new();
    for n in 1..=500 {
        history = append(history, numbered(n));
    }
    for n in 501..=520 {
        history = append(history, numbered(n));
        assert_eq!(history.len(), 500);
        assert_eq!(number_of(&history[0]), (n - 499).to_string());
        assert_eq!(number_of(&history[499]), n.to_string());
    }
}

#[test]
fn overlong_history_is_cut_to_capacity() {
    let mut history = Vec::new();
    for n in 1..=600 {
        history.push(numbered(n));
    }
    let history = append(history, numbered(601));
    assert_eq!(history.len(), 500);
    assert_eq!(number_of(&history[0]), "102");
    assert_eq!(number_of(&history[499]), "601");
}
