use writeapp::store::{insert_flow_entry, FlowEntry, Storage};
use writeapp::state::glue_mode_status;
use writeapp::strutil::u64_to_dec_string;

fn entry(ts: u64, mins: u32, text: &str) -> FlowEntry {
    FlowEntry { timestamp_ms: ts, duration_minutes: mins, text: text.to_string() }
}

fn timestamps(h: &Vec<FlowEntry>) -> Vec<u64> {
    h.iter().map(|e| e.timestamp_ms).collect()
}

#[test]
fn insert_into_empty_history() {
    let mut h: Vec<FlowEntry> = Vec::new();
    insert_flow_entry(&mut h, entry(5, 1, "a"));
    assert_eq!(timestamps(&h), vec![5]);
}

#[test]
fn newer_entry_goes_first() {
    let mut h = vec![entry(5, 1, "old")];
    insert_flow_entry(&mut h, entry(10, 2, "new"));
    assert_eq!(timestamps(&h), vec![10, 5]);
    assert_eq!(h[0].text, "new");
}

#[test]
fn older_entry_goes_last() {
    let mut h = vec![entry(10, 1, "a"), entry(5, 1, "b")];
    insert_flow_entry(&mut h, entry(1, 1, "c"));
    assert_eq!(timestamps(&h), vec![10, 5, 1]);
}

#[test]
fn entry_lands_between_its_neighbours() {
    let mut h = vec![entry(10, 1, "a"), entry(5, 1, "b")];
    insert_flow_entry(&mut h, entry(7, 1, "c"));
    assert_eq!(timestamps(&h), vec![10, 7, 5]);
}

#[test]
fn equal_timestamp_lands_after_its_twin() {
    let mut h = vec![entry(10, 1, "first"), entry(5, 1, "tail")];
    insert_flow_entry(&mut h, entry(10, 2, "second"));
    assert_eq!(timestamps(&h), vec![10, 10, 5]);
    assert_eq!(h[0].text, "first");
    assert_eq!(h[1].text, "second");
}

#[test]
fn history_path_joins_content_dir() {
    assert_eq!(
        Storage::get_history_path("/home/me/Documents/WriteApp"),
        "/home/me/Documents/WriteApp/flow_history.json"
    );
}

#[test]
fn settings_path_joins_config_dir() {
    assert_eq!(
        Storage::get_settings_path("/home/me/.config/writeapp"),
        "/home/me/.config/writeapp/settings.json"
    );
}

#[test]
fn mode_status_label_is_bracketed() {
    assert_eq!(glue_mode_status("NORMAL"), "[NORMAL]");
    assert_eq!(glue_mode_status(""), "[]");
}

#[test]
fn decimal_notation_of_numbers() {
    assert_eq!(u64_to_dec_string(0), "0");
    assert_eq!(u64_to_dec_string(7), "7");
    assert_eq!(u64_to_dec_string(10), "10");
    assert_eq!(u64_to_dec_string(12345), "12345");
    assert_eq!(u64_to_dec_string(u64::MAX), "18446744073709551615");
}
