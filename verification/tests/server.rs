use std::collections::HashMap;

use govee_collector::collector::Collector;
use govee_collector::collector::Event;
use govee_collector::collector::govee_h5075::DeviceData;
use govee_collector::collector::govee_h5075::H5075_UPDATE_UUID16;
use govee_collector::device_database::DeviceDatabase;
use govee_collector::server::get_device_data;
use govee_collector::server::stream_device_data::SessionState;
use govee_collector::server::utils::DeviceEntry;
use govee_collector::server::utils::extract_device_data;
use govee_collector::server::utils::resolve_unique_ids;

fn sample_db() -> DeviceDatabase {
    DeviceDatabase::new(vec![
        ("GVH5075_1234".to_string(), "Living room".to_string()),
        ("GVH5075_5678".to_string(), "Porch".to_string()),
    ])
}

fn indoor_payload() -> HashMap<u16, Vec<u8>> {
    HashMap::from([(H5075_UPDATE_UUID16, vec![0x00, 0x03, 0x84, 0x7a, 0x39, 0x00])])
}

fn sample_entry() -> DeviceEntry {
    DeviceEntry {
        unique_id: "GVH5075_1234".to_string(),
        friendly_name: "Living room".to_string(),
        temperature_tenths: Some(230),
        humidity_tenths: Some(522),
        battery: Some(57),
        last_update_timestamp: Some(42),
    }
}

#[test]
fn test_resolve_unique_ids_passes_nonempty_input_through() {
    let db = sample_db();
    let ids = vec!["GVH5075_5678".to_string(), "GVH5075_0000".to_string()];
    assert_eq!(resolve_unique_ids(&db, ids.clone()), ids);
}

#[test]
fn test_resolve_unique_ids_empty_means_all_configured() {
    let db = sample_db();
    assert_eq!(
        resolve_unique_ids(&db, vec![]),
        vec!["GVH5075_1234".to_string(), "GVH5075_5678".to_string()]
    );
}

#[test]
fn test_extract_device_data_rows() {
    let db = sample_db();
    let mut collector = Collector::new();
    collector.handle_event(
        &db,
        Event::DeviceSeen {
            id: "hci0/dev_A4".to_string(),
            local_name: Some("GVH5075_1234".to_string()),
            manufacturer_data: Some(indoor_payload()),
        },
        42,
    );
    let ids = vec![
        "GVH5075_1234".to_string(),
        "GVH5075_5678".to_string(),
        "GVH5075_9999".to_string(),
    ];
    let rows = extract_device_data(&collector, &db, &ids);
    // One row with the cached reading, one with empty measurement fields
    // for the configured-but-silent device; the unconfigured identifier
    // is omitted.
    assert_eq!(rows.len(), 2);
    assert_eq!(rows[0], sample_entry());
    assert_eq!(
        rows[1],
        DeviceEntry {
            unique_id: "GVH5075_5678".to_string(),
            friendly_name: "Porch".to_string(),
            temperature_tenths: None,
            humidity_tenths: None,
            battery: None,
            last_update_timestamp: None,
        }
    );
    let decoded = DeviceData::decode(&indoor_payload()).unwrap();
    assert_eq!(rows[0].temperature_tenths, Some(decoded.temperature_tenths()));
}

#[test]
fn test_get_device_data_empty_request_returns_all_configured() {
    let db = sample_db();
    let mut collector = Collector::new();
    collector.handle_event(
        &db,
        Event::DeviceSeen {
            id: "hci0/dev_A4".to_string(),
            local_name: Some("GVH5075_1234".to_string()),
            manufacturer_data: Some(indoor_payload()),
        },
        42,
    );
    let rows = get_device_data(&collector, &db, vec![]);
    assert_eq!(rows.len(), 2);
    assert_eq!(rows[0], sample_entry());
    assert_eq!(rows[1].unique_id, "GVH5075_5678".to_string());
    assert_eq!(rows[1].battery, None);
}

#[test]
fn test_get_device_data_specific_request() {
    let db = sample_db();
    let collector = Collector::new();
    let rows = get_device_data(
        &collector,
        &db,
        vec!["GVH5075_5678".to_string(), "GVH5075_9999".to_string()],
    );
    assert_eq!(rows.len(), 1);
    assert_eq!(rows[0].unique_id, "GVH5075_5678".to_string());
    assert_eq!(rows[0].friendly_name, "Porch".to_string());
    assert_eq!(rows[0].temperature_tenths, None);
}

#[test]
fn test_extract_device_data_empty_request_gives_no_rows() {
    let db = sample_db();
    let collector = Collector::new();
    let rows = extract_device_data(&collector, &db, &vec![]);
    assert!(rows.is_empty());
}

#[test]
fn test_poll_burst_starts_exactly_one_refresh() {
    let mut s = SessionState::new();
    let first = s.on_poll();
    assert!(first.start_refresh);
    assert!(first.output.is_none());
    // A burst of further polls while that refresh is in flight starts
    // nothing more.
    let mut started: u32 = if first.start_refresh { 1 } else { 0 };
    for _ in 0..10 {
        let a = s.on_poll();
        if a.start_refresh {
            started += 1;
        }
        assert!(a.output.is_none());
    }
    assert_eq!(started, 1);
}

#[test]
fn test_first_cycle_is_eager_then_rate_limited() {
    let mut s = SessionState::new();
    // The very first cycle skips the interval sleep.
    let first = s.on_poll();
    assert!(first.start_refresh);
    assert!(!first.sleep_first);
    // The refresh completes and must resume the parked consumer.
    let wake = s.on_refresh_done(vec![sample_entry()]);
    assert!(wake);
    // The next poll takes the buffered snapshot and starts a refresh that
    // sleeps the full interval first.
    let second = s.on_poll();
    assert_eq!(second.output, Some(vec![sample_entry()]));
    assert!(second.start_refresh);
    assert!(second.sleep_first);
}

#[test]
fn test_snapshot_is_taken_exactly_once() {
    let mut s = SessionState::new();
    let _ = s.on_poll();
    let _ = s.on_refresh_done(vec![sample_entry()]);
    let a = s.on_poll();
    assert!(a.output.is_some());
    let b = s.on_poll();
    assert!(b.output.is_none());
}

#[test]
fn test_disconnect_clears_parked_continuation() {
    let mut s = SessionState::new();
    let _ = s.on_poll();
    s.on_disconnect();
    // The refresh that was already in flight completes, but there is no
    // consumer left to resume.
    let wake = s.on_refresh_done(vec![sample_entry()]);
    assert!(!wake);
}
