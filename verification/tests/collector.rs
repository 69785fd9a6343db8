use std::collections::HashMap;

use govee_collector::collector::Collector;
use govee_collector::collector::CollectorError;
use govee_collector::collector::Event;
use govee_collector::collector::FreshnessCache;
use govee_collector::collector::KnownDeviceIndex;
use govee_collector::collector::Reading;
use govee_collector::collector::govee_h5075::DeviceData;
use govee_collector::collector::govee_h5075::H5075_UPDATE_UUID16;
use govee_collector::device_database::DeviceDatabase;

fn sample_db() -> DeviceDatabase {
    DeviceDatabase::new(vec![
        ("GVH5075_1234".to_string(), "Living room".to_string()),
        ("GVH5075_5678".to_string(), "Porch".to_string()),
    ])
}

fn indoor_payload() -> HashMap<u16, Vec<u8>> {
    HashMap::from([(H5075_UPDATE_UUID16, vec![0x00, 0x03, 0x84, 0x7a, 0x39, 0x00])])
}

fn outdoor_payload() -> HashMap<u16, Vec<u8>> {
    HashMap::from([(H5075_UPDATE_UUID16, vec![0x00, 0x02, 0xB1, 0xFE, 0x34, 0x00])])
}

fn reading(data: &HashMap<u16, Vec<u8>>, ts: u64) -> Reading {
    Reading { data: DeviceData::decode(data).expect("decode failed"), timestamp_millis: ts }
}

#[test]
fn test_cache_put_then_get_returns_equal_reading() {
    let mut cache = FreshnessCache::new();
    let r = reading(&indoor_payload(), 1700000000000);
    cache.put("GVH5075_1234".to_string(), r);
    let got = cache.get(&"GVH5075_1234".to_string()).expect("missing entry");
    assert_eq!(got.data.temperature, r.data.temperature);
    assert_eq!(got.data.humidity, r.data.humidity);
    assert_eq!(got.data.battery, r.data.battery);
    assert_eq!(got.timestamp_millis, r.timestamp_millis);
    assert_eq!(*got, r);
}

#[test]
fn test_cache_last_write_wins() {
    let mut cache = FreshnessCache::new();
    let name = "GVH5075_1234".to_string();
    cache.put(name.clone(), reading(&indoor_payload(), 1));
    cache.put(name.clone(), reading(&outdoor_payload(), 2));
    let got = cache.get(&name).expect("missing entry");
    assert_eq!(got.data, DeviceData::decode(&outdoor_payload()).unwrap());
    assert_eq!(got.timestamp_millis, 2);
}

#[test]
fn test_cache_get_missing_name() {
    let cache = FreshnessCache::new();
    assert!(cache.get(&"GVH5075_1234".to_string()).is_none());
}

#[test]
fn test_known_device_index_register_and_lookup() {
    let mut index = KnownDeviceIndex::new();
    assert!(index.lookup(&"hci0/dev_A4".to_string()).is_none());
    index.register("hci0/dev_A4".to_string(), "GVH5075_1234".to_string());
    assert_eq!(index.lookup(&"hci0/dev_A4".to_string()), Some(&"GVH5075_1234".to_string()));
    // Re-registering the same pair is a no-op.
    index.register("hci0/dev_A4".to_string(), "GVH5075_1234".to_string());
    assert_eq!(index.lookup(&"hci0/dev_A4".to_string()), Some(&"GVH5075_1234".to_string()));
}

#[test]
fn test_device_seen_registers_and_caches() {
    let db = sample_db();
    let mut collector = Collector::new();
    collector.handle_event(
        &db,
        Event::DeviceSeen {
            id: "hci0/dev_A4".to_string(),
            local_name: Some("GVH5075_1234".to_string()),
            manufacturer_data: Some(indoor_payload()),
        },
        42,
    );
    let got = collector.get_latest_device_data(&"GVH5075_1234".to_string()).expect("no reading");
    assert_eq!(got.data, DeviceData::decode(&indoor_payload()).unwrap());
    assert_eq!(got.timestamp_millis, 42);
}

#[test]
fn test_device_seen_unconfigured_name_ignored() {
    let db = sample_db();
    let mut collector = Collector::new();
    collector.handle_event(
        &db,
        Event::DeviceSeen {
            id: "hci0/dev_FF".to_string(),
            local_name: Some("SomeOtherDevice".to_string()),
            manufacturer_data: Some(indoor_payload()),
        },
        42,
    );
    assert!(collector.get_latest_device_data(&"SomeOtherDevice".to_string()).is_none());
    // A later update from the unregistered identifier is dropped too.
    collector.handle_event(
        &db,
        Event::AdvertisementUpdate {
            id: "hci0/dev_FF".to_string(),
            manufacturer_data: indoor_payload(),
        },
        43,
    );
    assert!(collector.get_latest_device_data(&"SomeOtherDevice".to_string()).is_none());
}

#[test]
fn test_advertisement_update_from_known_device_overwrites() {
    let db = sample_db();
    let mut collector = Collector::new();
    collector.handle_event(
        &db,
        Event::DeviceSeen {
            id: "hci0/dev_A4".to_string(),
            local_name: Some("GVH5075_1234".to_string()),
            manufacturer_data: Some(indoor_payload()),
        },
        1,
    );
    collector.handle_event(
        &db,
        Event::AdvertisementUpdate {
            id: "hci0/dev_A4".to_string(),
            manufacturer_data: outdoor_payload(),
        },
        2,
    );
    let got = collector.get_latest_device_data(&"GVH5075_1234".to_string()).expect("no reading");
    assert_eq!(got.data, DeviceData::decode(&outdoor_payload()).unwrap());
    assert_eq!(got.timestamp_millis, 2);
}

#[test]
fn test_advertisement_update_unknown_id_dropped() {
    let db = sample_db();
    let mut collector = Collector::new();
    collector.handle_event(
        &db,
        Event::AdvertisementUpdate {
            id: "hci0/dev_A4".to_string(),
            manufacturer_data: indoor_payload(),
        },
        1,
    );
    assert!(collector.get_latest_device_data(&"GVH5075_1234".to_string()).is_none());
}

#[test]
fn test_decode_failure_leaves_cache_untouched() {
    let db = sample_db();
    let mut collector = Collector::new();
    collector.handle_event(
        &db,
        Event::DeviceSeen {
            id: "hci0/dev_A4".to_string(),
            local_name: Some("GVH5075_1234".to_string()),
            manufacturer_data: Some(indoor_payload()),
        },
        1,
    );
    // A malformed broadcast from the now-known device must not disturb the
    // cached reading.
    collector.handle_event(
        &db,
        Event::AdvertisementUpdate {
            id: "hci0/dev_A4".to_string(),
            manufacturer_data: HashMap::from([(H5075_UPDATE_UUID16, vec![0x10, 0x20, 0x30])]),
        },
        2,
    );
    let got = collector.get_latest_device_data(&"GVH5075_1234".to_string()).expect("no reading");
    assert_eq!(got.data, DeviceData::decode(&indoor_payload()).unwrap());
    assert_eq!(got.timestamp_millis, 1);
}

#[test]
fn test_device_database_lookups() {
    let db = sample_db();
    assert!(db.contains_device(&"GVH5075_1234".to_string()));
    assert!(!db.contains_device(&"GVH5075_9999".to_string()));
    assert_eq!(
        db.get_friendly_name(&"GVH5075_1234".to_string()),
        Some(&"Living room".to_string())
    );
    assert_eq!(db.get_friendly_name(&"GVH5075_9999".to_string()), None);
    let all = db.get_all_devices();
    assert_eq!(all, vec![&"GVH5075_1234".to_string(), &"GVH5075_5678".to_string()]);
}

#[test]
fn test_device_database_duplicate_name_first_wins() {
    let db = DeviceDatabase::new(vec![
        ("GVH5075_1234".to_string(), "Living room".to_string()),
        ("GVH5075_1234".to_string(), "Cellar".to_string()),
    ]);
    assert_eq!(
        db.get_friendly_name(&"GVH5075_1234".to_string()),
        Some(&"Living room".to_string())
    );
    assert_eq!(db.get_all_devices().len(), 1);
}

#[test]
fn test_collector_error_message() {
    assert_eq!(CollectorError::NoAdaptersFound.message(), "no adapters found");
}
