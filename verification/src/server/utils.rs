//! Snapshot assembly: resolving which devices a request asks about and
//! extracting their current readings from the cache.

use vstd::prelude::*;

use crate::collector::Collector;
use crate::collector::Reading;
use crate::collector::cache_within;
use crate::device_database::DeviceDatabase;

verus! {

/// One row of a snapshot: a configured device's identity together with
/// its latest reading, or with empty measurement fields when nothing has
/// been cached for it yet.
#[derive(Debug, Clone, PartialEq, Eq)]
pub struct DeviceEntry {
    pub unique_id: String,
    pub friendly_name: String,
    pub temperature_tenths: Option<i32>,
    pub humidity_tenths: Option<u16>,
    pub battery: Option<u8>,
    pub last_update_timestamp: Option<u64>,
}

/// The requested identifiers that are configured, in request order:
/// exactly those a snapshot reports, unconfigured ones being omitted.
pub open spec fn kept_ids(db: Map<Seq<char>, String>, ids: Seq<String>) -> Seq<Seq<char>>
    decreases ids.len(),
{
    if ids.len() == 0 {
        Seq::empty()
    } else {
        let rest = kept_ids(db, ids.drop_last());
        if db.contains_key(ids.last()@) {
            rest.push(ids.last()@)
        } else {
            rest
        }
    }
}

/// What the snapshot row for a configured identifier must hold: the
/// identifier itself, its configured friendly name, and either every
/// field of the cached reading or, with nothing cached yet, no
/// measurement at all.
pub open spec fn entry_matches(
    cache: Map<Seq<char>, Reading>,
    db: Map<Seq<char>, String>,
    id: Seq<char>,
    e: DeviceEntry,
) -> bool {
    &&& e.unique_id@ == id
    &&& db.contains_key(id)
    &&& e.friendly_name@ == db[id]@
    &&& if cache.contains_key(id) {
        &&& e.temperature_tenths == Some(cache[id].data.temperature)
        &&& e.humidity_tenths == Some(cache[id].data.humidity)
        &&& e.battery == Some(cache[id].data.battery)
        &&& e.last_update_timestamp == Some(cache[id].timestamp_millis)
    } else {
        &&& e.temperature_tenths is None
        &&& e.humidity_tenths is None
        &&& e.battery is None
        &&& e.last_update_timestamp is None
    }
}

/// The identifiers a request asks about: the request's own list, or
/// every configured device when the list is empty, each of which is then
/// known to be configured.
pub fn resolve_unique_ids(device_database: &DeviceDatabase, input: Vec<String>) -> (r: Vec<
    String,
>)
    ensures
        input@.len() > 0 ==> r == input,
        input@.len() == 0 ==> r@.len() == device_database.name_seq().len() && (forall|i: int|
            0 <= i < r@.len() ==> r@[i]@ == device_database.name_seq()[i]
                && device_database@.contains_key(r@[i]@)),
{
    if !input.is_empty() {
        return input;
    }
    let all = device_database.get_all_devices();
    let mut out: Vec<String> = Vec::new();
    let mut i: usize = 0;
    while i < all.len()
        invariant
            i <= all@.len(),
            all@.len() == device_database.name_seq().len(),
            forall|j: int|
                0 <= j < all@.len() ==> all@[j]@ == device_database.name_seq()[j]
                    && device_database@.contains_key(all@[j]@),
            out@.len() == i,
            forall|j: int|
                0 <= j < i ==> out@[j]@ == device_database.name_seq()[j]
                    && device_database@.contains_key(out@[j]@),
        decreases all@.len() - i,
    {
        let ghost prev = out@;
        out.push(all[i].clone());
        proof {
            assert forall|j: int|
                0 <= j <= i as int implies out@[j]@ == device_database.name_seq()[j]
                && device_database@.contains_key(out@[j]@) by {
                if j < i as int {
                    assert(out@[j] == prev[j]);
                } else {
                    assert(out@[j]@ == all@[j]@);
                }
            }
        }
        i = i + 1;
    }
    out
}

/// Assemble one snapshot row per requested, configured identifier, in
/// request order. An identifier with a cached reading carries every
/// field of that reading; a configured identifier with nothing cached
/// yet appears with empty measurement fields; an unconfigured identifier
/// is silently omitted. A cached but unconfigured identifier would be an
/// internal-consistency violation and is ruled out up front.
pub fn extract_device_data(
    collector: &Collector,
    device_database: &DeviceDatabase,
    unique_ids: &Vec<String>,
) -> (r: Vec<DeviceEntry>)
    requires
        collector.wf(),
        device_database.wf(),
        cache_within(collector.cache(), device_database@),
    ensures
        r@.len() == kept_ids(device_database@, unique_ids@).len(),
        forall|i: int|
            0 <= i < r@.len() ==> entry_matches(
                collector.cache(),
                device_database@,
                kept_ids(device_database@, unique_ids@)[i],
                r@[i],
            ),
{
    let mut devices: Vec<DeviceEntry> = Vec::new();
    let mut i: usize = 0;
    while i < unique_ids.len()
        invariant
            i <= unique_ids@.len(),
            collector.wf(),
            device_database.wf(),
            cache_within(collector.cache(), device_database@),
            devices@.len() == kept_ids(device_database@, unique_ids@.take(i as int)).len(),
            forall|j: int|
                0 <= j < devices@.len() ==> entry_matches(
                    collector.cache(),
                    device_database@,
                    kept_ids(device_database@, unique_ids@.take(i as int))[j],
                    devices@[j],
                ),
        decreases unique_ids@.len() - i,
    {
        let local_name = &unique_ids[i];
        match collector.get_latest_device_data(local_name) {
            Some(reading) => {
                let rd = *reading;
                match device_database.get_friendly_name(local_name) {
                    Some(f) => {
                        devices.push(
                            DeviceEntry {
                                unique_id: local_name.clone(),
                                friendly_name: f.clone(),
                                temperature_tenths: Some(rd.data.temperature),
                                humidity_tenths: Some(rd.data.humidity),
                                battery: Some(rd.data.battery),
                                last_update_timestamp: Some(rd.timestamp_millis),
                            },
                        );
                    },
                    None => {
                        proof {
                            assert(false);
                        }
                    },
                }
            },
            None => {
                match device_database.get_friendly_name(local_name) {
                    Some(f) => {
                        devices.push(
                            DeviceEntry {
                                unique_id: local_name.clone(),
                                friendly_name: f.clone(),
                                temperature_tenths: None,
                                humidity_tenths: None,
                                battery: None,
                                last_update_timestamp: None,
                            },
                        );
                    },
                    None => {},
                }
            },
        }
        proof {
            assert(unique_ids@.take(i + 1).drop_last() =~= unique_ids@.take(i as int));
            assert(unique_ids@.take(i + 1).last() == unique_ids@[i as int]);
        }
        i = i + 1;
    }
    proof {
        assert(unique_ids@.take(unique_ids@.len() as int) =~= unique_ids@);
    }
    devices
}

} // verus!
