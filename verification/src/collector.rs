//! Ingestion of radio advertisements: device identity registration and
//! the freshness cache of latest readings.
//!
//! The event feed itself (radio scanning, delivery, scheduling) lives
//! outside this crate; what stands here is the decision logic applied to
//! each event, as a function from the collector's state and the event to
//! the next state.

pub mod govee_h5075;

use std::collections::HashMap;
use vstd::prelude::*;

use crate::collector::govee_h5075::DeviceData;
use crate::collector::govee_h5075::H5075_UPDATE_UUID16;
use crate::collector::govee_h5075::decoded_of;
use crate::collector::govee_h5075::valid_payload;
use crate::device_database::DeviceDatabase;
use crate::name_table::NameTable;

verus! {

/// Why the collector could not be brought up.
#[derive(Debug, Copy, Clone, PartialEq, Eq, Structural)]
pub enum CollectorError {
    /// The platform reported no radio adapters.
    NoAdaptersFound,
}

impl CollectorError {
    /// A short human-readable description of the error.
    pub fn message(&self) -> (m: &'static str)
        ensures
            m@ == "no adapters found"@,
    {
        match self {
            CollectorError::NoAdaptersFound => "no adapters found",
        }
    }
}

/// A decoded reading together with the moment it was captured, in
/// milliseconds since the Unix epoch. Immutable once constructed.
#[derive(Debug, Copy, Clone, PartialEq, Eq, Structural)]
pub struct Reading {
    pub data: DeviceData,
    pub timestamp_millis: u64,
}

/// Latest reading per broadcast name; every write replaces the whole
/// entry (last write wins), and nothing is ever evicted.
pub struct FreshnessCache {
    table: NameTable<Reading>,
}

impl View for FreshnessCache {
    type V = Map<Seq<char>, Reading>;

    closed spec fn view(&self) -> Map<Seq<char>, Reading> {
        self.table@
    }
}

impl FreshnessCache {
    /// Well-formed: one entry per broadcast name.
    pub closed spec fn wf(&self) -> bool {
        self.table.wf()
    }

    /// An empty cache.
    pub fn new() -> (c: FreshnessCache)
        ensures
            c.wf(),
            c@ == Map::<Seq<char>, Reading>::empty(),
    {
        FreshnessCache { table: NameTable::new() }
    }

    /// Store the latest reading for a broadcast name, replacing any
    /// previous one wholesale.
    pub fn put(&mut self, name: String, reading: Reading)
        requires
            old(self).wf(),
        ensures
            final(self).wf(),
            final(self)@ == old(self)@.insert(name@, reading),
    {
        self.table.insert(name, reading);
    }

    /// The latest reading stored for a broadcast name, if any.
    pub fn get(&self, name: &String) -> (r: Option<&Reading>)
        requires
            self.wf(),
        ensures
            match r {
                Some(rd) => self@.contains_key(name@) && *rd == self@[name@],
                None => !self@.contains_key(name@),
            },
    {
        self.table.get(name)
    }
}

/// Law: storing a reading under a name and immediately looking that name
/// up yields that very reading, every field included. Stated over the
/// model that `put` and `get` are specified against.
pub proof fn lemma_put_then_get(cache: Map<Seq<char>, Reading>, name: Seq<char>, reading: Reading)
    ensures
        cache.insert(name, reading).contains_key(name),
        cache.insert(name, reading)[name] == reading,
{
}

/// Grow-only registry from an adapter's opaque device identifier to the
/// device's broadcast name. Entries are never removed while the process
/// lives.
pub struct KnownDeviceIndex {
    table: NameTable<String>,
}

impl View for KnownDeviceIndex {
    type V = Map<Seq<char>, String>;

    closed spec fn view(&self) -> Map<Seq<char>, String> {
        self.table@
    }
}

impl KnownDeviceIndex {
    /// Well-formed: one entry per device identifier.
    pub closed spec fn wf(&self) -> bool {
        self.table.wf()
    }

    /// An empty index.
    pub fn new() -> (x: KnownDeviceIndex)
        ensures
            x.wf(),
            x@ == Map::<Seq<char>, String>::empty(),
    {
        KnownDeviceIndex { table: NameTable::new() }
    }

    /// Bind a device identifier to a broadcast name. Re-registering the
    /// same pair is a no-op; membership only ever grows.
    pub fn register(&mut self, id: String, local_name: String)
        requires
            old(self).wf(),
        ensures
            final(self).wf(),
            final(self)@ == old(self)@.insert(id@, local_name),
            forall|k: Seq<char>|
                old(self)@.contains_key(k) ==> final(self)@.contains_key(k),
    {
        self.table.insert(id, local_name);
    }

    /// The broadcast name a device identifier is bound to, if any.
    pub fn lookup(&self, id: &String) -> (r: Option<&String>)
        requires
            self.wf(),
        ensures
            match r {
                Some(n) => self@.contains_key(id@) && *n == self@[id@],
                None => !self@.contains_key(id@),
            },
    {
        self.table.get(id)
    }
}

/// One event from the radio's advertisement feed, reduced to the plain
/// values the decision logic reads.
#[allow(inconsistent_fields)]
pub enum Event {
    /// A device came into radio range or was (re)discovered.
    DeviceSeen {
        id: String,
        local_name: Option<String>,
        manufacturer_data: Option<HashMap<u16, Vec<u8>>>,
    },
    /// A periodic broadcast from an already-seen device.
    AdvertisementUpdate { id: String, manufacturer_data: HashMap<u16, Vec<u8>> },
}

/// The known-device index after one event: a `DeviceSeen` carrying a
/// configured broadcast name registers the identifier; nothing else
/// changes the index.
pub open spec fn known_after(
    known: Map<Seq<char>, String>,
    db: Map<Seq<char>, String>,
    event: Event,
) -> Map<Seq<char>, String> {
    match event {
        Event::DeviceSeen { id, local_name, manufacturer_data } => match local_name {
            Some(name) => if db.contains_key(name@) {
                known.insert(id@, name)
            } else {
                known
            },
            None => known,
        },
        Event::AdvertisementUpdate { .. } => known,
    }
}

/// The cache after one event: a decodable payload from a configured
/// (`DeviceSeen`) or already-known (`AdvertisementUpdate`) device
/// overwrites that device's entry; everything else, a decode failure
/// included, leaves the cache untouched.
pub open spec fn cache_after(
    known: Map<Seq<char>, String>,
    db: Map<Seq<char>, String>,
    cache: Map<Seq<char>, Reading>,
    event: Event,
    now_millis: u64,
) -> Map<Seq<char>, Reading> {
    match event {
        Event::DeviceSeen { id, local_name, manufacturer_data } => match (
            local_name,
            manufacturer_data,
        ) {
            (Some(name), Some(m)) => if db.contains_key(name@) && valid_payload(m@) {
                cache.insert(
                    name@,
                    Reading {
                        data: decoded_of(m@[H5075_UPDATE_UUID16]@),
                        timestamp_millis: now_millis,
                    },
                )
            } else {
                cache
            },
            _ => cache,
        },
        Event::AdvertisementUpdate { id, manufacturer_data } => {
            if known.contains_key(id@) && valid_payload(manufacturer_data@) {
                cache.insert(
                    known[id@]@,
                    Reading {
                        data: decoded_of(manufacturer_data@[H5075_UPDATE_UUID16]@),
                        timestamp_millis: now_millis,
                    },
                )
            } else {
                cache
            }
        },
    }
}

/// Every registered identifier is bound to a configured broadcast name.
pub open spec fn names_within(
    known: Map<Seq<char>, String>,
    db: Map<Seq<char>, String>,
) -> bool {
    forall|k: Seq<char>| known.contains_key(k) ==> db.contains_key(known[k]@)
}

/// Every cached broadcast name is configured.
pub open spec fn cache_within(
    cache: Map<Seq<char>, Reading>,
    db: Map<Seq<char>, String>,
) -> bool {
    forall|k: Seq<char>| cache.contains_key(k) ==> db.contains_key(k)
}

/// The collector's accumulated state: the identity registry and the
/// freshness cache, both written only by the ingestion loop.
pub struct Collector {
    known_devices: KnownDeviceIndex,
    device_data: FreshnessCache,
}

impl Collector {
    /// The identity registry's abstract mapping.
    pub closed spec fn known(&self) -> Map<Seq<char>, String> {
        self.known_devices@
    }

    /// The cache's abstract mapping.
    pub closed spec fn cache(&self) -> Map<Seq<char>, Reading> {
        self.device_data@
    }

    /// Well-formed: both tables hold each key at most once.
    pub closed spec fn wf(&self) -> bool {
        self.known_devices.wf() && self.device_data.wf()
    }

    /// A fresh collector with nothing seen and nothing cached.
    pub fn new() -> (c: Collector)
        ensures
            c.wf(),
            c.known() == Map::<Seq<char>, String>::empty(),
            c.cache() == Map::<Seq<char>, Reading>::empty(),
    {
        Collector { known_devices: KnownDeviceIndex::new(), device_data: FreshnessCache::new() }
    }

    /// Apply one advertisement event: register identity on a configured
    /// `DeviceSeen`, and overwrite the cache entry on every decodable
    /// payload from a configured or known device. Decode failures are
    /// swallowed; an update for an unknown identifier is dropped. The
    /// known-device index only ever grows.
    pub fn handle_event(
        &mut self,
        device_database: &DeviceDatabase,
        event: Event,
        now_millis: u64,
    )
        requires
            old(self).wf(),
            device_database.wf(),
        ensures
            final(self).wf(),
            final(self).known() == known_after(old(self).known(), device_database@, event),
            final(self).cache() == cache_after(
                old(self).known(),
                device_database@,
                old(self).cache(),
                event,
                now_millis,
            ),
            forall|k: Seq<char>|
                old(self).known().contains_key(k) ==> final(self).known().contains_key(k),
            names_within(old(self).known(), device_database@) ==> names_within(
                final(self).known(),
                device_database@,
            ),
            names_within(old(self).known(), device_database@) && cache_within(
                old(self).cache(),
                device_database@,
            ) ==> cache_within(final(self).cache(), device_database@),
    {
        match event {
            Event::DeviceSeen { id, local_name, manufacturer_data } => {
                if let Some(name) = local_name {
                    if device_database.contains_device(&name) {
                        self.known_devices.register(id, name.clone());
                        if let Some(m) = manufacturer_data {
                            match DeviceData::decode(&m) {
                                Ok(d) => {
                                    self.device_data.put(
                                        name,
                                        Reading { data: d, timestamp_millis: now_millis },
                                    );
                                },
                                Err(_) => {},
                            }
                        }
                    }
                }
            },
            Event::AdvertisementUpdate { id, manufacturer_data } => {
                let local_name = match self.known_devices.lookup(&id) {
                    Some(n) => Some(n.clone()),
                    None => None,
                };
                if let Some(name) = local_name {
                    match DeviceData::decode(&manufacturer_data) {
                        Ok(d) => {
                            self.device_data.put(
                                name,
                                Reading { data: d, timestamp_millis: now_millis },
                            );
                        },
                        Err(_) => {},
                    }
                }
            },
        }
    }

    /// The latest cached reading for a broadcast name, if any.
    pub fn get_latest_device_data(&self, local_name: &String) -> (r: Option<&Reading>)
        requires
            self.wf(),
        ensures
            match r {
                Some(rd) => self.cache().contains_key(local_name@) && *rd
                    == self.cache()[local_name@],
                None => !self.cache().contains_key(local_name@),
            },
    {
        self.device_data.get(local_name)
    }
}

} // verus!
