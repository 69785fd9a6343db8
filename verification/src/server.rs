//! Serving cached readings to callers. The RPC transport and wire
//! encoding live outside this crate; what stands here is the snapshot
//! assembly shared by the pull and push interfaces, and the per-session
//! state machine of the push interface.

pub mod stream_device_data;
pub mod utils;

use vstd::prelude::*;

use crate::collector::Collector;
use crate::collector::cache_within;
use crate::device_database::DeviceDatabase;
use crate::server::utils::DeviceEntry;
use crate::server::utils::entry_matches;
use crate::server::utils::extract_device_data;
use crate::server::utils::kept_ids;
use crate::server::utils::resolve_unique_ids;

verus! {

proof fn lemma_kept_ids_all_configured(db: Map<Seq<char>, String>, ids: Seq<String>)
    requires
        forall|i: int| 0 <= i < ids.len() ==> db.contains_key(ids[i]@),
    ensures
        kept_ids(db, ids).len() == ids.len(),
        forall|i: int| 0 <= i < ids.len() ==> kept_ids(db, ids)[i] == ids[i]@,
    decreases ids.len(),
{
    if ids.len() > 0 {
        assert(forall|i: int| 0 <= i < ids.len() - 1 ==> ids.drop_last()[i] == ids[i]);
        lemma_kept_ids_all_configured(db, ids.drop_last());
        assert(db.contains_key(ids.last()@));
        assert(kept_ids(db, ids) == kept_ids(db, ids.drop_last()).push(ids.last()@));
    }
}

/// Answer one pull request: one snapshot row per requested, configured
/// identifier, or per configured device when the request names none,
/// following the same per-row resolution rules as the push interface.
pub fn get_device_data(
    collector: &Collector,
    device_database: &DeviceDatabase,
    unique_ids: Vec<String>,
) -> (r: Vec<DeviceEntry>)
    requires
        collector.wf(),
        device_database.wf(),
        cache_within(collector.cache(), device_database@),
    ensures
        unique_ids@.len() > 0 ==> r@.len() == kept_ids(device_database@, unique_ids@).len() && (
        forall|i: int|
            0 <= i < r@.len() ==> entry_matches(
                collector.cache(),
                device_database@,
                kept_ids(device_database@, unique_ids@)[i],
                r@[i],
            )),
        unique_ids@.len() == 0 ==> r@.len() == device_database.name_seq().len() && (forall|i: int|
            0 <= i < r@.len() ==> entry_matches(
                collector.cache(),
                device_database@,
                device_database.name_seq()[i],
                r@[i],
            )),
{
    let ghost requested = unique_ids@;
    let ids = resolve_unique_ids(device_database, unique_ids);
    let r = extract_device_data(collector, device_database, &ids);
    proof {
        if requested.len() == 0 {
            assert forall|i: int| 0 <= i < ids@.len() implies device_database@.contains_key(
                ids@[i]@,
            ) by {
                assert(ids@[i]@ == device_database.name_seq()[i]);
            }
            lemma_kept_ids_all_configured(device_database@, ids@);
        }
    }
    r
}

} // verus!
