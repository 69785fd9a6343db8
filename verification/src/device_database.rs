//! The configured device set: a read-only mapping from a device's
//! broadcast name to its user-chosen friendly name, treated as an
//! immutable snapshot for the life of the process.

use vstd::prelude::*;

use crate::name_table::NameTable;

verus! {

/// The broadcast names of a pair sequence, in order of first occurrence,
/// each name once.
pub open spec fn first_names(devices: Seq<(String, String)>) -> Seq<Seq<char>>
    decreases devices.len(),
{
    if devices.len() == 0 {
        Seq::empty()
    } else {
        let rest = first_names(devices.drop_last());
        if rest.contains(devices.last().0@) {
            rest
        } else {
            rest.push(devices.last().0@)
        }
    }
}

proof fn lemma_first_names_membership(devices: Seq<(String, String)>, k: Seq<char>)
    ensures
        first_names(devices).contains(k) <==> (exists|i: int|
            0 <= i < devices.len() && devices[i].0@ == k),
    decreases devices.len(),
{
    if devices.len() > 0 {
        let prefix = devices.drop_last();
        lemma_first_names_membership(prefix, k);
        let rest = first_names(prefix);
        let full = first_names(devices);
        assert(forall|i: int| 0 <= i < prefix.len() ==> prefix[i] == devices[i]);
        if full.contains(k) {
            if rest.contains(k) {
                let i = choose|i: int| 0 <= i < prefix.len() && prefix[i].0@ == k;
                assert(devices[i].0@ == k);
            } else {
                assert(full == rest.push(devices.last().0@));
                let j = choose|j: int| 0 <= j < full.len() && full[j] == k;
                if j < rest.len() {
                    assert(rest[j] == k);
                    assert(rest.contains(k));
                }
                assert(devices[devices.len() - 1].0@ == k);
            }
        }
        if exists|i: int| 0 <= i < devices.len() && devices[i].0@ == k {
            let i = choose|i: int| 0 <= i < devices.len() && devices[i].0@ == k;
            if i < devices.len() - 1 {
                assert(prefix[i].0@ == k);
                assert(rest.contains(k));
                if !rest.contains(devices.last().0@) {
                    assert(full == rest.push(devices.last().0@));
                    let j = choose|j: int| 0 <= j < rest.len() && rest[j] == k;
                    assert(full[j] == k);
                }
            } else {
                assert(devices.last().0@ == k);
                if rest.contains(k) {
                    assert(full == rest);
                } else {
                    assert(full == rest.push(k));
                    assert(full[rest.len() as int] == k);
                }
            }
        }
    }
}

proof fn lemma_first_names_step(devices: Seq<(String, String)>, i: int)
    requires
        0 <= i < devices.len(),
    ensures
        first_names(devices.take(i + 1)) == if first_names(devices.take(i)).contains(
            devices[i].0@,
        ) {
            first_names(devices.take(i))
        } else {
            first_names(devices.take(i)).push(devices[i].0@)
        },
{
    assert(devices.take(i + 1).drop_last() =~= devices.take(i));
    assert(devices.take(i + 1).last() == devices[i]);
}

proof fn lemma_new_step(
    devices: Seq<(String, String)>,
    i: int,
    pre_map: Map<Seq<char>, String>,
    pre_names: Seq<Seq<char>>,
    post_map: Map<Seq<char>, String>,
    post_names: Seq<Seq<char>>,
)
    requires
        0 <= i < devices.len(),
        pre_names == first_names(devices.take(i)),
        pre_names.contains(devices[i].0@) ==> post_map == pre_map && post_names == pre_names,
        !pre_names.contains(devices[i].0@) ==> post_map == pre_map.insert(
            devices[i].0@,
            devices[i].1,
        ) && post_names == pre_names.push(devices[i].0@),
        forall|j: int|
            0 <= j < i && (forall|l: int|
                0 <= l < j ==> devices[l].0@ != devices[j].0@) ==> pre_map.contains_key(
                devices[j].0@,
            ) && pre_map[devices[j].0@] == devices[j].1,
    ensures
        post_names == first_names(devices.take(i + 1)),
        forall|j: int|
            0 <= j < i + 1 && (forall|l: int|
                0 <= l < j ==> devices[l].0@ != devices[j].0@) ==> post_map.contains_key(
                devices[j].0@,
            ) && post_map[devices[j].0@] == devices[j].1,
{
    let k = devices[i].0@;
    lemma_first_names_step(devices, i);
    lemma_first_names_membership(devices.take(i), k);
    assert(forall|l: int| 0 <= l < i ==> devices.take(i)[l] == devices[l]);
    if pre_names.contains(k) {
        let w = choose|l: int| 0 <= l < i && devices.take(i)[l].0@ == k;
        assert forall|j: int|
            0 <= j < i + 1 && (forall|l: int|
                0 <= l < j ==> devices[l].0@ != devices[j].0@) implies post_map.contains_key(
            devices[j].0@,
        ) && post_map[devices[j].0@] == devices[j].1 by {
            if j == i {
                assert(devices[w].0@ == devices[i].0@);
                assert(false);
            }
        }
    } else {
        assert(forall|l: int| 0 <= l < i ==> devices[l].0@ != k);
        assert forall|j: int|
            0 <= j < i + 1 && (forall|l: int|
                0 <= l < j ==> devices[l].0@ != devices[j].0@) implies post_map.contains_key(
            devices[j].0@,
        ) && post_map[devices[j].0@] == devices[j].1 by {
            if j < i {
                assert(pre_map.contains_key(devices[j].0@) && pre_map[devices[j].0@]
                    == devices[j].1);
                assert(devices[j].0@ != k);
            }
        }
    }
}

/// Read-only mapping from broadcast name to friendly name.
pub struct DeviceDatabase {
    local_name_to_device: NameTable<String>,
}

impl View for DeviceDatabase {
    type V = Map<Seq<char>, String>;

    closed spec fn view(&self) -> Map<Seq<char>, String> {
        self.local_name_to_device@
    }
}

impl DeviceDatabase {
    /// Well-formed: each broadcast name is configured at most once.
    pub closed spec fn wf(&self) -> bool {
        self.local_name_to_device.wf()
    }

    /// The configured broadcast names, in the order they were loaded.
    pub closed spec fn name_seq(&self) -> Seq<Seq<char>> {
        self.local_name_to_device.name_seq()
    }

    /// A name is configured exactly when it is among the loaded names.
    pub proof fn lemma_name_seq_contains(&self, k: Seq<char>)
        ensures
            self@.contains_key(k) <==> self.name_seq().contains(k),
    {
        self.local_name_to_device.lemma_name_seq_contains(k);
    }

    /// Build the database from broadcast-name/friendly-name pairs. When a
    /// broadcast name repeats, its first pair wins and the rest are ignored.
    #[verifier::rlimit(100)]
    pub fn new(devices: Vec<(String, String)>) -> (db: DeviceDatabase)
        ensures
            db.wf(),
            forall|k: Seq<char>|
                db@.contains_key(k) <==> (exists|i: int|
                    0 <= i < devices@.len() && devices@[i].0@ == k),
            forall|i: int|
                0 <= i < devices@.len() && (forall|j: int|
                    0 <= j < i ==> devices@[j].0@ != devices@[i].0@) ==> db@.contains_key(
                    devices@[i].0@,
                ) && db@[devices@[i].0@] == devices@[i].1,
            db.name_seq() == first_names(devices@),
    {
        let mut table: NameTable<String> = NameTable::new();
        let mut i: usize = 0;
        while i < devices.len()
            invariant
                i <= devices@.len(),
                table.wf(),
                forall|j: int|
                    0 <= j < i && (forall|l: int|
                        0 <= l < j ==> devices@[l].0@ != devices@[j].0@) ==> table@.contains_key(
                        devices@[j].0@,
                    ) && table@[devices@[j].0@] == devices@[j].1,
                table.name_seq() == first_names(devices@.take(i as int)),
            decreases devices@.len() - i,
        {
            let name = devices[i].0.clone();
            let friendly = devices[i].1.clone();
            let ghost pre = table;
            let contained = table.contains_name(&name);
            if !contained {
                table.insert(name, friendly);
            }
            proof {
                pre.lemma_name_seq_contains(devices@[i as int].0@);
                lemma_new_step(
                    devices@,
                    i as int,
                    pre@,
                    pre.name_seq(),
                    table@,
                    table.name_seq(),
                );
            }
            i = i + 1;
        }
        proof {
            assert(devices@.take(devices@.len() as int) =~= devices@);
            assert forall|k: Seq<char>|
                table@.contains_key(k) <==> (exists|j: int|
                    0 <= j < devices@.len() && devices@[j].0@ == k) by {
                table.lemma_name_seq_contains(k);
                lemma_first_names_membership(devices@, k);
            }
        }
        DeviceDatabase { local_name_to_device: table }
    }

    /// Whether a broadcast name is configured.
    pub fn contains_device(&self, local_name: &String) -> (r: bool)
        ensures
            r == self@.contains_key(local_name@),
    {
        self.local_name_to_device.contains_name(local_name)
    }

    /// The friendly name configured for a broadcast name, if any.
    pub fn get_friendly_name(&self, local_name: &String) -> (r: Option<&String>)
        requires
            self.wf(),
        ensures
            match r {
                Some(f) => self@.contains_key(local_name@) && *f == self@[local_name@],
                None => !self@.contains_key(local_name@),
            },
    {
        self.local_name_to_device.get(local_name)
    }

    /// All configured broadcast names, in the order they were loaded.
    /// Every returned name is configured.
    pub fn get_all_devices(&self) -> (r: Vec<&String>)
        ensures
            r@.len() == self.name_seq().len(),
            forall|i: int| 0 <= i < r@.len() ==> r@[i]@ == self.name_seq()[i],
            forall|i: int| 0 <= i < r@.len() ==> self@.contains_key(r@[i]@),
    {
        let mut names: Vec<&String> = Vec::new();
        let n = self.local_name_to_device.len();
        let mut i: usize = 0;
        while i < n
            invariant
                i <= n,
                n == self.name_seq().len(),
                names@.len() == i,
                forall|j: int| 0 <= j < i ==> names@[j]@ == self.name_seq()[j],
            decreases n - i,
        {
            names.push(self.local_name_to_device.name_at(i));
            i = i + 1;
        }
        proof {
            assert forall|j: int| 0 <= j < names@.len() implies self@.contains_key(
                names@[j]@,
            ) by {
                assert(self.name_seq()[j] == names@[j]@);
                assert(self.name_seq().contains(names@[j]@));
                self.local_name_to_device.lemma_name_seq_contains(names@[j]@);
            }
        }
        names
    }
}

} // verus!
