//! An association table from names to values, with each name present at
//! most once. It backs the device database, the known-device index and
//! the freshness cache, and is abstracted as a `Map` from character
//! sequences to values.

use vstd::prelude::*;

verus! {

/// The mapping a sequence of name/value pairs denotes, later pairs winning.
pub open spec fn table_map_of<V>(s: Seq<(String, V)>) -> Map<Seq<char>, V>
    decreases s.len(),
{
    if s.len() == 0 {
        Map::empty()
    } else {
        table_map_of(s.drop_last()).insert(s.last().0@, s.last().1)
    }
}

/// No two pairs carry the same name.
pub open spec fn distinct_names<V>(s: Seq<(String, V)>) -> bool {
    forall|i: int, j: int| 0 <= i < j < s.len() ==> s[i].0@ != s[j].0@
}

proof fn lemma_table_map_contains<V>(s: Seq<(String, V)>, k: Seq<char>)
    ensures
        table_map_of(s).contains_key(k) <==> (exists|i: int| 0 <= i < s.len() && s[i].0@ == k),
    decreases s.len(),
{
    if s.len() > 0 {
        lemma_table_map_contains(s.drop_last(), k);
        if s.last().0@ == k {
            assert(s[s.len() - 1].0@ == k);
        } else {
            if exists|i: int| 0 <= i < s.len() && s[i].0@ == k {
                let i = choose|i: int| 0 <= i < s.len() && s[i].0@ == k;
                assert(i < s.len() - 1);
                assert(s.drop_last()[i].0@ == k);
            }
        }
    }
}

proof fn lemma_table_map_get<V>(s: Seq<(String, V)>, i: int)
    requires
        distinct_names(s),
        0 <= i < s.len(),
    ensures
        table_map_of(s).contains_key(s[i].0@),
        table_map_of(s)[s[i].0@] == s[i].1,
    decreases s.len(),
{
    if i == s.len() - 1 {
    } else {
        assert(s.drop_last()[i] == s[i]);
        lemma_table_map_get(s.drop_last(), i);
        assert(s[i].0@ != s.last().0@);
    }
}

proof fn lemma_table_map_update<V>(s: Seq<(String, V)>, i: int, p: (String, V))
    requires
        distinct_names(s),
        0 <= i < s.len(),
        p.0@ == s[i].0@,
    ensures
        table_map_of(s.update(i, p)) =~= table_map_of(s).insert(p.0@, p.1),
    decreases s.len(),
{
    let t = s.update(i, p);
    if i == s.len() - 1 {
        assert(t.drop_last() =~= s.drop_last());
        assert(t.last() == p);
    } else {
        assert(t.drop_last() =~= s.drop_last().update(i, p));
        assert(s.drop_last()[i] == s[i]);
        lemma_table_map_update(s.drop_last(), i, p);
        assert(t.last() == s.last());
        assert(s[i].0@ != s.last().0@);
    }
}

/// An association table whose abstract value is a map from name
/// character sequences to values.
pub struct NameTable<V> {
    entries: Vec<(String, V)>,
}

impl<V> View for NameTable<V> {
    type V = Map<Seq<char>, V>;

    closed spec fn view(&self) -> Map<Seq<char>, V> {
        table_map_of(self.entries@)
    }
}

impl<V> NameTable<V> {
    /// Well-formed: each name appears at most once.
    pub closed spec fn wf(&self) -> bool {
        distinct_names(self.entries@)
    }

    /// The names held, in insertion order.
    pub closed spec fn name_seq(&self) -> Seq<Seq<char>> {
        self.entries@.map_values(|p: (String, V)| p.0@)
    }

    /// A name is in the abstract map exactly when it is among the held names.
    pub proof fn lemma_name_seq_contains(&self, k: Seq<char>)
        ensures
            self@.contains_key(k) <==> self.name_seq().contains(k),
    {
        lemma_table_map_contains(self.entries@, k);
        if self.name_seq().contains(k) {
            let i = choose|i: int| 0 <= i < self.name_seq().len() && self.name_seq()[i] == k;
            assert(self.entries@[i].0@ == k);
        }
        if exists|i: int| 0 <= i < self.entries@.len() && self.entries@[i].0@ == k {
            let i = choose|i: int| 0 <= i < self.entries@.len() && self.entries@[i].0@ == k;
            assert(self.name_seq()[i] == k);
        }
    }

    /// An empty table.
    pub fn new() -> (t: NameTable<V>)
        ensures
            t@ == Map::<Seq<char>, V>::empty(),
            t.wf(),
            t.name_seq() == Seq::<Seq<char>>::empty(),
    {
        let t = NameTable { entries: Vec::new() };
        proof {
            assert(t.name_seq() =~= Seq::<Seq<char>>::empty());
        }
        t
    }

    /// How many names are held.
    pub fn len(&self) -> (n: usize)
        ensures
            n == self.name_seq().len(),
    {
        self.entries.len()
    }

    /// The name at a position, in insertion order.
    pub fn name_at(&self, i: usize) -> (r: &String)
        requires
            i < self.name_seq().len(),
        ensures
            r@ == self.name_seq()[i as int],
    {
        &self.entries[i].0
    }

    /// The position of a name, if it is held.
    fn find(&self, name: &String) -> (r: Option<usize>)
        ensures
            match r {
                Some(i) => i < self.entries@.len() && self.entries@[i as int].0@ == name@,
                None => forall|j: int|
                    0 <= j < self.entries@.len() ==> self.entries@[j].0@ != name@,
            },
    {
        let mut i: usize = 0;
        while i < self.entries.len()
            invariant
                i <= self.entries@.len(),
                forall|j: int| 0 <= j < i ==> self.entries@[j].0@ != name@,
            decreases self.entries@.len() - i,
        {
            if self.entries[i].0 == *name {
                return Some(i);
            }
            i = i + 1;
        }
        None
    }

    /// Whether a name is held.
    pub fn contains_name(&self, name: &String) -> (r: bool)
        ensures
            r == self@.contains_key(name@),
    {
        proof {
            lemma_table_map_contains(self.entries@, name@);
        }
        match self.find(name) {
            Some(_) => true,
            None => false,
        }
    }

    /// The value held under a name, if any.
    pub fn get(&self, name: &String) -> (r: Option<&V>)
        requires
            self.wf(),
        ensures
            match r {
                Some(v) => self@.contains_key(name@) && *v == self@[name@],
                None => !self@.contains_key(name@),
            },
    {
        proof {
            lemma_table_map_contains(self.entries@, name@);
        }
        match self.find(name) {
            Some(i) => {
                proof {
                    lemma_table_map_get(self.entries@, i as int);
                }
                Some(&self.entries[i].1)
            },
            None => None,
        }
    }

    /// Bind a name to a value, replacing any previous binding.
    pub fn insert(&mut self, name: String, value: V)
        requires
            old(self).wf(),
        ensures
            final(self).wf(),
            final(self)@ == old(self)@.insert(name@, value),
            old(self)@.contains_key(name@) ==> final(self).name_seq() == old(self).name_seq(),
            !old(self)@.contains_key(name@) ==> final(self).name_seq() == old(self).name_seq().push(
                name@,
            ),
    {
        proof {
            lemma_table_map_contains(self.entries@, name@);
        }
        let ghost old_entries = self.entries@;
        match self.find(&name) {
            Some(i) => {
                self.entries[i] = (name, value);
                proof {
                    assert(self.entries@ =~= old_entries.update(i as int, self.entries@[i as int]));
                    lemma_table_map_update(old_entries, i as int, self.entries@[i as int]);
                    assert(forall|a: int, b: int|
                        0 <= a < b < self.entries@.len() ==> self.entries@[a].0@
                            != self.entries@[b].0@) by {
                        assert(forall|a: int|
                            0 <= a < self.entries@.len() && a != i ==> self.entries@[a]
                                == old_entries[a]);
                    }
                    assert(self.name_seq() =~= old(self).name_seq());
                }
            },
            None => {
                self.entries.push((name, value));
                proof {
                    assert(self.entries@.drop_last() =~= old_entries);
                    assert(forall|a: int, b: int|
                        0 <= a < b < self.entries@.len() ==> self.entries@[a].0@
                            != self.entries@[b].0@) by {
                        assert(forall|a: int|
                            0 <= a < old_entries.len() ==> self.entries@[a] == old_entries[a]);
                    }
                    assert(self.name_seq() =~= old(self).name_seq().push(name@));
                }
            },
        }
    }
}

} // verus!
