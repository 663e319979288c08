//! The fields of a submitted form: text values keyed by field name, in the
//! order the fields arrived, with each name at most once.

use vstd::prelude::*;
use crate::text::str_eq;

verus! {

/// The value stored under `key`, if any.
pub open spec fn lookup(entries: Seq<(Seq<char>, Seq<char>)>, key: Seq<char>) -> Option<Seq<char>>
    decreases entries.len(),
{
    if entries.len() == 0 {
        None
    } else if entries.last().0 == key {
        Some(entries.last().1)
    } else {
        lookup(entries.drop_last(), key)
    }
}

/// No field name occurs twice.
pub open spec fn keys_distinct(entries: Seq<(Seq<char>, Seq<char>)>) -> bool {
    forall|i: int, j: int|
        0 <= i < entries.len() && 0 <= j < entries.len() && i != j ==> entries[i].0 != entries[j].0
}

/// The entries after storing `value` under `key`: a known key keeps its place
/// and takes the new value, a new key comes last.
pub open spec fn insert_entry(entries: Seq<(Seq<char>, Seq<char>)>, key: Seq<char>, value: Seq<char>)
    -> Seq<(Seq<char>, Seq<char>)>
{
    if exists|i: int| 0 <= i < entries.len() && entries[i].0 == key {
        let i = choose|i: int| 0 <= i < entries.len() && entries[i].0 == key;
        entries.update(i, (key, value))
    } else {
        entries.push((key, value))
    }
}

/// After storing `value` under `key`, the form gives `value` for `key` and
/// what it gave before for every other name.
pub proof fn lemma_lookup_insert(
    entries: Seq<(Seq<char>, Seq<char>)>,
    key: Seq<char>,
    value: Seq<char>,
    other: Seq<char>,
)
    requires
        keys_distinct(entries),
    ensures
        lookup(insert_entry(entries, key, value), key) == Some(value),
        other != key ==> lookup(insert_entry(entries, key, value), other) == lookup(entries, other),
{
    let e2 = insert_entry(entries, key, value);
    if exists|i: int| 0 <= i < entries.len() && entries[i].0 == key {
        let i = choose|i: int| 0 <= i < entries.len() && entries[i].0 == key;
        assert(keys_distinct(e2)) by {
            assert forall|a: int, b: int|
                0 <= a < e2.len() && 0 <= b < e2.len() && a != b implies e2[a].0 != e2[b].0 by {
                assert(e2[a].0 == entries[a].0);
                assert(e2[b].0 == entries[b].0);
            }
        }
        lemma_lookup_at(e2, i);
        if other != key {
            if exists|j: int| 0 <= j < entries.len() && entries[j].0 == other {
                let j = choose|j: int| 0 <= j < entries.len() && entries[j].0 == other;
                lemma_lookup_at(entries, j);
                lemma_lookup_at(e2, j);
            } else {
                lemma_lookup_absent(entries, other);
                assert forall|j: int| 0 <= j < e2.len() implies e2[j].0 != other by {
                    assert(e2[j].0 == entries[j].0 || j == i);
                }
                lemma_lookup_absent(e2, other);
            }
        }
    } else {
        assert(e2.drop_last() =~= entries);
        assert(e2.last() == (key, value));
    }
}

/// What to do with a submitted field: upload its file to `bucket` and store
/// the file's address under the field name `stored_as`, or keep its text.
pub enum FieldAction {
    Upload { bucket: String, stored_as: String },
    Text,
}

/// Text form fields keyed by name.
pub struct FormFields {
    entries: Vec<(String, String)>,
}

impl View for FormFields {
    type V = Seq<(Seq<char>, Seq<char>)>;

    closed spec fn view(&self) -> Seq<(Seq<char>, Seq<char>)> {
        self.entries@.map_values(|e: (String, String)| (e.0@, e.1@))
    }
}

/// Where a key stands in distinct entries, `lookup` finds the value there.
pub proof fn lemma_lookup_at(entries: Seq<(Seq<char>, Seq<char>)>, i: int)
    requires
        keys_distinct(entries),
        0 <= i < entries.len(),
    ensures
        lookup(entries, entries[i].0) == Some(entries[i].1),
    decreases entries.len(),
{
    if i < entries.len() - 1 {
        let d = entries.drop_last();
        assert(d[i] == entries[i]);
        lemma_lookup_at(d, i);
    }
}

/// A key that no entry holds is looked up as absent.
pub proof fn lemma_lookup_absent(entries: Seq<(Seq<char>, Seq<char>)>, key: Seq<char>)
    requires
        forall|i: int| 0 <= i < entries.len() ==> entries[i].0 != key,
    ensures
        lookup(entries, key) is None,
    decreases entries.len(),
{
    if entries.len() > 0 {
        let d = entries.drop_last();
        assert forall|i: int| 0 <= i < d.len() implies d[i].0 != key by {
            assert(d[i] == entries[i]);
        }
        lemma_lookup_absent(d, key);
    }
}

impl FormFields {
    #[verifier::type_invariant]
    spec fn distinct_keys(&self) -> bool {
        keys_distinct(self@)
    }

    /// A form without fields.
    pub fn new() -> (f: FormFields)
        ensures
            f@ == Seq::<(Seq<char>, Seq<char>)>::empty(),
    {
        let f = FormFields { entries: Vec::new() };
        assert(f@ =~= Seq::<(Seq<char>, Seq<char>)>::empty());
        f
    }

    /// The number of fields.
    pub fn len(&self) -> (n: usize)
        ensures
            n == self@.len(),
            keys_distinct(self@),
    {
        proof {
            use_type_invariant(self);
        }
        self.entries.len()
    }

    /// The name and value of the field at `i`, in arrival order.
    pub fn entry(&self, i: usize) -> (e: (&String, &String))
        requires
            i < self@.len(),
        ensures
            (e.0@, e.1@) == self@[i as int],
    {
        let e = &self.entries[i];
        (&e.0, &e.1)
    }

    /// The position of the field named `key`, if there is one.
    fn position(&self, key: &str) -> (res: Option<usize>)
        ensures
            match res {
                Some(i) => i < self@.len() && self@[i as int].0 == key@,
                None => forall|i: int| 0 <= i < self@.len() ==> self@[i].0 != key@,
            },
    {
        let mut i: usize = 0;
        while i < self.entries.len()
            invariant
                i <= self.entries@.len(),
                self@.len() == self.entries@.len(),
                forall|j: int| 0 <= j < i ==> self@[j].0 != key@,
            decreases self.entries@.len() - i,
        {
            if str_eq(self.entries[i].0.as_str(), key) {
                return Some(i);
            }
            i = i + 1;
        }
        None
    }

    /// The value of the field named `key`, as `HashMap::get` gives it.
    pub fn get(&self, key: &str) -> (res: Option<&String>)
        ensures
            match res {
                Some(v) => lookup(self@, key@) == Some(v@),
                None => lookup(self@, key@) is None,
            },
    {
        proof {
            use_type_invariant(self);
        }
        match self.position(key) {
            Some(i) => {
                proof {
                    lemma_lookup_at(self@, i as int);
                }
                Some(&self.entries[i].1)
            },
            None => {
                proof {
                    lemma_lookup_absent(self@, key@);
                }
                None
            },
        }
    }

    /// The value of a field that the form has.
    pub fn field(&self, key: &str) -> (v: String)
        requires
            lookup(self@, key@) is Some,
        ensures
            v@ == lookup(self@, key@).unwrap(),
    {
        self.get(key).unwrap().clone()
    }

    /// Stores `value` under `key`, as `HashMap::insert` does.
    pub fn insert(&mut self, key: String, value: String)
        ensures
            final(self)@ == insert_entry(old(self)@, key@, value@),
            keys_distinct(old(self)@),
            keys_distinct(final(self)@),
    {
        proof {
            use_type_invariant(&*self);
        }
        let ghost old_view = self@;
        match self.position(key.as_str()) {
            Some(i) => {
                let ghost k = key@;
                let ghost v = value@;
                let mut entries: Vec<(String, String)> = Vec::new();
                std::mem::swap(&mut entries, &mut self.entries);
                entries.set(i, (key, value));
                let ghost new_view = entries@.map_values(|e: (String, String)| (e.0@, e.1@));
                assert(new_view =~= old_view.update(i as int, (k, v)));
                assert(keys_distinct(new_view)) by {
                    assert forall|a: int, b: int|
                        0 <= a < new_view.len() && 0 <= b < new_view.len() && a != b implies
                        new_view[a].0 != new_view[b].0 by {
                        assert(new_view[a].0 == old_view[a].0);
                        assert(new_view[b].0 == old_view[b].0);
                    }
                }
                self.entries = entries;
                assert(self@ =~= old_view.update(i as int, (k, v)));
                assert(insert_entry(old_view, k, v) == old_view.update(i as int, (k, v))) by {
                    let j = choose|j: int| 0 <= j < old_view.len() && old_view[j].0 == k;
                    assert(j == i);
                }
            },
            None => {
                let ghost k = key@;
                let ghost v = value@;
                let mut entries: Vec<(String, String)> = Vec::new();
                std::mem::swap(&mut entries, &mut self.entries);
                entries.push((key, value));
                let ghost new_view = entries@.map_values(|e: (String, String)| (e.0@, e.1@));
                assert(new_view =~= old_view.push((k, v)));
                assert(keys_distinct(new_view)) by {
                    assert forall|a: int, b: int|
                        0 <= a < new_view.len() && 0 <= b < new_view.len() && a != b implies
                        new_view[a].0 != new_view[b].0 by {
                        if a < old_view.len() {
                            assert(new_view[a] == old_view[a]);
                        }
                        if b < old_view.len() {
                            assert(new_view[b] == old_view[b]);
                        }
                    }
                }
                self.entries = entries;
                assert(self@ =~= old_view.push((k, v)));
            },
        }
    }
}

} // verus!
