//! A table of values by name.
use crate::text::same_text;
use vstd::prelude::*;

verus! {

/// Values by name. No name occurs twice.
#[derive(Debug)]
pub struct NameTable<V> {
    entries: Vec<(String, V)>,
}

/// Whether the entries of a table have pairwise different names.
pub open spec fn distinct_names<V>(entries: Seq<(String, V)>) -> bool {
    forall|i: int, j: int|
        0 <= i < j < entries.len() ==> (#[trigger] entries[i]).0@ != (#[trigger] entries[j]).0@
}

/// Whether an entry of that name is among the entries.
pub open spec fn has_name<V>(entries: Seq<(String, V)>, name: Seq<char>) -> bool {
    exists|i: int| 0 <= i < entries.len() && (#[trigger] entries[i]).0@ == name
}

/// The map that a list of entries with different names stands for.
pub open spec fn table_of<V>(entries: Seq<(String, V)>) -> Map<Seq<char>, V>
    decreases entries.len(),
{
    if entries.len() == 0 {
        Map::empty()
    } else {
        table_of(entries.drop_last()).insert(entries.last().0@, entries.last().1)
    }
}

impl<V> View for NameTable<V> {
    type V = Map<Seq<char>, V>;

    closed spec fn view(&self) -> Map<Seq<char>, V> {
        table_of(self.entries@)
    }
}

/// A list of entries with different names stands for the map of exactly these names, each with the
/// value of its entry.
pub proof fn law_table_holds_its_entries<V>(entries: Seq<(String, V)>)
    requires
        distinct_names(entries),
    ensures
        forall|name: Seq<char>| #[trigger]
            table_of(entries).contains_key(name) <==> has_name(entries, name),
        forall|i: int|
            0 <= i < entries.len() ==> table_of(entries)[(#[trigger] entries[i]).0@]
                == entries[i].1,
    decreases entries.len(),
{
    if entries.len() > 0 {
        let front = entries.drop_last();
        assert forall|i: int, j: int| 0 <= i < j < front.len() implies (#[trigger] front[i]).0@ != (
        #[trigger] front[j]).0@ by {
            assert(front[i] == entries[i] && front[j] == entries[j]);
        }
        law_table_holds_its_entries(front);
        assert forall|name: Seq<char>| #[trigger]
            table_of(entries).contains_key(name) <==> has_name(entries, name) by {
            assert(table_of(front).contains_key(name) <==> has_name(front, name));
            if has_name(front, name) {
                let i = choose|i: int| 0 <= i < front.len() && (#[trigger] front[i]).0@ == name;
                assert(entries[i].0@ == name);
            }
            if has_name(entries, name) {
                let i = choose|i: int| 0 <= i < entries.len() && (#[trigger] entries[i]).0@ == name;
                if i < front.len() {
                    assert(front[i].0@ == name);
                }
            }
            if name == entries.last().0@ {
                assert(entries[entries.len() - 1].0@ == name);
            }
        }
        assert forall|i: int| 0 <= i < entries.len() implies table_of(entries)[(
        #[trigger] entries[i]).0@] == entries[i].1 by {
            if i < front.len() {
                assert(front[i] == entries[i]);
            }
        }
    }
}

impl<V> NameTable<V> {
    #[verifier::type_invariant]
    spec fn well_formed(self) -> bool {
        distinct_names(self.entries@)
    }

    /// A table without entries.
    pub fn new() -> (table: Self)
        ensures
            table@ == Map::<Seq<char>, V>::empty(),
    {
        NameTable { entries: Vec::new() }
    }

    /// The entries, each with its name.
    pub fn entries(&self) -> (entries: &Vec<(String, V)>)
        ensures
            distinct_names(entries@),
            table_of(entries@) == self@,
    {
        proof {
            use_type_invariant(self);
        }
        &self.entries
    }

    /// The index of the entry of that name, or the number of entries where there is none.
    fn index_of(&self, name: &str) -> (at: usize)
        ensures
            at <= self.entries.len(),
            at < self.entries.len() ==> self.entries@[at as int].0@ == name@,
            at == self.entries.len() ==> !has_name(self.entries@, name@),
    {
        let mut at: usize = 0;
        while at < self.entries.len() && !same_text(self.entries[at].0.as_str(), name)
            invariant
                at <= self.entries.len(),
                forall|i: int| 0 <= i < at ==> (#[trigger] self.entries@[i]).0@ != name@,
            decreases self.entries.len() - at,
        {
            at = at + 1;
        }
        at
    }

    /// The value of that name.
    pub fn get(&self, name: &str) -> (value: Option<&V>)
        ensures
            match value {
                Some(v) => self@.contains_key(name@) && *v == self@[name@],
                None => !self@.contains_key(name@),
            },
    {
        proof {
            use_type_invariant(self);
            law_table_holds_its_entries(self.entries@);
        }
        let at = self.index_of(name);
        if at < self.entries.len() {
            Some(&self.entries[at].1)
        } else {
            None
        }
    }

    /// Gives a name a value, in place of the one that it had.
    pub fn insert(&mut self, name: String, value: V)
        ensures
            final(self)@ == old(self)@.insert(name@, value),
    {
        proof {
            use_type_invariant(&*self);
        }
        let at = self.index_of(name.as_str());
        let ghost before = self.entries@;
        let mut entries: Vec<(String, V)> = Vec::new();
        std::mem::swap(&mut entries, &mut self.entries);
        if at < entries.len() {
            entries.set(at, (name, value));
        } else {
            entries.push((name, value));
        }
        proof {
            let after = entries@;
            assert forall|i: int, j: int| 0 <= i < j < after.len() implies (
            #[trigger] after[i]).0@ != (#[trigger] after[j]).0@ by {
                if i < before.len() && j < before.len() {
                    assert(before[i].0@ != before[j].0@);
                }
            }
            law_table_holds_its_entries(before);
            law_table_holds_its_entries(after);
            assert forall|key: Seq<char>| #[trigger]
                table_of(after).contains_key(key) <==> table_of(before).insert(
                    name@,
                    value,
                ).contains_key(key) by {
                if has_name(before, key) {
                    let i = choose|i: int| 0 <= i < before.len() && (#[trigger] before[i]).0@ == key;
                    assert(after[i].0@ == key);
                }
                if key == name@ {
                    assert(after[at as int].0@ == key);
                }
                if has_name(after, key) && key != name@ {
                    let i = choose|i: int| 0 <= i < after.len() && (#[trigger] after[i]).0@ == key;
                    assert(before[i].0@ == key);
                }
            }
            assert forall|key: Seq<char>| #[trigger] table_of(after).contains_key(key) implies
                table_of(after)[key] == table_of(before).insert(name@, value)[key] by {
                let i = choose|i: int| 0 <= i < after.len() && (#[trigger] after[i]).0@ == key;
                if key == name@ {
                    assert(after[at as int].0@ == key);
                } else {
                    assert(before[i] == after[i]);
                }
            }
            assert(table_of(after) =~= table_of(before).insert(name@, value));
        }
        self.entries = entries;
    }
}

impl<V: Clone> Clone for NameTable<V> {
    fn clone(&self) -> (r: Self)
        ensures
            r@.dom() == self@.dom(),
            forall|name: Seq<char>| #[trigger]
                self@.contains_key(name) ==> cloned::<V>(self@[name], r@[name]),
    {
        proof {
            use_type_invariant(self);
        }
        let mut entries: Vec<(String, V)> = Vec::new();
        let mut at: usize = 0;
        while at < self.entries.len()
            invariant
                at == entries.len(),
                at <= self.entries.len(),
                forall|i: int| 0 <= i < at ==> (#[trigger] entries@[i]).0 == self.entries@[i].0,
                forall|i: int|
                    0 <= i < at ==> cloned::<V>(self.entries@[i].1, (#[trigger] entries@[i]).1),
            decreases self.entries.len() - at,
        {
            entries.push((self.entries[at].0.clone(), self.entries[at].1.clone()));
            at = at + 1;
        }
        proof {
            let before = self.entries@;
            let after = entries@;
            assert forall|i: int, j: int| 0 <= i < j < after.len() implies (
            #[trigger] after[i]).0@ != (#[trigger] after[j]).0@ by {
                assert(before[i].0@ != before[j].0@);
            }
            law_table_holds_its_entries(before);
            law_table_holds_its_entries(after);
            assert forall|name: Seq<char>| #[trigger]
                table_of(after).contains_key(name) <==> table_of(before).contains_key(name) by {
                if has_name(before, name) {
                    let i = choose|i: int| 0 <= i < before.len() && (#[trigger] before[i]).0@ == name;
                    assert(after[i].0@ == name);
                }
                if has_name(after, name) {
                    let i = choose|i: int| 0 <= i < after.len() && (#[trigger] after[i]).0@ == name;
                    assert(before[i].0@ == name);
                }
            }
            assert forall|name: Seq<char>| #[trigger]
                table_of(before).contains_key(name) implies cloned::<V>(
                table_of(before)[name],
                table_of(after)[name],
            ) by {
                let i = choose|i: int| 0 <= i < before.len() && (#[trigger] before[i]).0@ == name;
                assert(after[i].0@ == name);
            }
        }
        NameTable { entries }
    }
}

} // verus!
