//! Small tables keyed by strings, and sets of strings.

use vstd::prelude::*;

verus! {

/// A table from strings to values, in order of first insertion.
pub struct Table<V> {
    pub entries: Vec<(String, V)>,
}

/// Whether a key occurs among the entries.
pub open spec fn has_key<V>(entries: Seq<(String, V)>, key: Seq<char>) -> bool {
    exists|i: int| 0 <= i < entries.len() && #[trigger] entries[i].0@ == key
}

/// The value of the first entry with the key.
pub open spec fn lookup<V>(entries: Seq<(String, V)>, key: Seq<char>) -> Option<V>
    decreases entries.len(),
{
    if entries.len() == 0 {
        None
    } else if entries[0].0@ == key {
        Some(entries[0].1)
    } else {
        lookup(entries.drop_first(), key)
    }
}

impl<V> Table<V> {
    /// The value that a key leads to.
    pub open spec fn at(self, key: Seq<char>) -> Option<V> {
        lookup(self.entries@, key)
    }

    /// No key has an entry.
    pub open spec fn is_blank(self) -> bool {
        forall|key: Seq<char>| #[trigger] self.at(key) is None
    }

    pub fn new() -> (table: Self)
        ensures
            table.entries@.len() == 0,
            table.is_blank(),
    {
        Table { entries: Vec::new() }
    }

    /// Where the key's entry stands.
    fn position(&self, key: &str) -> (at: Option<usize>)
        ensures
            match at {
                Some(i) => i < self.entries.len() && self.entries@[i as int].0@ == key@
                    && self.at(key@) == Some(self.entries@[i as int].1) && forall|j: int|
                    0 <= j < i ==> (#[trigger] self.entries@[j]).0@ != key@,
                None => self.at(key@) is None && forall|j: int|
                    0 <= j < self.entries.len() ==> (#[trigger] self.entries@[j]).0@ != key@,
            },
    {
        let mut i: usize = 0;
        assert(self.entries@.skip(0) == self.entries@);
        let wanted = key.to_owned();
        while i < self.entries.len()
            invariant
                i <= self.entries.len(),
                wanted@ == key@,
                self.at(key@) == lookup(self.entries@.skip(i as int), key@),
                forall|j: int| 0 <= j < i ==> (#[trigger] self.entries@[j]).0@ != key@,
            decreases self.entries.len() - i,
        {
            assert(self.entries@.skip(i as int).drop_first() == self.entries@.skip(i + 1));
            if self.entries[i].0 == wanted {
                return Some(i);
            }
            i += 1;
        }
        None
    }

    pub fn get(&self, key: &str) -> (value: Option<&V>)
        ensures
            match value {
                Some(v) => self.at(key@) == Some(*v),
                None => self.at(key@) is None,
            },
    {
        match self.position(key) {
            Some(i) => Some(&self.entries[i].1),
            None => None,
        }
    }

    pub fn contains_key(&self, key: &str) -> (found: bool)
        ensures
            found == (self.at(key@) is Some),
    {
        self.position(key).is_some()
    }

    /// Gives the key a value in place of the one it had.
    pub fn insert(&mut self, key: String, value: V)
        ensures
            forall|other: Seq<char>| #[trigger]
                final(self).at(other) == if other == key@ {
                    Some(value)
                } else {
                    old(self).at(other)
                },
    {
        let ghost before = self.entries@;
        match self.position(key.as_str()) {
            Some(i) => {
                let ghost k = self.entries@[i as int].0;
                self.entries[i].1 = value;
                assert(self.entries@ == before.update(i as int, (k, value)));
                assert forall|other: Seq<char>| #[trigger]
                    self.at(other) == if other == key@ {
                        Some(value)
                    } else {
                        lookup(before, other)
                    } by {
                    lookup_update(before, i as int, value, other);
                }
            },
            None => {
                self.entries.push((key, value));
                assert forall|other: Seq<char>| #[trigger]
                    self.at(other) == if other == key@ {
                        Some(value)
                    } else {
                        lookup(before, other)
                    } by {
                    lookup_push(before, (key, value), other);
                    lookup_absent(before, key@);
                }
            },
        }
    }

    /// Takes the key out.
    pub fn remove(&mut self, key: &str)
        ensures
            forall|other: Seq<char>| #[trigger]
                final(self).at(other) == if other == key@ {
                    None
                } else {
                    old(self).at(other)
                },
    {
        let ghost before = self.entries@;
        let wanted = key.to_owned();
        let mut i: usize = 0;
        while i < self.entries.len()
            invariant
                i <= self.entries.len(),
                wanted@ == key@,
                forall|j: int| 0 <= j < i ==> (#[trigger] self.entries@[j]).0@ != key@,
                forall|other: Seq<char>|
                    other != key@ ==> #[trigger] lookup(self.entries@, other) == lookup(
                        before,
                        other,
                    ),
            decreases self.entries.len() - i,
        {
            if self.entries[i].0 == wanted {
                let ghost held = self.entries@;
                self.entries.remove(i);
                assert forall|other: Seq<char>| other != key@ implies #[trigger] lookup(
                    self.entries@,
                    other,
                ) == lookup(before, other) by {
                    lookup_remove(held, i as int, other);
                    assert(lookup(held, other) == lookup(before, other));
                }
            } else {
                i += 1;
            }
        }
        proof {
            lookup_absent(self.entries@, key@);
        }
    }
}

/// A key leads to a value exactly where it occurs.
pub proof fn lookup_has_key<V>(entries: Seq<(String, V)>, key: Seq<char>)
    ensures
        lookup(entries, key) is Some <==> has_key(entries, key),
    decreases entries.len(),
{
    if entries.len() > 0 {
        let rest = entries.drop_first();
        lookup_has_key(rest, key);
        if has_key(rest, key) {
            let k = choose|k: int| 0 <= k < rest.len() && #[trigger] rest[k].0@ == key;
            assert(entries[k + 1].0@ == key);
        }
        if has_key(entries, key) && entries[0].0@ != key {
            let k = choose|k: int| 0 <= k < entries.len() && #[trigger] entries[k].0@ == key;
            assert(rest[k - 1].0@ == key);
        }
    }
}

proof fn lookup_absent<V>(entries: Seq<(String, V)>, key: Seq<char>)
    requires
        forall|j: int| 0 <= j < entries.len() ==> (#[trigger] entries[j]).0@ != key,
    ensures
        lookup(entries, key) is None,
    decreases entries.len(),
{
    if entries.len() > 0 {
        assert forall|j: int| 0 <= j < entries.drop_first().len() implies (
        #[trigger] entries.drop_first()[j]).0@ != key by {
            assert(entries.drop_first()[j] == entries[j + 1]);
        }
        lookup_absent(entries.drop_first(), key);
    }
}

pub proof fn lookup_push<V>(entries: Seq<(String, V)>, entry: (String, V), key: Seq<char>)
    ensures
        lookup(entries.push(entry), key) == match lookup(entries, key) {
            Some(v) => Some(v),
            None => if entry.0@ == key { Some(entry.1) } else { None },
        },
    decreases entries.len(),
{
    reveal_with_fuel(lookup, 2);
    if entries.len() > 0 {
        assert(entries.push(entry).drop_first() == entries.drop_first().push(entry));
        lookup_push(entries.drop_first(), entry, key);
    } else {
        assert(entries.push(entry).drop_first() == Seq::<(String, V)>::empty());
    }
}

proof fn lookup_update<V>(entries: Seq<(String, V)>, i: int, value: V, key: Seq<char>)
    requires
        0 <= i < entries.len(),
        forall|j: int| 0 <= j < i ==> (#[trigger] entries[j]).0@ != entries[i].0@,
    ensures
        lookup(entries.update(i, (entries[i].0, value)), key) == if key == entries[i].0@ {
            Some(value)
        } else {
            lookup(entries, key)
        },
    decreases entries.len(),
{
    let changed = entries.update(i, (entries[i].0, value));
    if i == 0 {
        assert(changed.drop_first() == entries.drop_first());
    } else {
        let rest = entries.drop_first();
        assert(changed.drop_first() == rest.update(i - 1, (rest[i - 1].0, value)));
        assert forall|j: int| 0 <= j < i - 1 implies (#[trigger] rest[j]).0@ != rest[i - 1].0@ by {
            assert(rest[j] == entries[j + 1]);
        }
        assert(entries[0].0@ != entries[i].0@);
        lookup_update(rest, i - 1, value, key);
    }
}

proof fn lookup_remove<V>(entries: Seq<(String, V)>, i: int, key: Seq<char>)
    requires
        0 <= i < entries.len(),
        entries[i].0@ != key,
    ensures
        lookup(entries.remove(i), key) == lookup(entries, key),
    decreases entries.len(),
{
    if i == 0 {
        assert(entries.remove(0) == entries.drop_first());
    } else {
        assert(entries.remove(i).drop_first() == entries.drop_first().remove(i - 1));
        lookup_remove(entries.drop_first(), i - 1, key);
    }
}

/// Whether a string is among the given ones.
pub open spec fn has_string(items: Seq<String>, item: Seq<char>) -> bool {
    exists|i: int| 0 <= i < items.len() && #[trigger] items[i]@ == item
}

pub fn contains_string(items: &Vec<String>, item: &str) -> (found: bool)
    ensures
        found == has_string(items@, item@),
{
    let wanted = item.to_owned();
    let mut i: usize = 0;
    while i < items.len()
        invariant
            i <= items.len(),
            wanted@ == item@,
            forall|j: int| 0 <= j < i ==> (#[trigger] items@[j])@ != item@,
        decreases items.len() - i,
    {
        if items[i] == wanted {
            assert(items@[i as int]@ == item@);
            return true;
        }
        i += 1;
    }
    false
}

/// Adds a string unless it is there.
pub fn insert_string(items: &mut Vec<String>, item: String) -> (added: bool)
    ensures
        added == !has_string(old(items)@, item@),
        final(items)@ == if added { old(items)@.push(item) } else { old(items)@ },
        forall|s: Seq<char>| #[trigger]
            has_string(final(items)@, s) == (has_string(old(items)@, s) || s == item@),
{
    let ghost before = items@;
    if contains_string(items, item.as_str()) {
        return false;
    }
    items.push(item);
    assert forall|s: Seq<char>| #[trigger]
        has_string(items@, s) == (has_string(before, s) || s == item@) by {
        if has_string(before, s) {
            let i = choose|i: int| 0 <= i < before.len() && #[trigger] before[i]@ == s;
            assert(items@[i]@ == s);
        }
        if s == item@ {
            assert(items@[before.len() as int]@ == s);
        }
    }
    true
}

/// Takes a string out.
pub fn remove_string(items: &mut Vec<String>, item: &str)
    ensures
        forall|s: Seq<char>| #[trigger]
            has_string(final(items)@, s) == (has_string(old(items)@, s) && s != item@),
{
    let ghost before = items@;
    let wanted = item.to_owned();
    let mut i: usize = 0;
    while i < items.len()
        invariant
            i <= items.len(),
            wanted@ == item@,
            forall|j: int| 0 <= j < i ==> (#[trigger] items@[j])@ != item@,
            forall|s: Seq<char>|
                s != item@ ==> #[trigger] has_string(items@, s) == has_string(before, s),
        decreases items.len() - i,
    {
        if items[i] == wanted {
            let ghost held = items@;
            items.remove(i);
            assert forall|s: Seq<char>| s != item@ implies #[trigger] has_string(items@, s)
                == has_string(before, s) by {
                assert(has_string(held, s) == has_string(before, s));
                if has_string(held, s) {
                    let k = choose|k: int| 0 <= k < held.len() && #[trigger] held[k]@ == s;
                    if k < i {
                        assert(items@[k]@ == s);
                    } else {
                        assert(items@[k - 1]@ == s);
                    }
                }
                if has_string(items@, s) {
                    let k = choose|k: int| 0 <= k < items@.len() && #[trigger] items@[k]@ == s;
                    if k < i {
                        assert(held[k]@ == s);
                    } else {
                        assert(held[k + 1]@ == s);
                    }
                }
            }
        } else {
            i += 1;
        }
    }
}

} // verus!
