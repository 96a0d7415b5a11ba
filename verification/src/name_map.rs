//! An insertion-ordered map from names to values.
//!
//! Emitters walk these maps, so the order of the entries is part of the value:
//! an entry keeps the place at which its name was first inserted.

use vstd::prelude::*;

verus! {

/// The entries of a map, in order.
pub type Entries<T> = Seq<(Seq<char>, T)>;

/// The position of the first entry called `name`, or the number of entries if
/// there is none.
pub open spec fn position_of<T>(entries: Entries<T>, name: Seq<char>) -> nat
    decreases entries.len(),
{
    if entries.len() == 0 || entries.first().0 == name {
        0
    } else {
        1 + position_of(entries.drop_first(), name)
    }
}

/// Whether some entry is called `name`.
pub open spec fn has_name<T>(entries: Entries<T>, name: Seq<char>) -> bool {
    position_of(entries, name) < entries.len()
}

/// The value of the first entry called `name`.
pub open spec fn lookup<T>(entries: Entries<T>, name: Seq<char>) -> Option<T> {
    if has_name(entries, name) {
        Some(entries[position_of(entries, name) as int].1)
    } else {
        None
    }
}

/// `entries` after `name` is bound to `value`: an entry of that name is
/// replaced where it stands, otherwise a new entry is added at the end.
pub open spec fn upsert<T>(entries: Entries<T>, name: Seq<char>, value: T) -> Entries<T> {
    if has_name(entries, name) {
        entries.update(position_of(entries, name) as int, (name, value))
    } else {
        entries.push((name, value))
    }
}

/// No two entries share a name.
pub open spec fn names_distinct<T>(entries: Entries<T>) -> bool {
    forall|i: int, j: int|
        0 <= i < j < entries.len() ==> (#[trigger] entries[i]).0 != (#[trigger] entries[j]).0
}

/// `position_of` is in range, points at an entry of that name when inside
/// `entries`, and no earlier entry has the name.
pub proof fn lemma_position_of<T>(entries: Entries<T>, name: Seq<char>)
    ensures
        position_of(entries, name) <= entries.len(),
        has_name(entries, name) ==> entries[position_of(entries, name) as int].0 == name,
        forall|i: int| 0 <= i < position_of(entries, name) ==> (#[trigger] entries[i]).0 != name,
    decreases entries.len(),
{
    if entries.len() == 0 || entries.first().0 == name {
    } else {
        lemma_position_of(entries.drop_first(), name);
        assert forall|i: int| 0 <= i < position_of(entries, name) implies (#[trigger] entries[i]).0
            != name by {
            if i > 0 {
                assert(entries.drop_first()[i - 1] == entries[i]);
            }
        }
    }
}

/// Binding a name keeps names distinct.
pub proof fn lemma_upsert_distinct<T>(entries: Entries<T>, name: Seq<char>, value: T)
    requires
        names_distinct(entries),
    ensures
        names_distinct(upsert(entries, name, value)),
        has_name(upsert(entries, name, value), name),
        lookup(upsert(entries, name, value), name) == Some(value),
{
    lemma_position_of(entries, name);
    let after = upsert(entries, name, value);
    let p = position_of(entries, name) as int;
    assert(after[p] == (name, value));
    assert forall|k: int| 0 <= k < p implies (#[trigger] after[k]).0 != name by {
        assert(after[k] == entries[k]);
    }
    lemma_position_of(after, name);
    if position_of(after, name) < p {
        assert(after[position_of(after, name) as int].0 != name);
    }
    if position_of(after, name) > p {
        assert(after[p].0 != name);
    }
    assert forall|i: int, j: int| 0 <= i < j < after.len() implies (#[trigger] after[i]).0 != (
    #[trigger] after[j]).0 by {
        if has_name(entries, name) {
            if i == p {
                assert(entries[i].0 == name);
            }
            if j == p {
                assert(entries[j].0 == name);
            }
        } else {
            if j == entries.len() {
                assert(after[i] == entries[i]);
            }
        }
    }
}

/// A map from names to values that remembers the order in which its names
/// first arrived. No name occurs twice.
#[derive(Debug)]
pub struct NameMap<V> {
    names: Vec<String>,
    values: Vec<V>,
}

impl<V: DeepView> View for NameMap<V> {
    type V = Entries<V::V>;

    /// The entries in order: each name with the model of its value.
    open spec fn view(&self) -> Entries<V::V> {
        Seq::new(self.names().len(), |i: int| (self.names()[i], self.stored()[i].deep_view()))
    }
}

impl<V: DeepView> DeepView for NameMap<V> {
    type V = Entries<V::V>;

    open spec fn deep_view(&self) -> Entries<V::V> {
        self@
    }
}

impl<V> NameMap<V> {
    #[verifier::type_invariant]
    closed spec fn well_formed(&self) -> bool {
        &&& self.names@.len() == self.values@.len()
        &&& forall|i: int, j: int|
            0 <= i < j < self.names@.len() ==> (#[trigger] self.names@[i])@ != (
            #[trigger] self.names@[j])@
    }

    /// The names in order.
    pub closed spec fn names(&self) -> Seq<Seq<char>> {
        Seq::new(self.names@.len(), |i: int| self.names@[i]@)
    }

    /// The values as they are stored, each at the place of its name.
    pub closed spec fn stored(&self) -> Seq<V> {
        Seq::new(self.names@.len(), |i: int| self.values@[i])
    }
}

impl<V: Clone> Clone for NameMap<V> {
    /// Copies the map: the same names in the same order, each with a clone
    /// of its value.
    fn clone(&self) -> (copy: Self)
        ensures
            copy.names() == self.names(),
            copy.stored().len() == self.stored().len(),
            forall|i: int|
                0 <= i < self.stored().len() ==> cloned::<V>(
                    #[trigger] self.stored()[i],
                    copy.stored()[i],
                ),
    {
        proof {
            use_type_invariant(self);
        }
        let mut names: Vec<String> = Vec::new();
        let mut values: Vec<V> = Vec::new();
        let n: usize = self.names.len();
        let mut i: usize = 0;
        while i < n
            invariant
                i <= n,
                n == self.names@.len(),
                n == self.values@.len(),
                names@.len() == i,
                values@.len() == i,
                forall|k: int| 0 <= k < i ==> (#[trigger] names@[k])@ == self.names@[k]@,
                forall|k: int| 0 <= k < i ==> cloned::<V>(self.values@[k], #[trigger] values@[k]),
            decreases n - i,
        {
            names.push(self.names[i].clone());
            values.push(self.values[i].clone());
            i = i + 1;
        }
        let copy = NameMap { names, values };
        assert(copy.names() =~= self.names());
        copy
    }
}

impl<V: DeepView> NameMap<V> {
    /// An empty map.
    pub fn new() -> (m: Self)
        ensures
            m@ == Seq::<(Seq<char>, V::V)>::empty(),
    {
        let m = NameMap { names: Vec::new(), values: Vec::new() };
        assert(m@ =~= Seq::<(Seq<char>, V::V)>::empty());
        m
    }

    /// The number of entries.
    pub fn len(&self) -> (n: usize)
        ensures
            n == self@.len(),
    {
        self.names.len()
    }

    /// Whether the map has no entries.
    pub fn is_empty(&self) -> (b: bool)
        ensures
            b == (self@.len() == 0),
    {
        self.names.len() == 0
    }

    /// No two entries of a map share a name.
    pub fn names_are_distinct(&self)
        ensures
            names_distinct(self@),
    {
        proof {
            use_type_invariant(self);
        }
    }

    /// The name of the entry at `i`.
    pub fn name_at(&self, i: usize) -> (name: &String)
        requires
            i < self@.len(),
        ensures
            name@ == self@[i as int].0,
    {
        &self.names[i]
    }

    /// The value of the entry at `i`.
    pub fn value_at(&self, i: usize) -> (value: &V)
        requires
            i < self@.len(),
        ensures
            value.deep_view() == self@[i as int].1,
    {
        proof {
            use_type_invariant(self);
        }
        &self.values[i]
    }

    /// The position of the entry called `name`, or `len()` if there is none.
    pub fn position(&self, name: &str) -> (i: usize)
        ensures
            i == position_of(self@, name@),
            i <= self@.len(),
    {
        let n: usize = self.names.len();
        let mut i: usize = 0;
        assert(self@.subrange(0, n as int) =~= self@);
        while i < n && !crate::text::str_eq(self.names[i].as_str(), name)
            invariant
                i <= n,
                n == self@.len(),
                n == self.names@.len(),
                position_of(self@, name@) == i + position_of(
                    self@.subrange(i as int, n as int),
                    name@,
                ),
            decreases n - i,
        {
            proof {
                let rest = self@.subrange(i as int, n as int);
                assert(rest.first() == self@[i as int]);
                assert(rest.drop_first() =~= self@.subrange(i + 1, n as int));
            }
            i = i + 1;
        }
        proof {
            let rest = self@.subrange(i as int, n as int);
            if i < n {
                assert(rest.first() == self@[i as int]);
            }
        }
        i
    }

    /// Whether some entry is called `name`.
    pub fn contains_key(&self, name: &str) -> (b: bool)
        ensures
            b == has_name(self@, name@),
    {
        self.position(name) < self.names.len()
    }

    /// The value bound to `name`.
    pub fn get(&self, name: &str) -> (value: Option<&V>)
        ensures
            value.deep_view() == lookup(self@, name@),
    {
        let i: usize = self.position(name);
        if i < self.names.len() {
            proof {
                use_type_invariant(self);
            }
            Some(&self.values[i])
        } else {
            None
        }
    }

    /// Binds `name` to `value`. An entry of that name keeps its place and hands
    /// back its old value; a new name goes to the end.
    pub fn insert(&mut self, name: String, value: V) -> (previous: Option<V>)
        ensures
            final(self)@ == upsert(old(self)@, name@, value.deep_view()),
            previous.deep_view() == lookup(old(self)@, name@),
    {
        proof {
            use_type_invariant(&*self);
            lemma_position_of(self@, name@);
        }
        let i: usize = self.position(name.as_str());
        let mut taken = NameMap::new();
        core::mem::swap(self, &mut taken);
        let NameMap { mut names, mut values } = taken;
        let previous = if i < names.len() {
            let mut slot = value;
            core::mem::swap(&mut values[i], &mut slot);
            Some(slot)
        } else {
            names.push(name);
            values.push(value);
            None
        };
        proof {
            assert forall|a: int, b: int| 0 <= a < b < names@.len() implies (#[trigger] names@[a])@
                != (#[trigger] names@[b])@ by {
                if b == old(self)@.len() {
                    assert(old(self)@[a].0 != name@);
                }
            }
        }
        *self = NameMap { names, values };
        proof {
            assert(self@ =~= upsert(old(self)@, name@, value.deep_view()));
        }
        previous
    }
}

} // verus!
