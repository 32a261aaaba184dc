//! Tables keyed by a name or by an address.
//!
//! A table keeps its entries in a vector, in the order in which their keys
//! first came, and finds them through a persistent hash map of the `im`
//! crate from key to position. What that hash map holds is trusted as the
//! wrappers of `new`, `get` and `insert` state it; everything built on them
//! is verified.
use crate::syntax::{NumericalAddress, Symbol};
use vstd::map_lib::*;
use vstd::prelude::*;

verus! {

/// `im::HashMap`, the persistent hash map, as a type that is not looked
/// into.
#[verifier::external_type_specification]
#[verifier::external_body]
#[verifier::reject_recursive_types(K)]
#[verifier::reject_recursive_types(V)]
#[verifier::reject_recursive_types(S)]
pub struct ExImHashMap<K, V, S>(im::HashMap<K, V, S>);

/// What a hash map from text to position holds.
pub uninterp spec fn name_slots(m: im::HashMap<String, usize>) -> Map<Seq<char>, usize>;

/// What a hash map from number to position holds.
pub uninterp spec fn number_slots(m: im::HashMap<u128, usize>) -> Map<u128, usize>;

/// `im::HashMap::new`: a map that holds nothing.
#[verifier::external_body]
fn name_slots_new() -> (m: im::HashMap<String, usize>)
    ensures
        name_slots(m) =~= map![],
{
    im::HashMap::new()
}

/// `im::HashMap::get`: the value stored under `key`, if there is one. `String`
/// keys are compared by their characters.
#[verifier::external_body]
fn name_slots_get(m: &im::HashMap<String, usize>, key: &str) -> (r: Option<usize>)
    ensures
        r == (if name_slots(*m).contains_key(key@) {
            Some(name_slots(*m)[key@])
        } else {
            None
        }),
{
    m.get(key).copied()
}

/// `im::HashMap::insert`: afterwards `key` maps to `value`, whether or not it
/// was there before, and every other key is as it was.
#[verifier::external_body]
fn name_slots_insert(m: &mut im::HashMap<String, usize>, key: String, value: usize)
    ensures
        name_slots(*final(m)) == name_slots(*old(m)).insert(key@, value),
{
    m.insert(key, value);
}

/// `im::HashMap::new`: a map that holds nothing.
#[verifier::external_body]
fn number_slots_new() -> (m: im::HashMap<u128, usize>)
    ensures
        number_slots(m) =~= map![],
{
    im::HashMap::new()
}

/// `im::HashMap::get`: the value stored under `key`, if there is one.
#[verifier::external_body]
fn number_slots_get(m: &im::HashMap<u128, usize>, key: u128) -> (r: Option<usize>)
    ensures
        r == (if number_slots(*m).contains_key(key) {
            Some(number_slots(*m)[key])
        } else {
            None
        }),
{
    m.get(&key).copied()
}

/// `im::HashMap::insert`: afterwards `key` maps to `value`, whether or not it
/// was there before, and every other key is as it was.
#[verifier::external_body]
fn number_slots_insert(m: &mut im::HashMap<u128, usize>, key: u128, value: usize)
    ensures
        number_slots(*final(m)) == number_slots(*old(m)).insert(key, value),
{
    m.insert(key, value);
}

/// A map from names to values that remembers the order in which the names
/// first came.
#[derive(Debug)]
pub struct Table<V> {
    slots: im::HashMap<String, usize>,
    entries: Vec<(Symbol, V)>,
}

impl<V> Table<V> {
    /// The hash map and the vector agree: every name is found at its own
    /// position, and every position is found under its own name.
    pub closed spec fn wf(&self) -> bool {
        &&& forall|k: Seq<char>| #[trigger]
            name_slots(self.slots).contains_key(k) ==> name_slots(self.slots)[k]
                < self.entries.len() && self.entries[name_slots(self.slots)[k] as int].0@ == k
        &&& forall|i: int|
            0 <= i < self.entries.len() ==> name_slots(self.slots).contains_key(
                #[trigger] self.entries[i].0@,
            ) && name_slots(self.slots)[self.entries[i].0@] == i
    }

    /// The names in the order in which they first came.
    pub closed spec fn order(&self) -> Seq<Seq<char>> {
        Seq::new(self.entries.len() as nat, |i: int| self.entries[i].0@)
    }

    /// The value under each name.
    pub closed spec fn map(&self) -> Map<Seq<char>, V> {
        Map::new(
            |k: Seq<char>| name_slots(self.slots).contains_key(k),
            |k: Seq<char>| self.entries[name_slots(self.slots)[k] as int].1,
        )
    }

    /// The order lists exactly the names that the map holds, each once.
    pub proof fn order_lists_the_names(&self)
        requires
            self.wf(),
        ensures
            self.order().no_duplicates(),
            forall|k: Seq<char>| self.map().contains_key(k) <==> self.order().contains(k),
            forall|i: int|
                0 <= i < self.order().len() ==> self.map().contains_key(#[trigger] self.order()[i]),
    {
        assert forall|k: Seq<char>| self.map().contains_key(k) implies self.order().contains(k) by {
            let i = name_slots(self.slots)[k] as int;
            assert(self.order()[i] == k);
        }
    }

    /// A table without entries.
    pub fn new() -> (t: Self)
        ensures
            t.wf(),
            t.map() == Map::<Seq<char>, V>::empty(),
            t.order() == Seq::<Seq<char>>::empty(),
    {
        let t = Table { slots: name_slots_new(), entries: Vec::new() };
        assert(t.map() =~= Map::<Seq<char>, V>::empty());
        assert(t.order() =~= Seq::<Seq<char>>::empty());
        t
    }

    /// The number of names.
    pub fn len(&self) -> (n: usize)
        ensures
            n == self.order().len(),
    {
        self.entries.len()
    }

    /// The name at a position of the order.
    pub fn key_at(&self, i: usize) -> (k: &Symbol)
        requires
            i < self.order().len(),
        ensures
            k@ == self.order()[i as int],
    {
        &self.entries[i].0
    }

    /// The value of the name at a position of the order.
    pub fn value_at(&self, i: usize) -> (v: &V)
        requires
            self.wf(),
            i < self.order().len(),
        ensures
            self.map().contains_key(self.order()[i as int]),
            *v == self.map()[self.order()[i as int]],
    {
        &self.entries[i].1
    }

    /// Whether the table holds a name.
    pub fn contains_key(&self, key: &Symbol) -> (b: bool)
        ensures
            b == self.map().contains_key(key@),
    {
        name_slots_get(&self.slots, key.as_str()).is_some()
    }

    /// The value under a name, if the table holds it.
    pub fn get(&self, key: &Symbol) -> (r: Option<&V>)
        requires
            self.wf(),
        ensures
            r == (if self.map().contains_key(key@) {
                Some(&self.map()[key@])
            } else {
                None
            }),
    {
        match name_slots_get(&self.slots, key.as_str()) {
            Some(i) => Some(&self.entries[i].1),
            None => None,
        }
    }

    /// The value under a name, to be changed in place.
    pub fn get_mut(&mut self, key: &Symbol) -> (r: Option<&mut V>)
        requires
            old(self).wf(),
        ensures
            final(self).wf(),
            final(self).order() =~= old(self).order(),
            old(self).map().contains_key(key@) <==> r is Some,
            r matches Some(v) ==> *v == old(self).map()[key@] && final(self).map() =~= old(
                self,
            ).map().insert(key@, *final(v)),
            r is None ==> final(self).map() == old(self).map(),
    {
        match name_slots_get(&self.slots, key.as_str()) {
            Some(i) => Some(&mut self.entries[i].1),
            None => None,
        }
    }

    /// Puts a value under a name. A name that is there keeps its place and
    /// gets the new value; a new name goes to the end.
    pub fn insert(&mut self, key: Symbol, value: V)
        requires
            old(self).wf(),
        ensures
            final(self).wf(),
            final(self).map() == old(self).map().insert(key@, value),
            final(self).order() == (if old(self).map().contains_key(key@) {
                old(self).order()
            } else {
                old(self).order().push(key@)
            }),
    {
        match name_slots_get(&self.slots, key.as_str()) {
            Some(i) => {
                self.entries[i].1 = value;
                assert(self.order() =~= old(self).order());
            },
            None => {
                let i = self.entries.len();
                let text = key.as_str().to_owned();
                self.entries.push((key, value));
                name_slots_insert(&mut self.slots, text, i);
                assert(self.order() =~= old(self).order().push(key@));
            },
        }
        assert(self.map() =~= old(self).map().insert(key@, value));
    }
}

impl<V: View> Table<V> {
    /// The view of the value under each name.
    pub open spec fn views(&self) -> Map<Seq<char>, V::V> {
        self.map().map_values(|v: V| v@)
    }
}

/// A map from addresses to values.
#[derive(Debug)]
pub struct AddressTable<V> {
    slots: im::HashMap<u128, usize>,
    entries: Vec<(NumericalAddress, V)>,
}

impl<V> AddressTable<V> {
    /// The hash map and the vector agree: every address is found at its own
    /// position, and every position is found under its own address.
    pub closed spec fn wf(&self) -> bool {
        &&& forall|k: u128| #[trigger]
            number_slots(self.slots).contains_key(k) ==> number_slots(self.slots)[k]
                < self.entries.len() && self.entries[number_slots(self.slots)[k] as int].0.value
                == k
        &&& forall|i: int|
            0 <= i < self.entries.len() ==> number_slots(self.slots).contains_key(
                #[trigger] self.entries[i].0.value,
            ) && number_slots(self.slots)[self.entries[i].0.value] == i
    }

    /// The value under each address.
    pub closed spec fn map(&self) -> Map<NumericalAddress, V> {
        Map::new(
            |k: NumericalAddress| number_slots(self.slots).contains_key(k.value),
            |k: NumericalAddress| self.entries[number_slots(self.slots)[k.value] as int].1,
        )
    }

    /// A table without entries.
    pub fn new() -> (t: Self)
        ensures
            t.wf(),
            t.map() == Map::<NumericalAddress, V>::empty(),
    {
        let t = AddressTable { slots: number_slots_new(), entries: Vec::new() };
        assert(t.map() =~= Map::<NumericalAddress, V>::empty());
        t
    }

    /// Whether the table holds an address.
    pub fn contains_key(&self, key: NumericalAddress) -> (b: bool)
        ensures
            b == self.map().contains_key(key),
    {
        number_slots_get(&self.slots, key.value).is_some()
    }

    /// The value under an address, if the table holds it.
    pub fn get(&self, key: NumericalAddress) -> (r: Option<&V>)
        requires
            self.wf(),
        ensures
            r == (if self.map().contains_key(key) {
                Some(&self.map()[key])
            } else {
                None
            }),
    {
        match number_slots_get(&self.slots, key.value) {
            Some(i) => Some(&self.entries[i].1),
            None => None,
        }
    }

    /// The value under an address, to be changed in place.
    pub fn get_mut(&mut self, key: NumericalAddress) -> (r: Option<&mut V>)
        requires
            old(self).wf(),
        ensures
            final(self).wf(),
            old(self).map().contains_key(key) <==> r is Some,
            r matches Some(v) ==> *v == old(self).map()[key] && final(self).map() =~= old(
                self,
            ).map().insert(key, *final(v)),
            r is None ==> final(self).map() == old(self).map(),
    {
        match number_slots_get(&self.slots, key.value) {
            Some(i) => Some(&mut self.entries[i].1),
            None => None,
        }
    }

    /// Puts a value under an address, in place of the one that was there, if
    /// any.
    pub fn insert(&mut self, key: NumericalAddress, value: V)
        requires
            old(self).wf(),
        ensures
            final(self).wf(),
            final(self).map() == old(self).map().insert(key, value),
    {
        match number_slots_get(&self.slots, key.value) {
            Some(i) => {
                self.entries[i].1 = value;
            },
            None => {
                let i = self.entries.len();
                self.entries.push((key, value));
                number_slots_insert(&mut self.slots, key.value, i);
            },
        }
        assert(self.map() =~= old(self).map().insert(key, value));
    }
}

} // verus!
