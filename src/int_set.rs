//! A set of `u64` keys kept in an `intmap::IntMap`.
use intmap::IntMap;
use vstd::prelude::*;

verus! {

#[verifier::external_type_specification]
#[verifier::external_body]
#[verifier::reject_recursive_types(V)]
pub struct ExIntMap<V>(IntMap<V>);

/// The keys that an `IntMap` without values holds.
pub uninterp spec fn int_map_keys(m: IntMap<()>) -> Set<u64>;

/// Relies on `intmap::IntMap::new`: a new map holds no key.
#[verifier::external_body]
fn int_map_new() -> (r: IntMap<()>)
    ensures
        int_map_keys(r) == Set::<u64>::empty(),
{
    IntMap::new()
}

/// Relies on `intmap::IntMap::get`: the entry of `key`, present exactly when
/// the map holds `key`.
#[verifier::external_body]
fn int_map_get(m: &IntMap<()>, key: u64) -> (r: Option<&()>)
    ensures
        r is Some <==> int_map_keys(*m).contains(key),
{
    m.get(key)
}

/// Relies on `intmap::IntMap::insert`: adds `key`, and answers `true` when it
/// was not there before (an existing entry is left as it is). The load check
/// after an insert multiplies the count by 100, hence the bound.
#[verifier::external_body]
fn int_map_insert(m: &mut IntMap<()>, key: u64, value: ()) -> (r: bool)
    requires
        int_map_keys(*old(m)).len() < usize::MAX / 128,
    ensures
        int_map_keys(*final(m)) == int_map_keys(*old(m)).insert(key),
        r == !int_map_keys(*old(m)).contains(key),
{
    m.insert(key, value)
}

/// Relies on `intmap::IntMap::len`: the number of keys held.
#[verifier::external_body]
fn int_map_len(m: &IntMap<()>) -> (r: usize)
    ensures
        r == int_map_keys(*m).len(),
{
    m.len()
}

/// Relies on `intmap::IntMap::keys`: every key held, each once, in the
/// map's own order.
#[verifier::external_body]
fn int_map_key_list(m: &IntMap<()>) -> (r: Vec<u64>)
    ensures
        r@.to_set() == int_map_keys(*m),
        r@.no_duplicates(),
{
    m.keys().copied().collect()
}

pub struct IntSet(pub IntMap<()>);

impl View for IntSet {
    type V = Set<u64>;

    open spec fn view(&self) -> Set<u64> {
        int_map_keys(self.0)
    }
}

impl IntSet {
    pub open spec fn wf(&self) -> bool {
        self@.finite()
    }

    /// One more key can be inserted.
    pub open spec fn has_room(&self) -> bool {
        self@.len() < usize::MAX / 128
    }

    pub fn new() -> (r: IntSet)
        ensures
            r.wf(),
            r@ == Set::<u64>::empty(),
    {
        IntSet(int_map_new())
    }

    /// Every key, each once.
    pub fn keys(&self) -> (r: Vec<u64>)
        ensures
            r@.to_set() == self@,
            r@.no_duplicates(),
    {
        int_map_key_list(&self.0)
    }

    pub fn len(&self) -> (r: usize)
        ensures
            r == self@.len(),
    {
        int_map_len(&self.0)
    }

    pub fn room_left(&self) -> (r: bool)
        ensures
            r == self.has_room(),
    {
        int_map_len(&self.0) < usize::MAX / 128
    }

    pub fn get(&self, key: u64) -> (r: Option<&()>)
        ensures
            r is Some <==> self@.contains(key),
    {
        int_map_get(&self.0, key)
    }

    /// Adds `key`; answers whether it was new.
    pub fn insert(&mut self, key: u64, value: ()) -> (r: bool)
        requires
            old(self).wf(),
            old(self).has_room(),
        ensures
            final(self).wf(),
            final(self)@ == old(self)@.insert(key),
            r == !old(self)@.contains(key),
    {
        int_map_insert(&mut self.0, key, value)
    }
}

impl Default for IntSet {
    fn default() -> (r: IntSet)
        ensures
            r.wf(),
            r@ == Set::<u64>::empty(),
    {
        IntSet::new()
    }
}

} // verus!
