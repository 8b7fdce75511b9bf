//! The per-user location registry.
use std::collections::HashMap;
use vstd::prelude::*;

verus! {

broadcast use vstd::std_specs::hash::group_hash_axioms;

/// Identifier of a chat (and of the user behind it).
pub type UserId = i64;

/// A geographic point, held as the IEEE-754 bit patterns of its latitude and
/// longitude so that the stored value is exactly the one that was shared.
#[derive(Clone, Copy, Debug, PartialEq, Eq, Structural)]
pub struct Coordinate {
    pub lat_bits: u64,
    pub lon_bits: u64,
}

impl Coordinate {
    pub fn new(lat_bits: u64, lon_bits: u64) -> (r: Coordinate)
        ensures
            r.lat_bits == lat_bits,
            r.lon_bits == lon_bits,
    {
        Coordinate { lat_bits, lon_bits }
    }
}

/// Last reported location of each user; at most one entry per user, the last
/// write wins and entries are never removed.
pub struct LocationStore {
    locations: HashMap<UserId, Coordinate>,
}

impl View for LocationStore {
    type V = Map<UserId, Coordinate>;

    closed spec fn view(&self) -> Map<UserId, Coordinate> {
        self.locations@
    }
}

impl LocationStore {
    /// An empty store: every location is unknown.
    pub fn new() -> (r: LocationStore)
        ensures
            r@ == Map::<UserId, Coordinate>::empty(),
    {
        LocationStore { locations: HashMap::new() }
    }

    /// The location last stored for `id`, if any.
    pub fn get(&self, id: UserId) -> (r: Option<Coordinate>)
        ensures
            r == lookup(self@, id),
    {
        match self.locations.get(&id) {
            Some(c) => Some(*c),
            None => None,
        }
    }

    /// Whether a location is stored for `id`.
    pub fn contains(&self, id: UserId) -> (r: bool)
        ensures
            r == self@.contains_key(id),
    {
        self.locations.contains_key(&id)
    }

    /// Stores `coord` as the location of `id`, replacing any earlier one.
    pub fn set(&mut self, id: UserId, coord: Coordinate)
        ensures
            final(self)@ == old(self)@.insert(id, coord),
    {
        self.locations.insert(id, coord);
    }
}

/// What `get` returns for `id` on a store whose contents are `m`.
pub open spec fn lookup(m: Map<UserId, Coordinate>, id: UserId) -> Option<Coordinate> {
    if m.contains_key(id) {
        Some(m[id])
    } else {
        None
    }
}

/// The contents of a new store after the writes `writes`, in order.
pub open spec fn after_writes(writes: Seq<(UserId, Coordinate)>) -> Map<UserId, Coordinate>
    decreases writes.len(),
{
    if writes.len() == 0 {
        Map::empty()
    } else {
        after_writes(writes.drop_last()).insert(writes.last().0, writes.last().1)
    }
}

/// Read-your-own-write: after `set(u, c)`, `get(u)` returns `c`, whatever the
/// store held before.
pub proof fn lemma_read_own_write(before: Map<UserId, Coordinate>, u: UserId, c: Coordinate)
    ensures
        lookup(before.insert(u, c), u) == Some(c),
{
}

/// Writing one user's location leaves what `get` returns for every other user
/// as it was.
pub proof fn lemma_write_is_local(
    before: Map<UserId, Coordinate>,
    u: UserId,
    c: Coordinate,
    other: UserId,
)
    requires
        other != u,
    ensures
        lookup(before.insert(u, c), other) == lookup(before, other),
{
}

/// On a new store, `get` returns nothing for a user that none of the writes
/// made since names.
pub proof fn lemma_unwritten_is_absent(writes: Seq<(UserId, Coordinate)>, u: UserId)
    requires
        forall|i: int| 0 <= i < writes.len() ==> (#[trigger] writes[i]).0 != u,
    ensures
        lookup(after_writes(writes), u) == None::<Coordinate>,
    decreases writes.len(),
{
    if writes.len() > 0 {
        let rest = writes.drop_last();
        assert forall|i: int| 0 <= i < rest.len() implies (#[trigger] rest[i]).0 != u by {
            assert(rest[i] == writes[i]);
        }
        lemma_unwritten_is_absent(rest, u);
        assert(writes.last() == writes[writes.len() - 1]);
    }
}

} // verus!
