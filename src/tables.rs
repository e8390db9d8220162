//! The hash tables of the supply chain, kept in hashbrown's collections.
//!
//! hashbrown's `HashMap` and `HashSet` carry an allocator parameter bounded by
//! a trait that the crate does not export, so each table holds its collection
//! in a private field, keyed by the two halves of an id. What a table holds is
//! given a name below, and each method states its effect over that name.
use crate::chain::Item;
use crate::types::{ActorId, ItemId};
use vstd::prelude::*;

verus! {

/// A set of participant addresses.
#[verifier::external_body]
pub struct ActorSet {
    set: hashbrown::HashSet<(u128, u128)>,
}

/// The addresses that an [`ActorSet`] holds.
pub uninterp spec fn actor_set_members(s: ActorSet) -> Set<ActorId>;

impl View for ActorSet {
    type V = Set<ActorId>;

    open spec fn view(&self) -> Set<ActorId> {
        actor_set_members(*self)
    }
}

impl ActorSet {
    /// Relies on hashbrown's `HashSet::from_iter`: the set holds each listed address.
    #[verifier::external_body]
    pub fn from_actors(actors: &Vec<ActorId>) -> (r: ActorSet)
        ensures
            actor_set_members(r) == actors@.to_set(),
    {
        ActorSet { set: actors.iter().map(|a| (a.high, a.low)).collect() }
    }

    /// Relies on hashbrown's `HashSet::contains`.
    #[verifier::external_body]
    pub fn contains(&self, actor: &ActorId) -> (r: bool)
        ensures
            r == actor_set_members(*self).contains(*actor),
    {
        self.set.contains(&(actor.high, actor.low))
    }

    /// Relies on hashbrown's `HashSet::iter`: each member once, in the set's own order.
    #[verifier::external_body]
    pub fn to_vec(&self) -> (r: Vec<ActorId>)
        ensures
            r@.to_set() == actor_set_members(*self),
            r@.no_duplicates(),
    {
        self.set.iter().map(|&(high, low)| ActorId { high, low }).collect()
    }
}

/// An item id with its record.
pub type ItemEntry = (ItemId, Item);

/// The item records, by item id.
#[verifier::external_body]
pub struct ItemTable {
    map: hashbrown::HashMap<(u128, u128), Item>,
}

/// The records that an [`ItemTable`] holds.
pub uninterp spec fn item_table_entries(t: ItemTable) -> Map<ItemId, Item>;

impl View for ItemTable {
    type V = Map<ItemId, Item>;

    open spec fn view(&self) -> Map<ItemId, Item> {
        item_table_entries(*self)
    }
}

impl ItemTable {
    /// Relies on hashbrown's `HashMap::new`: the map is empty.
    #[verifier::external_body]
    pub fn new() -> (r: ItemTable)
        ensures
            item_table_entries(r).dom() == Set::<ItemId>::empty(),
    {
        ItemTable { map: hashbrown::HashMap::new() }
    }

    /// Relies on hashbrown's `HashMap::get`.
    #[verifier::external_body]
    pub fn get(&self, id: &ItemId) -> (r: Option<Item>)
        ensures
            item_table_entries(*self).contains_key(*id) ==> r == Some(item_table_entries(*self)[*id]),
            !item_table_entries(*self).contains_key(*id) ==> r is None,
    {
        self.map.get(&(id.high, id.low)).copied()
    }

    /// Relies on hashbrown's `HashMap::insert`: the record for `id` is replaced.
    #[verifier::external_body]
    pub fn insert(&mut self, id: ItemId, item: Item)
        ensures
            item_table_entries(*final(self)) == item_table_entries(*old(self)).insert(id, item),
    {
        self.map.insert((id.high, id.low), item);
    }

    /// Relies on hashbrown's `HashMap::iter`: each record once, in the map's own order.
    #[verifier::external_body]
    pub fn entries(&self) -> (r: Vec<ItemEntry>)
        ensures
            r@.len() == item_table_entries(*self).len(),
            forall|i: int|
                0 <= i < r@.len() ==> #[trigger] item_table_entries(*self).contains_key(r@[i].0)
                    && item_table_entries(*self)[r@[i].0] == r@[i].1,
            forall|i: int|
                0 <= i < r@.len() ==> forall|j: int|
                    i < j < r@.len() ==> #[trigger] r@[i].0 != #[trigger] r@[j].0,
            forall|id: ItemId|
                #[trigger] item_table_entries(*self).contains_key(id) ==> exists|i: int|
                    0 <= i < r@.len() && r@[i].0 == id,
    {
        self.map.iter().map(|(&(high, low), item)| (ItemId { high, low }, *item)).collect()
    }
}

/// The live reservations: for each owner, its first transaction id and its width.
#[verifier::external_body]
pub struct ReservationTable {
    map: hashbrown::HashMap<(u128, u128), (u64, u8)>,
}

/// The reservations that a [`ReservationTable`] holds.
pub uninterp spec fn reservation_entries(t: ReservationTable) -> Map<ActorId, (u64, u8)>;

impl View for ReservationTable {
    type V = Map<ActorId, (u64, u8)>;

    open spec fn view(&self) -> Map<ActorId, (u64, u8)> {
        reservation_entries(*self)
    }
}

impl ReservationTable {
    /// Relies on hashbrown's `HashMap::new`: the map is empty.
    #[verifier::external_body]
    pub fn new() -> (r: ReservationTable)
        ensures
            reservation_entries(r).dom() == Set::<ActorId>::empty(),
    {
        ReservationTable { map: hashbrown::HashMap::new() }
    }

    /// Relies on hashbrown's `HashMap::get`.
    #[verifier::external_body]
    pub fn get(&self, owner: &ActorId) -> (r: Option<(u64, u8)>)
        ensures
            reservation_entries(*self).contains_key(*owner) ==> r == Some(reservation_entries(*self)[*owner]),
            !reservation_entries(*self).contains_key(*owner) ==> r is None,
    {
        self.map.get(&(owner.high, owner.low)).copied()
    }

    /// Relies on hashbrown's `HashMap::insert`: the entry for `owner` is replaced.
    #[verifier::external_body]
    pub fn insert(&mut self, owner: ActorId, reservation: (u64, u8))
        ensures
            reservation_entries(*final(self)) == reservation_entries(*old(self)).insert(
                owner,
                reservation,
            ),
    {
        self.map.insert((owner.high, owner.low), reservation);
    }

    /// Relies on hashbrown's `HashMap::remove`: the entry for `owner`, if any, is gone.
    #[verifier::external_body]
    pub fn remove(&mut self, owner: &ActorId)
        ensures
            reservation_entries(*final(self)) == reservation_entries(*old(self)).remove(*owner),
    {
        self.map.remove(&(owner.high, owner.low));
    }
}

} // verus!
