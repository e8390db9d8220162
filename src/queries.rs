//! Read-only questions about the supply chain. None of them fails: a question
//! about an item that does not exist is answered with nothing.
use crate::chain::SupplyChain;
use crate::types::{ActorId, ItemId, Role, SupplyChainStateQuery, SupplyChainStateReply};
use vstd::prelude::*;

verus! {

/// The roles of `actor`: consumer first, then producer, distributor and
/// retailer, each where `actor` is a member.
pub open spec fn roles_of(c: SupplyChain, actor: ActorId) -> Seq<Role> {
    let with_producer = if c.members(Role::Producer).contains(actor) {
        seq![Role::Consumer, Role::Producer]
    } else {
        seq![Role::Consumer]
    };
    let with_distributor = if c.members(Role::Distributor).contains(actor) {
        with_producer.push(Role::Distributor)
    } else {
        with_producer
    };
    if c.members(Role::Retailer).contains(actor) {
        with_distributor.push(Role::Retailer)
    } else {
        with_distributor
    }
}

impl SupplyChain {
    /// The roles of `actor`.
    pub fn roles(&self, actor: ActorId) -> (r: Vec<Role>)
        ensures
            r@ == roles_of(*self, actor),
    {
        let mut roles: Vec<Role> = Vec::new();
        roles.push(Role::Consumer);
        if self.has_role(Role::Producer, &actor) {
            roles.push(Role::Producer);
        }
        if self.has_role(Role::Distributor, &actor) {
            roles.push(Role::Distributor);
        }
        if self.has_role(Role::Retailer, &actor) {
            roles.push(Role::Retailer);
        }
        proof {
            assert(roles@ =~= roles_of(*self, actor));
        }
        roles
    }

    /// Answers `query`.
    pub fn state(&self, query: SupplyChainStateQuery) -> (r: SupplyChainStateReply)
        ensures
            query matches SupplyChainStateQuery::ItemInfo(id) ==> r == SupplyChainStateReply::ItemInfo(
                if self.item_records().contains_key(id) {
                    Some(self.item_records()[id].info)
                } else {
                    None
                },
            ),
            query matches SupplyChainStateQuery::Roles(actor) ==> (r is Roles && r->Roles_0@
                == roles_of(*self, actor)),
            query is FungibleToken ==> r == SupplyChainStateReply::FungibleToken(self.ft()),
            query is NonFungibleToken ==> r == SupplyChainStateReply::NonFungibleToken(self.nft()),
            query is Participants ==> (r is Participants && r->producers@.to_set() == self.members(
                Role::Producer,
            ) && r->producers@.no_duplicates() && r->distributors@.to_set() == self.members(
                Role::Distributor,
            ) && r->distributors@.no_duplicates() && r->retailers@.to_set() == self.members(
                Role::Retailer,
            ) && r->retailers@.no_duplicates()),
            query is ExistingItems ==> (r is ExistingItems && r->ExistingItems_0@.len()
                == self.item_records().len()),
            query is ExistingItems ==> (r is ExistingItems && forall|i: int|
                0 <= i < r->ExistingItems_0@.len() ==> #[trigger] self.item_records().contains_key(
                    r->ExistingItems_0@[i].0,
                ) && self.item_records()[r->ExistingItems_0@[i].0].info
                    == r->ExistingItems_0@[i].1),
            query is ExistingItems ==> (r is ExistingItems && forall|i: int|
                0 <= i < r->ExistingItems_0@.len() ==> forall|j: int|
                    i < j < r->ExistingItems_0@.len() ==> #[trigger] r->ExistingItems_0@[i].0
                        != #[trigger] r->ExistingItems_0@[j].0),
            query is ExistingItems ==> (r is ExistingItems && forall|id: ItemId| #[trigger]
                self.item_records().contains_key(id) ==> exists|i: int|
                    0 <= i < r->ExistingItems_0@.len() && r->ExistingItems_0@[i].0 == id),
    {
        match query {
            SupplyChainStateQuery::ItemInfo(item_id) => SupplyChainStateReply::ItemInfo(
                self.item_info(item_id),
            ),
            SupplyChainStateQuery::Participants => {
                let p = self.participants();
                SupplyChainStateReply::Participants {
                    producers: p.producers,
                    distributors: p.distributors,
                    retailers: p.retailers,
                }
            },
            SupplyChainStateQuery::Roles(actor) => SupplyChainStateReply::Roles(self.roles(actor)),
            SupplyChainStateQuery::ExistingItems => SupplyChainStateReply::ExistingItems(
                self.existing_items(),
            ),
            SupplyChainStateQuery::FungibleToken => SupplyChainStateReply::FungibleToken(
                self.fungible_token(),
            ),
            SupplyChainStateQuery::NonFungibleToken => SupplyChainStateReply::NonFungibleToken(
                self.non_fungible_token(),
            ),
        }
    }
}

} // verus!
