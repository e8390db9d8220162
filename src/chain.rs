//! The item registry and its state machine.
//!
//! Every action is decided here in two steps. First the action is checked
//! against the item's state and the caller, and planned: the ledger calls it
//! needs, in order, and the item's record once they have all succeeded. Then,
//! once the calls were made, [`SupplyChain::finish`] stores that record (or
//! nothing, if a call failed) and gives back the action's reservation.
use crate::tables::{ActorSet, ItemTable};
use crate::tx_manager::next_cursor;
use crate::types::{
    ActorId, ItemEventState, ItemId, ItemInfo, ItemState, Participants, Role, SupplyChainError,
    SupplyChainInit,
};
use vstd::prelude::*;

verus! {

/// An item's record: what is known of it, and when its current shipment began.
#[derive(Clone, Copy, Debug, PartialEq, Eq, Structural)]
pub struct Item {
    pub info: ItemInfo,
    pub shipping_time: u64,
}

/// A call into one of the two ledgers.
#[derive(Clone, Copy, Debug, PartialEq, Eq, Structural)]
pub enum LedgerCall {
    /// Moves the item's token on the item ledger `ledger` to `to`.
    TransferItem { ledger: ActorId, tx_id: u64, to: ActorId, item_id: ItemId },
    /// Moves `amount` funds on the fund ledger `ledger` from `from` to `to`.
    TransferFunds { ledger: ActorId, tx_id: u64, from: ActorId, to: ActorId, amount: u128 },
}

/// The ledger calls of a checked action, and the item's record once they succeed.
#[derive(Clone, Debug)]
pub struct Plan {
    pub calls: Vec<LedgerCall>,
    pub item: Item,
}

/// What an action comes to: its ledger calls and the item's new record, or an error.
pub type Outcome = Result<(Seq<LedgerCall>, Item), SupplyChainError>;

pub open spec fn plan_outcome(r: Result<Plan, SupplyChainError>) -> Outcome {
    match r {
        Ok(p) => Ok((p.calls@, p.item)),
        Err(e) => Err(e),
    }
}

/// The party recorded on an item for `role`; nobody for a consumer.
pub open spec fn party(info: ItemInfo, role: Role) -> ActorId {
    match role {
        Role::Producer => info.producer,
        Role::Distributor => info.distributor,
        Role::Retailer => info.retailer,
        Role::Consumer => ActorId::spec_zero(),
    }
}

/// `info` with `who` recorded as the party for `role`.
pub open spec fn with_party(info: ItemInfo, role: Role, who: ActorId) -> ItemInfo {
    match role {
        Role::Producer => ItemInfo { producer: who, ..info },
        Role::Distributor => ItemInfo { distributor: who, ..info },
        Role::Retailer => ItemInfo { retailer: who, ..info },
        Role::Consumer => info,
    }
}

/// `item` in state `(state, by)`, all else kept.
pub open spec fn in_state(item: Item, state: ItemEventState, by: Role) -> Item {
    Item { info: ItemInfo { state: ItemState { state, by }, ..item.info }, ..item }
}

/// The record of item `id`, if it exists and is in state `expected`.
pub open spec fn guarded(items: Map<ItemId, Item>, id: ItemId, expected: ItemState) -> Result<
    Item,
    SupplyChainError,
> {
    if !items.contains_key(id) {
        Err(SupplyChainError::ItemNotFound)
    } else if items[id].info.state != expected {
        Err(SupplyChainError::UnexpectedItemState)
    } else {
        Ok(items[id])
    }
}

/// The record of item `id`, if it exists, is in state `expected`, and
/// `caller` is its party for `role`.
pub open spec fn guarded_for(
    items: Map<ItemId, Item>,
    id: ItemId,
    expected: ItemState,
    role: Role,
    caller: ActorId,
) -> Result<Item, SupplyChainError> {
    match guarded(items, id, expected) {
        Err(e) => Err(e),
        Ok(item) => if party(item.info, role) != caller {
            Err(SupplyChainError::AccessRestricted)
        } else {
            Ok(item)
        },
    }
}

/// How the price of a received item is split between seller and buyer:
/// `(to the seller, back to the buyer)`, where `elapsed` is the time the
/// delivery took and `delivery_time` the time agreed.
///
/// On time, the seller gets it all; late by less than the agreed time again,
/// the seller gets half, rounded down; later still, the buyer gets it all back.
pub open spec fn settlement(price: u128, elapsed: int, delivery_time: int) -> (u128, u128) {
    if elapsed <= delivery_time {
        (price, 0)
    } else if elapsed >= 2 * delivery_time {
        (0, price)
    } else {
        ((price / 2) as u128, (price - price / 2) as u128)
    }
}

/// The time from `start` to `now`; none if the clock reads earlier than `start`.
pub open spec fn elapsed_since(start: u64, now: u64) -> int {
    if now >= start {
        now - start
    } else {
        0
    }
}

/// Splits the price of a received item between seller and buyer.
pub fn settle(price: u128, elapsed: u64, delivery_time: u64) -> (r: (u128, u128))
    ensures
        r == settlement(price, elapsed as int, delivery_time as int),
{
    if elapsed <= delivery_time {
        (price, 0)
    } else if elapsed - delivery_time >= delivery_time {
        (0, price)
    } else {
        let seller = price / 2;
        (seller, price - seller)
    }
}

/// The outcome of putting item `id` up for sale for `price` by `caller` as `by`,
/// from state `(from, by)`: the item goes to the chain's own address.
pub open spec fn put_up_for_sale_outcome(
    items: Map<ItemId, Item>,
    nft: ActorId,
    program: ActorId,
    tx_id: u64,
    caller: ActorId,
    id: ItemId,
    from: ItemEventState,
    by: Role,
    price: u128,
) -> Outcome {
    match guarded_for(items, id, ItemState { state: from, by }, by, caller) {
        Err(e) => Err(e),
        Ok(item) => {
            let calls = seq![LedgerCall::TransferItem { ledger: nft, tx_id, to: program, item_id: id }];
            let item = Item { info: ItemInfo { price, ..item.info }, ..item };
            Ok((calls, in_state(item, ItemEventState::ForSale, by)))
        },
    }
}

/// The outcome of `caller` buying item `id` as `by` from its `seller` party,
/// to be delivered within `delivery_time`: the price goes to the chain's own
/// address until the item is received.
pub open spec fn purchase_outcome(
    items: Map<ItemId, Item>,
    ft: ActorId,
    program: ActorId,
    tx_id: u64,
    caller: ActorId,
    id: ItemId,
    seller: Role,
    by: Role,
    delivery_time: u64,
) -> Outcome {
    match guarded(items, id, ItemState { state: ItemEventState::ForSale, by: seller }) {
        Err(e) => Err(e),
        Ok(item) => {
            let calls = seq![
                LedgerCall::TransferFunds {
                    ledger: ft,
                    tx_id,
                    from: caller,
                    to: program,
                    amount: item.info.price,
                },
            ];
            let info = ItemInfo { delivery_time, ..with_party(item.info, by, caller) };
            Ok((calls, in_state(Item { info, ..item }, ItemEventState::Purchased, by)))
        },
    }
}

/// The outcome of `caller`, as the seller `by`, accepting or rejecting the
/// purchase of item `id` by its `buyer` party. A rejection refunds the buyer
/// and puts the item up for sale again.
pub open spec fn approve_outcome(
    items: Map<ItemId, Item>,
    ft: ActorId,
    program: ActorId,
    tx_id: u64,
    caller: ActorId,
    id: ItemId,
    buyer: Role,
    by: Role,
    approve: bool,
) -> Outcome {
    match guarded_for(items, id, ItemState { state: ItemEventState::Purchased, by: buyer }, by, caller) {
        Err(e) => Err(e),
        Ok(item) => if approve {
            Ok((Seq::empty(), in_state(item, ItemEventState::Approved, by)))
        } else {
            let calls = seq![
                LedgerCall::TransferFunds {
                    ledger: ft,
                    tx_id,
                    from: program,
                    to: party(item.info, buyer),
                    amount: item.info.price,
                },
            ];
            Ok((calls, in_state(item, ItemEventState::ForSale, by)))
        },
    }
}

/// The outcome of `caller`, as the seller `by`, shipping item `id` at `now`.
pub open spec fn ship_outcome(
    items: Map<ItemId, Item>,
    caller: ActorId,
    id: ItemId,
    by: Role,
    now: u64,
) -> Outcome {
    match guarded_for(items, id, ItemState { state: ItemEventState::Approved, by }, by, caller) {
        Err(e) => Err(e),
        Ok(item) => Ok(
            (
                Seq::empty(),
                in_state(Item { shipping_time: now, ..item }, ItemEventState::Shipped, by),
            ),
        ),
    }
}

/// The fund transfers that settle a delivery from the chain's own address:
/// a refund to the buyer under the next id when the price is split, then
/// the seller's share; or the whole price to one of them.
pub open spec fn settlement_calls(
    ft: ActorId,
    program: ActorId,
    tx_id: u64,
    seller: ActorId,
    buyer: ActorId,
    price: u128,
    elapsed: int,
    delivery_time: int,
) -> Seq<LedgerCall> {
    let (to_seller, to_buyer) = settlement(price, elapsed, delivery_time);
    if elapsed <= delivery_time {
        seq![LedgerCall::TransferFunds { ledger: ft, tx_id, from: program, to: seller, amount: price }]
    } else if elapsed >= 2 * delivery_time {
        seq![LedgerCall::TransferFunds { ledger: ft, tx_id, from: program, to: buyer, amount: price }]
    } else {
        seq![
            LedgerCall::TransferFunds {
                ledger: ft,
                tx_id: next_cursor(tx_id, 1),
                from: program,
                to: buyer,
                amount: to_buyer,
            },
            LedgerCall::TransferFunds { ledger: ft, tx_id, from: program, to: seller, amount: to_seller },
        ]
    }
}

/// The outcome of `caller`, as the buyer `by`, receiving item `id` from its
/// `seller` party at `now`: the price is settled, then the item goes to the caller.
pub open spec fn receive_outcome(
    items: Map<ItemId, Item>,
    ft: ActorId,
    nft: ActorId,
    program: ActorId,
    tx_id: u64,
    caller: ActorId,
    id: ItemId,
    seller: Role,
    by: Role,
    now: u64,
) -> Outcome {
    match guarded_for(items, id, ItemState { state: ItemEventState::Shipped, by: seller }, by, caller) {
        Err(e) => Err(e),
        Ok(item) => {
            let calls = settlement_calls(
                ft,
                program,
                tx_id,
                party(item.info, seller),
                caller,
                item.info.price,
                elapsed_since(item.shipping_time, now),
                item.info.delivery_time as int,
            ).push(LedgerCall::TransferItem { ledger: nft, tx_id, to: caller, item_id: id });
            Ok((calls, in_state(item, ItemEventState::Received, by)))
        },
    }
}

/// The outcome of the distributor `caller` moving item `id` from `(from,
/// Distributor)` to `(to, Distributor)`.
pub open spec fn process_outcome(
    items: Map<ItemId, Item>,
    caller: ActorId,
    id: ItemId,
    from: ItemEventState,
    to: ItemEventState,
) -> Outcome {
    match guarded_for(
        items,
        id,
        ItemState { state: from, by: Role::Distributor },
        Role::Distributor,
        caller,
    ) {
        Err(e) => Err(e),
        Ok(item) => Ok((Seq::empty(), in_state(item, to, Role::Distributor))),
    }
}

/// The outcome of `caller` buying item `id` from its retailer as a consumer:
/// the price goes to the retailer and the item to the caller.
pub open spec fn consumer_purchase_outcome(
    items: Map<ItemId, Item>,
    ft: ActorId,
    nft: ActorId,
    tx_id: u64,
    caller: ActorId,
    id: ItemId,
) -> Outcome {
    match guarded(items, id, ItemState { state: ItemEventState::ForSale, by: Role::Retailer }) {
        Err(e) => Err(e),
        Ok(item) => {
            let calls = seq![
                LedgerCall::TransferFunds {
                    ledger: ft,
                    tx_id,
                    from: caller,
                    to: item.info.retailer,
                    amount: item.info.price,
                },
                LedgerCall::TransferItem { ledger: nft, tx_id, to: caller, item_id: id },
            ];
            Ok((calls, in_state(item, ItemEventState::Purchased, Role::Consumer)))
        },
    }
}

/// The record of an item just produced by `producer`.
pub open spec fn produced_item(producer: ActorId) -> Item {
    Item { info: ItemInfo { producer, ..ItemInfo::spec_default() }, shipping_time: 0 }
}

/// The party recorded on an item for `role`; nobody for a consumer.
fn party_of(info: &ItemInfo, role: Role) -> (r: ActorId)
    ensures
        r == party(*info, role),
{
    match role {
        Role::Producer => info.producer,
        Role::Distributor => info.distributor,
        Role::Retailer => info.retailer,
        Role::Consumer => ActorId::zero(),
    }
}

/// The supply chain: its items, its participants, and the two ledgers.
pub struct SupplyChain {
    items: ItemTable,
    producers: ActorSet,
    distributors: ActorSet,
    retailers: ActorSet,
    fungible_token: ActorId,
    non_fungible_token: ActorId,
}

impl SupplyChain {
    /// The item records, by id.
    pub closed spec fn item_records(&self) -> Map<ItemId, Item> {
        self.items@
    }

    /// The addresses allowed to act as `role`; every address is a consumer.
    pub closed spec fn members(&self, role: Role) -> Set<ActorId> {
        match role {
            Role::Producer => self.producers@,
            Role::Distributor => self.distributors@,
            Role::Retailer => self.retailers@,
            Role::Consumer => Set::full(),
        }
    }

    /// The fund ledger's address.
    pub closed spec fn ft(&self) -> ActorId {
        self.fungible_token
    }

    /// The item ledger's address.
    pub closed spec fn nft(&self) -> ActorId {
        self.non_fungible_token
    }

    /// Whether `actor` may act as `role`.
    pub fn has_role(&self, role: Role, actor: &ActorId) -> (r: bool)
        ensures
            r == self.members(role).contains(*actor),
    {
        match role {
            Role::Producer => self.producers.contains(actor),
            Role::Distributor => self.distributors.contains(actor),
            Role::Retailer => self.retailers.contains(actor),
            Role::Consumer => true,
        }
    }

    /// The fund ledger's address.
    pub fn fungible_token(&self) -> (r: ActorId)
        ensures
            r == self.ft(),
    {
        self.fungible_token
    }

    /// The item ledger's address.
    pub fn non_fungible_token(&self) -> (r: ActorId)
        ensures
            r == self.nft(),
    {
        self.non_fungible_token
    }

    /// What is known of item `item_id`; nothing if there is no such item.
    pub fn item_info(&self, item_id: ItemId) -> (r: Option<ItemInfo>)
        ensures
            self.item_records().contains_key(item_id) ==> r == Some(
                self.item_records()[item_id].info,
            ),
            !self.item_records().contains_key(item_id) ==> r is None,
    {
        match self.items.get(&item_id) {
            Some(item) => Some(item.info),
            None => None,
        }
    }

    /// Every item with what is known of it, each once, in no set order.
    pub fn existing_items(&self) -> (r: Vec<(ItemId, ItemInfo)>)
        ensures
            r@.len() == self.item_records().len(),
            forall|i: int|
                0 <= i < r@.len() ==> #[trigger] self.item_records().contains_key(r@[i].0)
                    && self.item_records()[r@[i].0].info == r@[i].1,
            forall|i: int|
                0 <= i < r@.len() ==> forall|j: int|
                    i < j < r@.len() ==> #[trigger] r@[i].0 != #[trigger] r@[j].0,
            forall|id: ItemId| #[trigger]
                self.item_records().contains_key(id) ==> exists|i: int|
                    0 <= i < r@.len() && r@[i].0 == id,
    {
        let entries = self.items.entries();
        let mut out: Vec<(ItemId, ItemInfo)> = Vec::new();
        for k in 0..entries.len()
            invariant
                out@.len() == k,
                forall|i: int|
                    0 <= i < k ==> out@[i].0 == entries@[i].0 && out@[i].1 == entries@[i].1.info,
        {
            out.push((entries[k].0, entries[k].1.info));
        }
        proof {
            assert forall|id: ItemId| #[trigger]
                self.item_records().contains_key(id) implies exists|i: int|
                    0 <= i < out@.len() && out@[i].0 == id by {
                let i = choose|i: int| 0 <= i < entries@.len() && entries@[i].0 == id;
                assert(out@[i].0 == id);
            }
            assert forall|i: int| 0 <= i < out@.len() implies #[trigger] self.item_records().contains_key(
                out@[i].0,
            ) && self.item_records()[out@[i].0].info == out@[i].1 by {
                assert(self.items@.contains_key(entries@[i].0));
            }
            assert forall|i: int|
                0 <= i < out@.len() implies forall|j: int|
                    i < j < out@.len() ==> #[trigger] out@[i].0 != #[trigger] out@[j].0 by {
                assert(out@[i].0 == entries@[i].0);
            }
        }
        out
    }

    /// The participant lists, each member once, in no set order.
    pub fn participants(&self) -> (r: Participants)
        ensures
            r.producers@.to_set() == self.members(Role::Producer),
            r.producers@.no_duplicates(),
            r.distributors@.to_set() == self.members(Role::Distributor),
            r.distributors@.no_duplicates(),
            r.retailers@.to_set() == self.members(Role::Retailer),
            r.retailers@.no_duplicates(),
    {
        Participants {
            producers: self.producers.to_vec(),
            distributors: self.distributors.to_vec(),
            retailers: self.retailers.to_vec(),
        }
    }

    /// Stores `item` as the record of item `id`.
    pub(crate) fn store(&mut self, id: ItemId, item: Item)
        ensures
            final(self).item_records() == old(self).item_records().insert(id, item),
            forall|role: Role| #[trigger] final(self).members(role) == old(self).members(role),
            final(self).ft() == old(self).ft(),
            final(self).nft() == old(self).nft(),
    {
        self.items.insert(id, item);
    }

    /// A supply chain with the configured participants and ledgers, and no items.
    ///
    /// Fails with `ZeroActorId` if any listed participant or either ledger is
    /// the zero address.
    pub fn new(init: &SupplyChainInit) -> (r: Result<SupplyChain, SupplyChainError>)
        ensures
            has_zero(init) <==> r is Err,
            r is Err ==> r == Err::<SupplyChain, SupplyChainError>(SupplyChainError::ZeroActorId),
            r matches Ok(c) ==> c.item_records().dom() == Set::<ItemId>::empty(),
            r matches Ok(c) ==> c.members(Role::Producer) == init.producers@.to_set(),
            r matches Ok(c) ==> c.members(Role::Distributor) == init.distributors@.to_set(),
            r matches Ok(c) ==> c.members(Role::Retailer) == init.retailers@.to_set(),
            r matches Ok(c) ==> c.ft() == init.fungible_token && c.nft() == init.non_fungible_token,
    {
        if has_zero_actor(&init.producers) || has_zero_actor(&init.distributors) || has_zero_actor(
            &init.retailers,
        ) || init.fungible_token.is_zero() || init.non_fungible_token.is_zero() {
            return Err(SupplyChainError::ZeroActorId);
        }
        Ok(
            SupplyChain {
                items: ItemTable::new(),
                producers: ActorSet::from_actors(&init.producers),
                distributors: ActorSet::from_actors(&init.distributors),
                retailers: ActorSet::from_actors(&init.retailers),
                fungible_token: init.fungible_token,
                non_fungible_token: init.non_fungible_token,
            },
        )
    }
}

/// The configuration holds the zero address somewhere.
pub open spec fn has_zero(init: &SupplyChainInit) -> bool {
    ||| init.producers@.contains(ActorId::spec_zero())
    ||| init.distributors@.contains(ActorId::spec_zero())
    ||| init.retailers@.contains(ActorId::spec_zero())
    ||| init.fungible_token == ActorId::spec_zero()
    ||| init.non_fungible_token == ActorId::spec_zero()
}

fn has_zero_actor(actors: &Vec<ActorId>) -> (r: bool)
    ensures
        r == actors@.contains(ActorId::spec_zero()),
{
    for i in 0..actors.len()
        invariant
            forall|j: int| 0 <= j < i ==> actors@[j] != ActorId::spec_zero(),
    {
        if actors[i].is_zero() {
            return true;
        }
    }
    false
}

impl SupplyChain {
    /// The record of item `id`, if it exists and is in state `expected`.
    fn checked_item(&self, id: &ItemId, expected: ItemState) -> (r: Result<Item, SupplyChainError>)
        ensures
            r == guarded(self.item_records(), *id, expected),
    {
        match self.items.get(id) {
            None => Err(SupplyChainError::ItemNotFound),
            Some(item) => if item.info.state != expected {
                Err(SupplyChainError::UnexpectedItemState)
            } else {
                Ok(item)
            },
        }
    }

    /// The record of item `id`, if it exists, is in state `expected`, and
    /// `caller` is its party for `role`.
    fn checked_item_for(&self, id: &ItemId, expected: ItemState, role: Role, caller: ActorId) -> (r:
        Result<Item, SupplyChainError>)
        ensures
            r == guarded_for(self.item_records(), *id, expected, role, caller),
    {
        let item = self.checked_item(id, expected)?;
        if party_of(&item.info, role) != caller {
            return Err(SupplyChainError::AccessRestricted);
        }
        Ok(item)
    }

    /// Checks and plans putting item `item_id` up for sale by `msg_source` as `by`.
    pub fn put_up_for_sale(
        &self,
        tx_id: u64,
        program_id: ActorId,
        msg_source: ActorId,
        item_id: ItemId,
        expected_item_event_state: ItemEventState,
        by: Role,
        price: u128,
    ) -> (r: Result<Plan, SupplyChainError>)
        ensures
            plan_outcome(r) == put_up_for_sale_outcome(
                self.item_records(),
                self.nft(),
                program_id,
                tx_id,
                msg_source,
                item_id,
                expected_item_event_state,
                by,
                price,
            ),
    {
        let mut item = self.checked_item_for(
            &item_id,
            ItemState { state: expected_item_event_state, by },
            by,
            msg_source,
        )?;
        let mut calls: Vec<LedgerCall> = Vec::new();
        calls.push(
            LedgerCall::TransferItem {
                ledger: self.non_fungible_token,
                tx_id,
                to: program_id,
                item_id,
            },
        );
        item.info.price = price;
        item.info.state = ItemState { state: ItemEventState::ForSale, by };
        proof {
            assert(calls@ =~= put_up_for_sale_outcome(
                self.item_records(),
                self.nft(),
                program_id,
                tx_id,
                msg_source,
                item_id,
                expected_item_event_state,
                by,
                price,
            )->Ok_0.0);
        }
        Ok(Plan { calls, item })
    }

    /// Checks and plans `msg_source` buying item `item_id` as `by` from its
    /// `expected_by` party.
    pub fn purchase(
        &self,
        tx_id: u64,
        program_id: ActorId,
        msg_source: ActorId,
        item_id: ItemId,
        expected_by: Role,
        by: Role,
        delivery_time: u64,
    ) -> (r: Result<Plan, SupplyChainError>)
        ensures
            plan_outcome(r) == purchase_outcome(
                self.item_records(),
                self.ft(),
                program_id,
                tx_id,
                msg_source,
                item_id,
                expected_by,
                by,
                delivery_time,
            ),
    {
        let mut item = self.checked_item(
            &item_id,
            ItemState { state: ItemEventState::ForSale, by: expected_by },
        )?;
        let mut calls: Vec<LedgerCall> = Vec::new();
        calls.push(
            LedgerCall::TransferFunds {
                ledger: self.fungible_token,
                tx_id,
                from: msg_source,
                to: program_id,
                amount: item.info.price,
            },
        );
        match by {
            Role::Producer => item.info.producer = msg_source,
            Role::Distributor => item.info.distributor = msg_source,
            Role::Retailer => item.info.retailer = msg_source,
            Role::Consumer => {},
        }
        item.info.delivery_time = delivery_time;
        item.info.state = ItemState { state: ItemEventState::Purchased, by };
        proof {
            assert(calls@ =~= purchase_outcome(
                self.item_records(),
                self.ft(),
                program_id,
                tx_id,
                msg_source,
                item_id,
                expected_by,
                by,
                delivery_time,
            )->Ok_0.0);
        }
        Ok(Plan { calls, item })
    }

    /// Checks and plans the seller `msg_source`, as `by`, accepting or
    /// rejecting the purchase of item `item_id` by its `expected_by` party.
    pub fn approve(
        &self,
        tx_id: u64,
        program_id: ActorId,
        msg_source: ActorId,
        item_id: ItemId,
        expected_by: Role,
        by: Role,
        approve: bool,
    ) -> (r: Result<Plan, SupplyChainError>)
        ensures
            plan_outcome(r) == approve_outcome(
                self.item_records(),
                self.ft(),
                program_id,
                tx_id,
                msg_source,
                item_id,
                expected_by,
                by,
                approve,
            ),
    {
        let mut item = self.checked_item_for(
            &item_id,
            ItemState { state: ItemEventState::Purchased, by: expected_by },
            by,
            msg_source,
        )?;
        let mut calls: Vec<LedgerCall> = Vec::new();
        if approve {
            item.info.state = ItemState { state: ItemEventState::Approved, by };
            proof {
                assert(calls@ =~= Seq::<LedgerCall>::empty());
            }
        } else {
            calls.push(
                LedgerCall::TransferFunds {
                    ledger: self.fungible_token,
                    tx_id,
                    from: program_id,
                    to: party_of(&item.info, expected_by),
                    amount: item.info.price,
                },
            );
            item.info.state = ItemState { state: ItemEventState::ForSale, by };
            proof {
                assert(calls@ =~= approve_outcome(
                    self.item_records(),
                    self.ft(),
                    program_id,
                    tx_id,
                    msg_source,
                    item_id,
                    expected_by,
                    by,
                    approve,
                )->Ok_0.0);
            }
        }
        Ok(Plan { calls, item })
    }

    /// Checks and plans the seller `msg_source`, as `by`, shipping item
    /// `item_id` at `now`.
    pub fn ship(&self, msg_source: ActorId, item_id: ItemId, by: Role, now: u64) -> (r: Result<
        Plan,
        SupplyChainError,
    >)
        ensures
            plan_outcome(r) == ship_outcome(self.item_records(), msg_source, item_id, by, now),
    {
        let mut item = self.checked_item_for(
            &item_id,
            ItemState { state: ItemEventState::Approved, by },
            by,
            msg_source,
        )?;
        item.shipping_time = now;
        item.info.state = ItemState { state: ItemEventState::Shipped, by };
        let calls: Vec<LedgerCall> = Vec::new();
        proof {
            assert(calls@ =~= Seq::<LedgerCall>::empty());
        }
        Ok(Plan { calls, item })
    }

    /// Checks and plans the buyer `msg_source`, as `by`, receiving item
    /// `item_id` from its `expected_by` party at `now`.
    pub fn receive(
        &self,
        tx_id: u64,
        program_id: ActorId,
        msg_source: ActorId,
        item_id: ItemId,
        expected_by: Role,
        by: Role,
        now: u64,
    ) -> (r: Result<Plan, SupplyChainError>)
        ensures
            plan_outcome(r) == receive_outcome(
                self.item_records(),
                self.ft(),
                self.nft(),
                program_id,
                tx_id,
                msg_source,
                item_id,
                expected_by,
                by,
                now,
            ),
    {
        let mut item = self.checked_item_for(
            &item_id,
            ItemState { state: ItemEventState::Shipped, by: expected_by },
            by,
            msg_source,
        )?;
        let elapsed: u64 = if now >= item.shipping_time {
            now - item.shipping_time
        } else {
            0
        };
        let seller = party_of(&item.info, expected_by);
        let price = item.info.price;
        let delivery_time = item.info.delivery_time;
        let shares = settle(price, elapsed, delivery_time);
        let ft = self.fungible_token;
        let mut calls: Vec<LedgerCall> = Vec::new();
        if elapsed <= delivery_time {
            calls.push(
                LedgerCall::TransferFunds { ledger: ft, tx_id, from: program_id, to: seller, amount: price },
            );
        } else if elapsed - delivery_time >= delivery_time {
            calls.push(
                LedgerCall::TransferFunds {
                    ledger: ft,
                    tx_id,
                    from: program_id,
                    to: msg_source,
                    amount: price,
                },
            );
        } else {
            calls.push(
                LedgerCall::TransferFunds {
                    ledger: ft,
                    tx_id: tx_id.wrapping_add(1),
                    from: program_id,
                    to: msg_source,
                    amount: shares.1,
                },
            );
            calls.push(
                LedgerCall::TransferFunds {
                    ledger: ft,
                    tx_id,
                    from: program_id,
                    to: seller,
                    amount: shares.0,
                },
            );
        }
        calls.push(
            LedgerCall::TransferItem {
                ledger: self.non_fungible_token,
                tx_id,
                to: msg_source,
                item_id,
            },
        );
        item.info.state = ItemState { state: ItemEventState::Received, by };
        proof {
            assert(calls@ =~= receive_outcome(
                self.item_records(),
                self.ft(),
                self.nft(),
                program_id,
                tx_id,
                msg_source,
                item_id,
                expected_by,
                by,
                now,
            )->Ok_0.0);
        }
        Ok(Plan { calls, item })
    }

    /// Checks and plans the distributor `msg_source` moving item `item_id`
    /// from `(expected_item_event_state, Distributor)` to `(state, Distributor)`.
    pub fn process_or_package(
        &self,
        msg_source: ActorId,
        item_id: ItemId,
        expected_item_event_state: ItemEventState,
        state: ItemEventState,
    ) -> (r: Result<Plan, SupplyChainError>)
        ensures
            plan_outcome(r) == process_outcome(
                self.item_records(),
                msg_source,
                item_id,
                expected_item_event_state,
                state,
            ),
    {
        let mut item = self.checked_item_for(
            &item_id,
            ItemState { state: expected_item_event_state, by: Role::Distributor },
            Role::Distributor,
            msg_source,
        )?;
        item.info.state = ItemState { state, by: Role::Distributor };
        let calls: Vec<LedgerCall> = Vec::new();
        proof {
            assert(calls@ =~= Seq::<LedgerCall>::empty());
        }
        Ok(Plan { calls, item })
    }

    /// Checks and plans `msg_source` buying item `item_id` from its retailer
    /// as a consumer.
    pub fn consumer_purchase(&self, tx_id: u64, msg_source: ActorId, item_id: ItemId) -> (r: Result<
        Plan,
        SupplyChainError,
    >)
        ensures
            plan_outcome(r) == consumer_purchase_outcome(
                self.item_records(),
                self.ft(),
                self.nft(),
                tx_id,
                msg_source,
                item_id,
            ),
    {
        let mut item = self.checked_item(
            &item_id,
            ItemState { state: ItemEventState::ForSale, by: Role::Retailer },
        )?;
        let mut calls: Vec<LedgerCall> = Vec::new();
        calls.push(
            LedgerCall::TransferFunds {
                ledger: self.fungible_token,
                tx_id,
                from: msg_source,
                to: item.info.retailer,
                amount: item.info.price,
            },
        );
        calls.push(
            LedgerCall::TransferItem {
                ledger: self.non_fungible_token,
                tx_id,
                to: msg_source,
                item_id,
            },
        );
        item.info.state = ItemState { state: ItemEventState::Purchased, by: Role::Consumer };
        proof {
            assert(calls@ =~= consumer_purchase_outcome(
                self.item_records(),
                self.ft(),
                self.nft(),
                tx_id,
                msg_source,
                item_id,
            )->Ok_0.0);
        }
        Ok(Plan { calls, item })
    }
}

} // verus!
