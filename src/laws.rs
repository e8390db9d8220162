//! Properties of the supply chain that relate several of its functions, each
//! stated and proved as a proof function.
use crate::chain::{
    approve_outcome, elapsed_since, party, produced_item, purchase_outcome, receive_outcome,
    settlement, Item, LedgerCall, SupplyChain,
};
use crate::dispatch::{action_item, action_outcome, authorized, handled, tx_width, Step};
use crate::tx_manager::{acquire_outcome, TransactionManager};
use crate::types::{
    ActionKind, ActorId, DistributorAction, InnerSupplyChainAction, ItemEventState, ItemId,
    ItemState, ProducerAction, RetailerAction, Role, SupplyChainAction, SupplyChainError,
};
use vstd::prelude::*;

verus! {

/// The state an action requires of its item; producing requires none.
pub open spec fn required_state(action: InnerSupplyChainAction) -> Option<ItemState> {
    match action {
        InnerSupplyChainAction::Producer(a) => match a {
            ProducerAction::Produce { .. } => None,
            ProducerAction::PutUpForSale { .. } => Some(
                ItemState { state: ItemEventState::Produced, by: Role::Producer },
            ),
            ProducerAction::Approve { .. } => Some(
                ItemState { state: ItemEventState::Purchased, by: Role::Distributor },
            ),
            ProducerAction::Ship(_) => Some(
                ItemState { state: ItemEventState::Approved, by: Role::Producer },
            ),
        },
        InnerSupplyChainAction::Distributor(a) => match a {
            DistributorAction::Purchase { .. } => Some(
                ItemState { state: ItemEventState::ForSale, by: Role::Producer },
            ),
            DistributorAction::Receive(_) => Some(
                ItemState { state: ItemEventState::Shipped, by: Role::Producer },
            ),
            DistributorAction::Process(_) => Some(
                ItemState { state: ItemEventState::Received, by: Role::Distributor },
            ),
            DistributorAction::Package(_) => Some(
                ItemState { state: ItemEventState::Processed, by: Role::Distributor },
            ),
            DistributorAction::PutUpForSale { .. } => Some(
                ItemState { state: ItemEventState::Packaged, by: Role::Distributor },
            ),
            DistributorAction::Approve { .. } => Some(
                ItemState { state: ItemEventState::Purchased, by: Role::Retailer },
            ),
            DistributorAction::Ship(_) => Some(
                ItemState { state: ItemEventState::Approved, by: Role::Distributor },
            ),
        },
        InnerSupplyChainAction::Retailer(a) => match a {
            RetailerAction::Purchase { .. } => Some(
                ItemState { state: ItemEventState::ForSale, by: Role::Distributor },
            ),
            RetailerAction::Receive(_) => Some(
                ItemState { state: ItemEventState::Shipped, by: Role::Distributor },
            ),
            RetailerAction::PutUpForSale { .. } => Some(
                ItemState { state: ItemEventState::Received, by: Role::Retailer },
            ),
        },
        InnerSupplyChainAction::Consumer(_) => Some(
            ItemState { state: ItemEventState::ForSale, by: Role::Retailer },
        ),
    }
}

/// The role whose recorded party must be the caller, for the actions that
/// have one: the seller for selling, approving and shipping, the buyer for
/// receiving, the distributor for processing and packaging.
pub open spec fn acting_party(action: InnerSupplyChainAction) -> Option<Role> {
    match action {
        InnerSupplyChainAction::Producer(a) => match a {
            ProducerAction::Produce { .. } => None,
            _ => Some(Role::Producer),
        },
        InnerSupplyChainAction::Distributor(a) => match a {
            DistributorAction::Purchase { .. } => None,
            _ => Some(Role::Distributor),
        },
        InnerSupplyChainAction::Retailer(a) => match a {
            RetailerAction::Purchase { .. } => None,
            _ => Some(Role::Retailer),
        },
        InnerSupplyChainAction::Consumer(_) => None,
    }
}

/// The state `(state, by)`.
pub open spec fn at(state: ItemEventState, by: Role) -> ItemState {
    ItemState { state, by }
}

/// The item lifecycle: `from` may be followed by `to`.
pub open spec fn transition(from: ItemState, to: ItemState) -> bool {
    ||| from == at(ItemEventState::Produced, Role::Producer) && to == at(ItemEventState::ForSale, Role::Producer)
    ||| from == at(ItemEventState::ForSale, Role::Producer) && to == at(ItemEventState::Purchased, Role::Distributor)
    ||| from == at(ItemEventState::Purchased, Role::Distributor) && to == at(ItemEventState::Approved, Role::Producer)
    ||| from == at(ItemEventState::Purchased, Role::Distributor) && to == at(ItemEventState::ForSale, Role::Producer)
    ||| from == at(ItemEventState::Approved, Role::Producer) && to == at(ItemEventState::Shipped, Role::Producer)
    ||| from == at(ItemEventState::Shipped, Role::Producer) && to == at(ItemEventState::Received, Role::Distributor)
    ||| from == at(ItemEventState::Received, Role::Distributor) && to == at(ItemEventState::Processed, Role::Distributor)
    ||| from == at(ItemEventState::Processed, Role::Distributor) && to == at(ItemEventState::Packaged, Role::Distributor)
    ||| from == at(ItemEventState::Packaged, Role::Distributor) && to == at(ItemEventState::ForSale, Role::Distributor)
    ||| from == at(ItemEventState::ForSale, Role::Distributor) && to == at(ItemEventState::Purchased, Role::Retailer)
    ||| from == at(ItemEventState::Purchased, Role::Retailer) && to == at(ItemEventState::Approved, Role::Distributor)
    ||| from == at(ItemEventState::Purchased, Role::Retailer) && to == at(ItemEventState::ForSale, Role::Distributor)
    ||| from == at(ItemEventState::Approved, Role::Distributor) && to == at(ItemEventState::Shipped, Role::Distributor)
    ||| from == at(ItemEventState::Shipped, Role::Distributor) && to == at(ItemEventState::Received, Role::Retailer)
    ||| from == at(ItemEventState::Received, Role::Retailer) && to == at(ItemEventState::ForSale, Role::Retailer)
    ||| from == at(ItemEventState::ForSale, Role::Retailer) && to == at(ItemEventState::Purchased, Role::Consumer)
}

/// The funds that the transfers among `calls` send to `who`.
pub open spec fn funds_to(calls: Seq<LedgerCall>, who: ActorId) -> int
    decreases calls.len(),
{
    if calls.len() == 0 {
        0
    } else {
        let rest = funds_to(calls.drop_last(), who);
        match calls.last() {
            LedgerCall::TransferFunds { to, amount, .. } => if to == who {
                rest + amount
            } else {
                rest
            },
            LedgerCall::TransferItem { .. } => rest,
        }
    }
}

/// The shares of seller and buyer when item `id` is received at `now`.
pub open spec fn receive_shares(items: Map<ItemId, Item>, id: ItemId, now: u64) -> (u128, u128) {
    settlement(
        items[id].info.price,
        elapsed_since(items[id].shipping_time, now),
        items[id].info.delivery_time as int,
    )
}

/// Every action but producing that succeeds was applied to an existing item
/// in the state it requires, and moves the item along the lifecycle; an
/// action on an item in another state fails with `UnexpectedItemState`, and
/// one on a missing item with `ItemNotFound`. A produced item starts as
/// produced by its producer.
pub proof fn lemma_lifecycle(
    c: SupplyChain,
    program: ActorId,
    tx_id: u64,
    source: ActorId,
    action: InnerSupplyChainAction,
    now: u64,
)
    requires
        required_state(action) is Some,
    ensures
        action_outcome(c, program, tx_id, source, action, now) is Ok ==> c.item_records().contains_key(
            action_item(action),
        ),
        action_outcome(c, program, tx_id, source, action, now) is Ok ==> c.item_records()[action_item(
            action,
        )].info.state == required_state(action)->Some_0,
        action_outcome(c, program, tx_id, source, action, now) is Ok ==> transition(
            c.item_records()[action_item(action)].info.state,
            action_outcome(c, program, tx_id, source, action, now)->Ok_0.1.info.state,
        ),
        !c.item_records().contains_key(action_item(action)) ==> action_outcome(
            c,
            program,
            tx_id,
            source,
            action,
            now,
        ) == Err::<(Seq<LedgerCall>, Item), SupplyChainError>(SupplyChainError::ItemNotFound),
        c.item_records().contains_key(action_item(action)) && c.item_records()[action_item(
            action,
        )].info.state != required_state(action)->Some_0 ==> action_outcome(
            c,
            program,
            tx_id,
            source,
            action,
            now,
        ) == Err::<(Seq<LedgerCall>, Item), SupplyChainError>(
            SupplyChainError::UnexpectedItemState,
        ),
        produced_item(source).info.state == at(ItemEventState::Produced, Role::Producer),
{
}

/// An action in a role that the caller does not hold fails with
/// `AccessRestricted` and leaves the reservations as they were.
pub proof fn lemma_role_refused(
    c: SupplyChain,
    pre: TransactionManager,
    post: TransactionManager,
    source: ActorId,
    action: SupplyChainAction,
    now: u64,
    program: ActorId,
    r: Result<Step, SupplyChainError>,
)
    requires
        handled(c, pre, post, source, action, now, program, r),
        !authorized(c, source, action.action),
    ensures
        r == Err::<Step, SupplyChainError>(SupplyChainError::AccessRestricted),
        post.reservations() == pre.reservations(),
        post.nonce() == pre.nonce(),
{
}

/// An action on an item in the state it requires fails with
/// `AccessRestricted` when the caller is not the item's party for the role
/// that the action is taken in.
pub proof fn lemma_party_refused(
    c: SupplyChain,
    program: ActorId,
    tx_id: u64,
    source: ActorId,
    action: InnerSupplyChainAction,
    now: u64,
)
    requires
        acting_party(action) is Some,
        c.item_records().contains_key(action_item(action)),
        c.item_records()[action_item(action)].info.state == required_state(action)->Some_0,
        party(c.item_records()[action_item(action)].info, acting_party(action)->Some_0) != source,
    ensures
        action_outcome(c, program, tx_id, source, action, now) == Err::<
            (Seq<LedgerCall>, Item),
            SupplyChainError,
        >(SupplyChainError::AccessRestricted),
{
}

/// Receiving pays the seller and refunds the buyer exactly their shares of
/// the settlement, which together make the price.
pub proof fn lemma_receive_pays_shares(
    items: Map<ItemId, Item>,
    ft: ActorId,
    nft: ActorId,
    program: ActorId,
    tx_id: u64,
    caller: ActorId,
    id: ItemId,
    seller: Role,
    by: Role,
    now: u64,
)
    requires
        receive_outcome(items, ft, nft, program, tx_id, caller, id, seller, by, now) is Ok,
        party(items[id].info, seller) != caller,
    ensures
        funds_to(
            receive_outcome(items, ft, nft, program, tx_id, caller, id, seller, by, now)->Ok_0.0,
            party(items[id].info, seller),
        ) == receive_shares(items, id, now).0,
        funds_to(
            receive_outcome(items, ft, nft, program, tx_id, caller, id, seller, by, now)->Ok_0.0,
            caller,
        ) == receive_shares(items, id, now).1,
        receive_shares(items, id, now).0 + receive_shares(items, id, now).1 == items[id].info.price,
{
    reveal_with_fuel(funds_to, 4);
}

/// Rejecting a purchase refunds the buyer the whole price from the chain's
/// own address and puts the item up for sale by the same seller again, so
/// that it can be bought anew.
pub proof fn lemma_reject_then_purchase(
    items: Map<ItemId, Item>,
    ft: ActorId,
    program: ActorId,
    tx_id: u64,
    caller: ActorId,
    id: ItemId,
    buyer: Role,
    by: Role,
    next_tx_id: u64,
    next_buyer: ActorId,
    delivery_time: u64,
)
    requires
        approve_outcome(items, ft, program, tx_id, caller, id, buyer, by, false) is Ok,
    ensures
        approve_outcome(items, ft, program, tx_id, caller, id, buyer, by, false)->Ok_0.0 == seq![
            LedgerCall::TransferFunds {
                ledger: ft,
                tx_id,
                from: program,
                to: party(items[id].info, buyer),
                amount: items[id].info.price,
            },
        ],
        approve_outcome(items, ft, program, tx_id, caller, id, buyer, by, false)->Ok_0.1.info.state
            == at(ItemEventState::ForSale, by),
        purchase_outcome(
            items.insert(id, approve_outcome(items, ft, program, tx_id, caller, id, buyer, by, false)->Ok_0.1),
            ft,
            program,
            next_tx_id,
            next_buyer,
            id,
            by,
            buyer,
            delivery_time,
        ) is Ok,
{
}

/// A retry by an owner with no live reservation fails with
/// `TransactionNotFound`, and one of another width than was reserved with
/// `UnexpectedTransactionAmount`; either way nothing is reserved or released.
pub proof fn lemma_bad_retry(
    c: SupplyChain,
    pre: TransactionManager,
    post: TransactionManager,
    source: ActorId,
    action: SupplyChainAction,
    now: u64,
    program: ActorId,
    r: Result<Step, SupplyChainError>,
)
    requires
        handled(c, pre, post, source, action, now, program, r),
        authorized(c, source, action.action),
        action.kind == ActionKind::Retry,
        tx_width(action.action) > 0,
    ensures
        !pre.reservations().contains_key(source) ==> r == Err::<Step, SupplyChainError>(
            SupplyChainError::TransactionNotFound,
        ),
        pre.reservations().contains_key(source) && pre.reservations()[source].1 != tx_width(
            action.action,
        ) ==> r == Err::<Step, SupplyChainError>(SupplyChainError::UnexpectedTransactionAmount),
        !pre.reservations().contains_key(source) || pre.reservations()[source].1 != tx_width(
            action.action,
        ) ==> post.reservations() == pre.reservations() && post.nonce() == pre.nonce(),
{
}

/// After a new action of `owner` reserves ids, a retry of the same width
/// while the reservation lives gets the same ids back and changes nothing.
pub proof fn lemma_retry_gets_same_ids(
    res: Map<ActorId, (u64, u8)>,
    nonce: u64,
    owner: ActorId,
    width: u8,
)
    requires
        !res.contains_key(owner),
    ensures
        acquire_outcome(
            acquire_outcome(res, nonce, ActionKind::New, owner, width).1,
            acquire_outcome(res, nonce, ActionKind::New, owner, width).2,
            ActionKind::Retry,
            owner,
            width,
        ) == acquire_outcome(res, nonce, ActionKind::New, owner, width),
{
}

/// A step that [`SupplyChain::handle`] plans for an action on an existing
/// item leaves that item, once finished, in a state that follows its current
/// one in the lifecycle.
pub proof fn lemma_handled_step_follows_lifecycle(
    c: SupplyChain,
    pre: TransactionManager,
    post: TransactionManager,
    source: ActorId,
    action: SupplyChainAction,
    now: u64,
    program: ActorId,
    r: Result<Step, SupplyChainError>,
)
    requires
        handled(c, pre, post, source, action, now, program, r),
        r is Ok,
        r->Ok_0 is Calls,
    ensures
        c.item_records().contains_key(r->Ok_0->Calls_0.spec_item_id()),
        transition(
            c.item_records()[r->Ok_0->Calls_0.spec_item_id()].info.state,
            r->Ok_0->Calls_0.spec_item().info.state,
        ),
{
    let inner = action.action;
    if tx_width(inner) == 0 {
        lemma_lifecycle(c, program, 0, source, inner, now);
    } else {
        let g = acquire_outcome(
            pre.reservations(),
            pre.nonce(),
            action.kind,
            source,
            tx_width(inner),
        ).0;
        lemma_lifecycle(c, program, g->Ok_0.tx_id, source, inner, now);
    }
}

/// A state an item can be in: the state it is produced in, or one that the
/// lifecycle leads to.
pub open spec fn reachable(s: ItemState) -> bool {
    s == at(ItemEventState::Produced, Role::Producer) || exists|from: ItemState| transition(from, s)
}

/// Every item is in a state it can be in.
pub open spec fn all_reachable(items: Map<ItemId, Item>) -> bool {
    forall|id: ItemId| #[trigger] items.contains_key(id) ==> reachable(items[id].info.state)
}

/// An item bought by a consumer has reached the end of the lifecycle.
pub proof fn lemma_consumer_purchase_is_final(to: ItemState)
    ensures
        !transition(at(ItemEventState::Purchased, Role::Consumer), to),
{
}

/// Storing what a step planned by [`SupplyChain::handle`] leads to, as
/// [`SupplyChain::finish`] does once its calls succeeded, changes no other
/// item, moves the step's item along the lifecycle, and keeps every item in
/// a state it can be in.
pub proof fn lemma_finished_step_keeps_lifecycle(
    c: SupplyChain,
    pre: TransactionManager,
    post: TransactionManager,
    source: ActorId,
    action: SupplyChainAction,
    now: u64,
    program: ActorId,
    r: Result<Step, SupplyChainError>,
)
    requires
        handled(c, pre, post, source, action, now, program, r),
        r is Ok,
        r->Ok_0 is Calls,
        all_reachable(c.item_records()),
    ensures
        all_reachable(
            c.item_records().insert(r->Ok_0->Calls_0.spec_item_id(), r->Ok_0->Calls_0.spec_item()),
        ),
        transition(
            c.item_records()[r->Ok_0->Calls_0.spec_item_id()].info.state,
            r->Ok_0->Calls_0.spec_item().info.state,
        ),
        forall|id: ItemId|
            id != r->Ok_0->Calls_0.spec_item_id() ==> #[trigger] c.item_records().insert(
                r->Ok_0->Calls_0.spec_item_id(),
                r->Ok_0->Calls_0.spec_item(),
            ).contains_key(id) == c.item_records().contains_key(id),
{
    lemma_handled_step_follows_lifecycle(c, pre, post, source, action, now, program, r);
    let p = r->Ok_0->Calls_0;
    let after = c.item_records().insert(p.spec_item_id(), p.spec_item());
    assert forall|id: ItemId| #[trigger] after.contains_key(id) implies reachable(after[id].info.state) by {
        if id == p.spec_item_id() {
            assert(transition(c.item_records()[id].info.state, after[id].info.state));
        } else {
            assert(c.item_records().contains_key(id));
        }
    }
}

/// Storing a newly produced item under the id the item ledger minted, as
/// [`SupplyChain::finish`] does after [`SupplyChain::minted`], adds one item
/// in the state items are produced in and keeps every item in a state it can
/// be in. The item ledger mints an id that is not yet in use.
pub proof fn lemma_produced_item_keeps_lifecycle(
    items: Map<ItemId, Item>,
    id: ItemId,
    producer: ActorId,
)
    requires
        all_reachable(items),
        !items.contains_key(id),
    ensures
        all_reachable(items.insert(id, produced_item(producer))),
        items.insert(id, produced_item(producer))[id].info.state == at(
            ItemEventState::Produced,
            Role::Producer,
        ),
        forall|other: ItemId|
            other != id ==> #[trigger] items.insert(id, produced_item(producer)).contains_key(other)
                == items.contains_key(other),
{
}

} // verus!
