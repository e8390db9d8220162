//! The single entry point for actions: the caller's role is checked, the
//! action's transaction ids are acquired, and the action is checked and
//! planned; [`SupplyChain::finish`] closes it once its ledger calls were made.
use crate::chain::{
    has_zero,
    approve_outcome, consumer_purchase_outcome, process_outcome, produced_item,
    purchase_outcome, put_up_for_sale_outcome, receive_outcome, ship_outcome, Item, LedgerCall,
    Outcome, Plan, SupplyChain,
};
use crate::tx_manager::{acquire_outcome, next_cursor, released, TransactionGuard, TransactionManager};
use crate::types::{
    ActorId, ConsumerAction, DistributorAction, InnerSupplyChainAction, ItemEventState, ItemId,
    ItemInfo, ProducerAction, RetailerAction, Role, SupplyChainAction, SupplyChainError,
    SupplyChainEvent, SupplyChainInit, TokenMetadata,
};
use vstd::prelude::*;

verus! {

/// The first step of producing an item: its token is to be minted on the
/// item ledger under the guard's id, then handed to [`SupplyChain::minted`].
#[derive(Clone, Debug)]
pub struct MintRequest {
    guard: TransactionGuard,
    ledger: ActorId,
    token_metadata: TokenMetadata,
    producer: ActorId,
}

impl MintRequest {
    pub closed spec fn spec_guard(&self) -> TransactionGuard {
        self.guard
    }

    pub closed spec fn spec_ledger(&self) -> ActorId {
        self.ledger
    }

    pub closed spec fn spec_token_metadata(&self) -> TokenMetadata {
        self.token_metadata
    }

    pub closed spec fn spec_producer(&self) -> ActorId {
        self.producer
    }

    /// The reservation of the producing action; the mint is made under its first id.
    pub fn guard(&self) -> (r: TransactionGuard)
        ensures
            r == self.spec_guard(),
    {
        self.guard
    }

    /// The item ledger to mint on.
    pub fn ledger(&self) -> (r: ActorId)
        ensures
            r == self.spec_ledger(),
    {
        self.ledger
    }

    /// The metadata of the token to mint.
    pub fn token_metadata(&self) -> (r: &TokenMetadata)
        ensures
            *r == self.spec_token_metadata(),
    {
        &self.token_metadata
    }

    /// The producer the item is made for.
    pub fn producer(&self) -> (r: ActorId)
        ensures
            r == self.spec_producer(),
    {
        self.producer
    }
}

/// A checked action waiting for its ledger calls, which are to be made in
/// order, each after the previous one succeeded; then it goes to
/// [`SupplyChain::finish`].
#[derive(Clone, Debug)]
pub struct Pending {
    guard: Option<TransactionGuard>,
    item_id: ItemId,
    calls: Vec<LedgerCall>,
    item: Item,
}

impl Pending {
    pub closed spec fn spec_guard(&self) -> Option<TransactionGuard> {
        self.guard
    }

    pub closed spec fn spec_item_id(&self) -> ItemId {
        self.item_id
    }

    pub closed spec fn spec_calls(&self) -> Seq<LedgerCall> {
        self.calls@
    }

    pub closed spec fn spec_item(&self) -> Item {
        self.item
    }

    /// The reservation of the action, if it made one.
    pub fn guard(&self) -> (r: Option<TransactionGuard>)
        ensures
            r == self.spec_guard(),
    {
        self.guard
    }

    /// The item the action is about.
    pub fn item_id(&self) -> (r: ItemId)
        ensures
            r == self.spec_item_id(),
    {
        self.item_id
    }

    /// The ledger calls to make, in order.
    pub fn calls(&self) -> (r: &Vec<LedgerCall>)
        ensures
            r@ == self.spec_calls(),
    {
        &self.calls
    }

    /// The item's record once the calls have all succeeded.
    pub fn item(&self) -> (r: Item)
        ensures
            r == self.spec_item(),
    {
        self.item
    }
}

/// What is to be done next for an accepted action.
#[derive(Clone, Debug)]
pub enum Step {
    Mint(MintRequest),
    Calls(Pending),
}

/// The caller is allowed to act in the role of the action.
pub open spec fn authorized(c: SupplyChain, source: ActorId, action: InnerSupplyChainAction) -> bool {
    match action {
        InnerSupplyChainAction::Producer(_) => c.members(Role::Producer).contains(source),
        InnerSupplyChainAction::Distributor(_) => c.members(Role::Distributor).contains(source),
        InnerSupplyChainAction::Retailer(_) => c.members(Role::Retailer).contains(source),
        InnerSupplyChainAction::Consumer(_) => true,
    }
}

/// How many transaction ids the action reserves: two for producing and for
/// receiving, none for shipping, processing and packaging, one for the rest.
pub open spec fn tx_width(action: InnerSupplyChainAction) -> u8 {
    match action {
        InnerSupplyChainAction::Producer(ProducerAction::Produce { .. }) => 2,
        InnerSupplyChainAction::Producer(ProducerAction::Ship(_)) => 0,
        InnerSupplyChainAction::Producer(_) => 1,
        InnerSupplyChainAction::Distributor(DistributorAction::Receive(_)) => 2,
        InnerSupplyChainAction::Distributor(DistributorAction::Process(_)) => 0,
        InnerSupplyChainAction::Distributor(DistributorAction::Package(_)) => 0,
        InnerSupplyChainAction::Distributor(DistributorAction::Ship(_)) => 0,
        InnerSupplyChainAction::Distributor(_) => 1,
        InnerSupplyChainAction::Retailer(RetailerAction::Receive(_)) => 2,
        InnerSupplyChainAction::Retailer(_) => 1,
        InnerSupplyChainAction::Consumer(_) => 1,
    }
}

/// The item an action is about; producing names none yet.
pub open spec fn action_item(action: InnerSupplyChainAction) -> ItemId {
    match action {
        InnerSupplyChainAction::Producer(ProducerAction::Produce { .. }) => ItemId { high: 0, low: 0 },
        InnerSupplyChainAction::Producer(ProducerAction::PutUpForSale { item_id, .. }) => item_id,
        InnerSupplyChainAction::Producer(ProducerAction::Approve { item_id, .. }) => item_id,
        InnerSupplyChainAction::Producer(ProducerAction::Ship(item_id)) => item_id,
        InnerSupplyChainAction::Distributor(DistributorAction::Purchase { item_id, .. }) => item_id,
        InnerSupplyChainAction::Distributor(DistributorAction::Receive(item_id)) => item_id,
        InnerSupplyChainAction::Distributor(DistributorAction::Process(item_id)) => item_id,
        InnerSupplyChainAction::Distributor(DistributorAction::Package(item_id)) => item_id,
        InnerSupplyChainAction::Distributor(DistributorAction::PutUpForSale { item_id, .. }) => item_id,
        InnerSupplyChainAction::Distributor(DistributorAction::Approve { item_id, .. }) => item_id,
        InnerSupplyChainAction::Distributor(DistributorAction::Ship(item_id)) => item_id,
        InnerSupplyChainAction::Retailer(RetailerAction::Purchase { item_id, .. }) => item_id,
        InnerSupplyChainAction::Retailer(RetailerAction::Receive(item_id)) => item_id,
        InnerSupplyChainAction::Retailer(RetailerAction::PutUpForSale { item_id, .. }) => item_id,
        InnerSupplyChainAction::Consumer(ConsumerAction::Purchase(item_id)) => item_id,
    }
}

/// What an action other than producing comes to under transaction id
/// `tx_id`, at time `now`, with `program` the chain's own address. Producing
/// is planned in two steps, by [`SupplyChain::handle`] and [`SupplyChain::minted`].
pub open spec fn action_outcome(
    c: SupplyChain,
    program: ActorId,
    tx_id: u64,
    source: ActorId,
    action: InnerSupplyChainAction,
    now: u64,
) -> Outcome {
    let items = c.item_records();
    match action {
        InnerSupplyChainAction::Producer(ProducerAction::Produce { .. }) => Ok(
            (Seq::empty(), produced_item(source)),
        ),
        InnerSupplyChainAction::Producer(ProducerAction::PutUpForSale { item_id, price }) =>
            put_up_for_sale_outcome(
            items,
            c.nft(),
            program,
            tx_id,
            source,
            item_id,
            ItemEventState::Produced,
            Role::Producer,
            price,
        ),
        InnerSupplyChainAction::Producer(ProducerAction::Approve { item_id, approve }) =>
            approve_outcome(
            items,
            c.ft(),
            program,
            tx_id,
            source,
            item_id,
            Role::Distributor,
            Role::Producer,
            approve,
        ),
        InnerSupplyChainAction::Producer(ProducerAction::Ship(item_id)) => ship_outcome(
            items,
            source,
            item_id,
            Role::Producer,
            now,
        ),
        InnerSupplyChainAction::Distributor(DistributorAction::Purchase { item_id, delivery_time }) =>
            purchase_outcome(
            items,
            c.ft(),
            program,
            tx_id,
            source,
            item_id,
            Role::Producer,
            Role::Distributor,
            delivery_time,
        ),
        InnerSupplyChainAction::Distributor(DistributorAction::Receive(item_id)) => receive_outcome(
            items,
            c.ft(),
            c.nft(),
            program,
            tx_id,
            source,
            item_id,
            Role::Producer,
            Role::Distributor,
            now,
        ),
        InnerSupplyChainAction::Distributor(DistributorAction::Process(item_id)) => process_outcome(
            items,
            source,
            item_id,
            ItemEventState::Received,
            ItemEventState::Processed,
        ),
        InnerSupplyChainAction::Distributor(DistributorAction::Package(item_id)) => process_outcome(
            items,
            source,
            item_id,
            ItemEventState::Processed,
            ItemEventState::Packaged,
        ),
        InnerSupplyChainAction::Distributor(DistributorAction::PutUpForSale { item_id, price }) =>
            put_up_for_sale_outcome(
            items,
            c.nft(),
            program,
            tx_id,
            source,
            item_id,
            ItemEventState::Packaged,
            Role::Distributor,
            price,
        ),
        InnerSupplyChainAction::Distributor(DistributorAction::Approve { item_id, approve }) =>
            approve_outcome(
            items,
            c.ft(),
            program,
            tx_id,
            source,
            item_id,
            Role::Retailer,
            Role::Distributor,
            approve,
        ),
        InnerSupplyChainAction::Distributor(DistributorAction::Ship(item_id)) => ship_outcome(
            items,
            source,
            item_id,
            Role::Distributor,
            now,
        ),
        InnerSupplyChainAction::Retailer(RetailerAction::Purchase { item_id, delivery_time }) =>
            purchase_outcome(
            items,
            c.ft(),
            program,
            tx_id,
            source,
            item_id,
            Role::Distributor,
            Role::Retailer,
            delivery_time,
        ),
        InnerSupplyChainAction::Retailer(RetailerAction::Receive(item_id)) => receive_outcome(
            items,
            c.ft(),
            c.nft(),
            program,
            tx_id,
            source,
            item_id,
            Role::Distributor,
            Role::Retailer,
            now,
        ),
        InnerSupplyChainAction::Retailer(RetailerAction::PutUpForSale { item_id, price }) =>
            put_up_for_sale_outcome(
            items,
            c.nft(),
            program,
            tx_id,
            source,
            item_id,
            ItemEventState::Received,
            Role::Retailer,
            price,
        ),
        InnerSupplyChainAction::Consumer(ConsumerAction::Purchase(item_id)) =>
            consumer_purchase_outcome(items, c.ft(), c.nft(), tx_id, source, item_id),
    }
}

/// `r` is the step for an accepted action with outcome `(calls, item)`.
pub open spec fn is_calls_step(
    r: Result<Step, SupplyChainError>,
    guard: Option<TransactionGuard>,
    item_id: ItemId,
    calls: Seq<LedgerCall>,
    item: Item,
) -> bool {
    &&& r matches Ok(Step::Calls(p))
    &&& r->Ok_0->Calls_0.spec_guard() == guard
    &&& r->Ok_0->Calls_0.spec_item_id() == item_id
    &&& r->Ok_0->Calls_0.spec_calls() == calls
    &&& r->Ok_0->Calls_0.spec_item() == item
}

/// What handling `action` of `source` does to the reservations, from `pre`
/// to `post`, and the step `r` it returns.
///
/// An action in a role the caller does not hold is refused before anything
/// else. An action that reserves ids acquires them first; when the checks
/// that follow fail, the reservation is given back.
pub open spec fn handled(
    c: SupplyChain,
    pre: TransactionManager,
    post: TransactionManager,
    source: ActorId,
    action: SupplyChainAction,
    now: u64,
    program: ActorId,
    r: Result<Step, SupplyChainError>,
) -> bool {
    let inner = action.action;
    if !authorized(c, source, inner) {
        &&& r == Err::<Step, SupplyChainError>(SupplyChainError::AccessRestricted)
        &&& post.reservations() == pre.reservations()
        &&& post.nonce() == pre.nonce()
    } else if tx_width(inner) == 0 {
        &&& post.reservations() == pre.reservations()
        &&& post.nonce() == pre.nonce()
        &&& match action_outcome(c, program, 0, source, inner, now) {
            Err(e) => r == Err::<Step, SupplyChainError>(e),
            Ok((calls, item)) => is_calls_step(r, None, action_item(inner), calls, item),
        }
    } else {
        let (g, res, nonce) = acquire_outcome(
            pre.reservations(),
            pre.nonce(),
            action.kind,
            source,
            tx_width(inner),
        );
        &&& post.nonce() == nonce
        &&& match g {
            Err(e) => r == Err::<Step, SupplyChainError>(e) && post.reservations() == res,
            Ok(guard) => match inner {
                InnerSupplyChainAction::Producer(ProducerAction::Produce { token_metadata }) => {
                    &&& post.reservations() == res
                    &&& r is Ok && r->Ok_0 is Mint
                    &&& r->Ok_0->Mint_0.spec_guard() == guard
                    &&& r->Ok_0->Mint_0.spec_ledger() == c.nft()
                    &&& r->Ok_0->Mint_0.spec_token_metadata() == token_metadata
                    &&& r->Ok_0->Mint_0.spec_producer() == source
                },
                _ => match action_outcome(c, program, guard.tx_id, source, inner, now) {
                    Err(e) => {
                        &&& r == Err::<Step, SupplyChainError>(e)
                        &&& post.reservations() == released(res, guard)
                    },
                    Ok((calls, item)) => {
                        &&& post.reservations() == res
                        &&& is_calls_step(r, Some(guard), action_item(inner), calls, item)
                    },
                },
            },
        }
    }
}

/// The state a supply chain starts in: the configured participants and
/// ledgers, no items, and no reservations.
///
/// Fails with `ZeroActorId`, and starts nothing, if any listed participant or
/// either ledger is the zero address.
pub fn process_init(config: &SupplyChainInit) -> (r: Result<
    (SupplyChain, TransactionManager),
    SupplyChainError,
>)
    ensures
        has_zero(config) <==> r is Err,
        r is Err ==> r->Err_0 == SupplyChainError::ZeroActorId,
        r is Ok ==> r->Ok_0.0.item_records().dom() == Set::<ItemId>::empty(),
        r is Ok ==> r->Ok_0.0.members(Role::Producer) == config.producers@.to_set(),
        r is Ok ==> r->Ok_0.0.members(Role::Distributor) == config.distributors@.to_set(),
        r is Ok ==> r->Ok_0.0.members(Role::Retailer) == config.retailers@.to_set(),
        r is Ok ==> r->Ok_0.0.ft() == config.fungible_token,
        r is Ok ==> r->Ok_0.0.nft() == config.non_fungible_token,
        r is Ok ==> r->Ok_0.1.wf(),
        r is Ok ==> r->Ok_0.1.reservations().dom() == Set::<ActorId>::empty(),
        r is Ok ==> r->Ok_0.1.nonce() == 0,
{
    match SupplyChain::new(config) {
        Ok(chain) => Ok((chain, TransactionManager::new())),
        Err(e) => Err(e),
    }
}

/// The error an action reports when `call` is refused by its ledger.
pub fn call_error(call: &LedgerCall) -> (r: SupplyChainError)
    ensures
        call is TransferItem ==> r == SupplyChainError::NFTTransferFailed,
        call is TransferFunds ==> r == SupplyChainError::FTTransferFailed,
{
    match call {
        LedgerCall::TransferItem { .. } => SupplyChainError::NFTTransferFailed,
        LedgerCall::TransferFunds { .. } => SupplyChainError::FTTransferFailed,
    }
}

impl SupplyChain {
    /// The step for a checked action under `guard`; a failed check gives the
    /// reservation back.
    fn guarded_step(
        &self,
        tx: &mut TransactionManager,
        guard: TransactionGuard,
        item_id: ItemId,
        plan: Result<Plan, SupplyChainError>,
    ) -> (r: Result<Step, SupplyChainError>)
        requires
            old(tx).wf(),
        ensures
            final(tx).wf(),
            final(tx).nonce() == old(tx).nonce(),
            plan matches Err(e) ==> r == Err::<Step, SupplyChainError>(e) && final(tx).reservations()
                == released(old(tx).reservations(), guard),
            plan matches Ok(p) ==> final(tx).reservations() == old(tx).reservations()
                && is_calls_step(r, Some(guard), item_id, p.calls@, p.item),
    {
        match plan {
            Err(e) => {
                tx.release(guard);
                Err(e)
            },
            Ok(p) => Ok(Step::Calls(Pending { guard: Some(guard), item_id, calls: p.calls, item: p.item })),
        }
    }

    /// The step for a checked action that reserves no ids.
    fn unguarded_step(item_id: ItemId, plan: Result<Plan, SupplyChainError>) -> (r: Result<
        Step,
        SupplyChainError,
    >)
        ensures
            plan matches Err(e) ==> r == Err::<Step, SupplyChainError>(e),
            plan matches Ok(p) ==> is_calls_step(r, None, item_id, p.calls@, p.item),
    {
        match plan {
            Err(e) => Err(e),
            Ok(p) => Ok(Step::Calls(Pending { guard: None, item_id, calls: p.calls, item: p.item })),
        }
    }

    /// Handles `action` of `msg_source` at time `now`, with `program_id` the
    /// chain's own address: checks the caller's role, acquires the action's
    /// transaction ids from `tx`, and checks and plans the action.
    pub fn handle(
        &self,
        tx: &mut TransactionManager,
        msg_source: ActorId,
        action: SupplyChainAction,
        now: u64,
        program_id: ActorId,
    ) -> (r: Result<Step, SupplyChainError>)
        requires
            old(tx).wf(),
        ensures
            final(tx).wf(),
            handled(*self, *old(tx), *final(tx), msg_source, action, now, program_id, r),
    {
        let kind = action.kind;
        match action.action {
            InnerSupplyChainAction::Consumer(ConsumerAction::Purchase(item_id)) => {
                let guard = match tx.asquire_transaction(kind, msg_source) {
                    Ok(g) => g,
                    Err(e) => return Err(e),
                };
                let plan = self.consumer_purchase(guard.tx_id, msg_source, item_id);
                self.guarded_step(tx, guard, item_id, plan)
            },
            InnerSupplyChainAction::Producer(a) => {
                if !self.has_role(Role::Producer, &msg_source) {
                    return Err(SupplyChainError::AccessRestricted);
                }
                match a {
                    ProducerAction::Produce { token_metadata } => {
                        let guard = match tx.asquire_transactions(kind, msg_source, 2) {
                            Ok(g) => g,
                            Err(e) => return Err(e),
                        };
                        Ok(
                            Step::Mint(
                                MintRequest {
                                    guard,
                                    ledger: self.non_fungible_token(),
                                    token_metadata,
                                    producer: msg_source,
                                },
                            ),
                        )
                    },
                    ProducerAction::PutUpForSale { item_id, price } => {
                        let guard = match tx.asquire_transaction(kind, msg_source) {
                            Ok(g) => g,
                            Err(e) => return Err(e),
                        };
                        let plan = self.put_up_for_sale(
                            guard.tx_id,
                            program_id,
                            msg_source,
                            item_id,
                            ItemEventState::Produced,
                            Role::Producer,
                            price,
                        );
                        self.guarded_step(tx, guard, item_id, plan)
                    },
                    ProducerAction::Approve { item_id, approve } => {
                        let guard = match tx.asquire_transaction(kind, msg_source) {
                            Ok(g) => g,
                            Err(e) => return Err(e),
                        };
                        let plan = self.approve(
                            guard.tx_id,
                            program_id,
                            msg_source,
                            item_id,
                            Role::Distributor,
                            Role::Producer,
                            approve,
                        );
                        self.guarded_step(tx, guard, item_id, plan)
                    },
                    ProducerAction::Ship(item_id) => {
                        let plan = self.ship(msg_source, item_id, Role::Producer, now);
                        Self::unguarded_step(item_id, plan)
                    },
                }
            },
            InnerSupplyChainAction::Distributor(a) => {
                if !self.has_role(Role::Distributor, &msg_source) {
                    return Err(SupplyChainError::AccessRestricted);
                }
                match a {
                    DistributorAction::Purchase { item_id, delivery_time } => {
                        let guard = match tx.asquire_transaction(kind, msg_source) {
                            Ok(g) => g,
                            Err(e) => return Err(e),
                        };
                        let plan = self.purchase(
                            guard.tx_id,
                            program_id,
                            msg_source,
                            item_id,
                            Role::Producer,
                            Role::Distributor,
                            delivery_time,
                        );
                        self.guarded_step(tx, guard, item_id, plan)
                    },
                    DistributorAction::Receive(item_id) => {
                        let guard = match tx.asquire_transactions(kind, msg_source, 2) {
                            Ok(g) => g,
                            Err(e) => return Err(e),
                        };
                        let plan = self.receive(
                            guard.tx_id,
                            program_id,
                            msg_source,
                            item_id,
                            Role::Producer,
                            Role::Distributor,
                            now,
                        );
                        self.guarded_step(tx, guard, item_id, plan)
                    },
                    DistributorAction::Process(item_id) => {
                        let plan = self.process_or_package(
                            msg_source,
                            item_id,
                            ItemEventState::Received,
                            ItemEventState::Processed,
                        );
                        Self::unguarded_step(item_id, plan)
                    },
                    DistributorAction::Package(item_id) => {
                        let plan = self.process_or_package(
                            msg_source,
                            item_id,
                            ItemEventState::Processed,
                            ItemEventState::Packaged,
                        );
                        Self::unguarded_step(item_id, plan)
                    },
                    DistributorAction::PutUpForSale { item_id, price } => {
                        let guard = match tx.asquire_transaction(kind, msg_source) {
                            Ok(g) => g,
                            Err(e) => return Err(e),
                        };
                        let plan = self.put_up_for_sale(
                            guard.tx_id,
                            program_id,
                            msg_source,
                            item_id,
                            ItemEventState::Packaged,
                            Role::Distributor,
                            price,
                        );
                        self.guarded_step(tx, guard, item_id, plan)
                    },
                    DistributorAction::Approve { item_id, approve } => {
                        let guard = match tx.asquire_transaction(kind, msg_source) {
                            Ok(g) => g,
                            Err(e) => return Err(e),
                        };
                        let plan = self.approve(
                            guard.tx_id,
                            program_id,
                            msg_source,
                            item_id,
                            Role::Retailer,
                            Role::Distributor,
                            approve,
                        );
                        self.guarded_step(tx, guard, item_id, plan)
                    },
                    DistributorAction::Ship(item_id) => {
                        let plan = self.ship(msg_source, item_id, Role::Distributor, now);
                        Self::unguarded_step(item_id, plan)
                    },
                }
            },
            InnerSupplyChainAction::Retailer(a) => {
                if !self.has_role(Role::Retailer, &msg_source) {
                    return Err(SupplyChainError::AccessRestricted);
                }
                match a {
                    RetailerAction::Purchase { item_id, delivery_time } => {
                        let guard = match tx.asquire_transaction(kind, msg_source) {
                            Ok(g) => g,
                            Err(e) => return Err(e),
                        };
                        let plan = self.purchase(
                            guard.tx_id,
                            program_id,
                            msg_source,
                            item_id,
                            Role::Distributor,
                            Role::Retailer,
                            delivery_time,
                        );
                        self.guarded_step(tx, guard, item_id, plan)
                    },
                    RetailerAction::Receive(item_id) => {
                        let guard = match tx.asquire_transactions(kind, msg_source, 2) {
                            Ok(g) => g,
                            Err(e) => return Err(e),
                        };
                        let plan = self.receive(
                            guard.tx_id,
                            program_id,
                            msg_source,
                            item_id,
                            Role::Distributor,
                            Role::Retailer,
                            now,
                        );
                        self.guarded_step(tx, guard, item_id, plan)
                    },
                    RetailerAction::PutUpForSale { item_id, price } => {
                        let guard = match tx.asquire_transaction(kind, msg_source) {
                            Ok(g) => g,
                            Err(e) => return Err(e),
                        };
                        let plan = self.put_up_for_sale(
                            guard.tx_id,
                            program_id,
                            msg_source,
                            item_id,
                            ItemEventState::Received,
                            Role::Retailer,
                            price,
                        );
                        self.guarded_step(tx, guard, item_id, plan)
                    },
                }
            },
        }
    }

    /// The second step of producing an item: its token was minted as
    /// `item_id`, and is now to be handed to the producer under the next id.
    pub fn minted(&self, request: MintRequest, item_id: ItemId) -> (r: Pending)
        ensures
            r.spec_guard() == Some(request.spec_guard()),
            r.spec_item_id() == item_id,
            r.spec_calls() == seq![
                LedgerCall::TransferItem {
                    ledger: self.nft(),
                    tx_id: next_cursor(request.spec_guard().tx_id, 1),
                    to: request.spec_producer(),
                    item_id,
                },
            ],
            r.spec_item() == produced_item(request.spec_producer()),
    {
        let mut calls: Vec<LedgerCall> = Vec::new();
        calls.push(
            LedgerCall::TransferItem {
                ledger: self.non_fungible_token(),
                tx_id: request.guard.tx_id.wrapping_add(1),
                to: request.producer,
                item_id,
            },
        );
        let mut info = ItemInfo::default();
        info.producer = request.producer;
        let item = Item { info, shipping_time: 0 };
        proof {
            assert(calls@ =~= seq![
                LedgerCall::TransferItem {
                    ledger: self.nft(),
                    tx_id: next_cursor(request.guard.tx_id, 1),
                    to: request.producer,
                    item_id,
                },
            ]);
        }
        Pending { guard: Some(request.guard), item_id, calls, item }
    }

    /// Closes a pending action once its ledger calls were made, with `result`
    /// the first failure among them, if any: on success the item's new record
    /// is stored; either way the action's reservation is given back.
    pub fn finish(
        &mut self,
        tx: &mut TransactionManager,
        pending: Pending,
        result: Result<(), SupplyChainError>,
    ) -> (r: Result<SupplyChainEvent, SupplyChainError>)
        requires
            old(tx).wf(),
        ensures
            final(tx).wf(),
            final(tx).nonce() == old(tx).nonce(),
            pending.spec_guard() matches Some(g) ==> final(tx).reservations() == released(
                old(tx).reservations(),
                g,
            ),
            pending.spec_guard() is None ==> final(tx).reservations() == old(tx).reservations(),
            forall|role: Role| #[trigger] final(self).members(role) == old(self).members(role),
            final(self).ft() == old(self).ft(),
            final(self).nft() == old(self).nft(),
            result is Ok ==> final(self).item_records() == old(self).item_records().insert(
                pending.spec_item_id(),
                pending.spec_item(),
            ),
            result is Ok ==> r == Ok::<SupplyChainEvent, SupplyChainError>(
                SupplyChainEvent {
                    item_id: pending.spec_item_id(),
                    item_state: pending.spec_item().info.state,
                },
            ),
            result matches Err(e) ==> r == Err::<SupplyChainEvent, SupplyChainError>(e),
            result is Err ==> final(self).item_records() == old(self).item_records(),
    {
        if let Some(guard) = pending.guard {
            tx.release(guard);
        }
        match result {
            Ok(()) => {
                self.store(pending.item_id, pending.item);
                Ok(SupplyChainEvent { item_id: pending.item_id, item_state: pending.item.info.state })
            },
            Err(e) => Err(e),
        }
    }
}

} // verus!
