use std::collections::{BTreeMap, HashMap};

use supply_chain::{
    call_error, ActionKind, ActorId, ConsumerAction, DistributorAction, InnerSupplyChainAction,
    ItemEventState, ItemId, ItemInfo, ItemState, LedgerCall, ProducerAction, RetailerAction, Role,
    Step, SupplyChain, SupplyChainAction, SupplyChainError, SupplyChainEvent, SupplyChainInit,
    SupplyChainStateQuery, SupplyChainStateReply, TokenMetadata, TransactionManager,
};

const FOREIGN_USER: u64 = 1029384756123;
const PRODUCER: u64 = 5;
const DISTRIBUTOR: u64 = 7;
const RETAILER: u64 = 9;
const CONSUMER: u64 = 11;
const ITEM_PRICE: u128 = 4321166243;
const DELIVERY_TIME: u64 = 604800000;
const FT: u64 = 100;
const NFT: u64 = 101;
const PROGRAM: u64 = 102;

fn id(n: u64) -> ActorId {
    ActorId::from(n)
}

fn item(n: u64) -> ItemId {
    ItemId::from(n)
}

/// A supply chain with a fund ledger and an item ledger beside it, which
/// replay a transaction id that they have seen before without effect.
struct World {
    chain: SupplyChain,
    tx: TransactionManager,
    now: u64,
    balances: HashMap<ActorId, u128>,
    owners: HashMap<ItemId, ActorId>,
    next_token: u64,
    seen_funds: Vec<u64>,
    seen_items: Vec<u64>,
    calls_made: usize,
}

impl World {
    fn with_config(config: SupplyChainInit) -> World {
        World {
            chain: SupplyChain::new(&config).unwrap(),
            tx: TransactionManager::new(),
            now: 0,
            balances: HashMap::new(),
            owners: HashMap::new(),
            next_token: 0,
            seen_funds: Vec::new(),
            seen_items: Vec::new(),
            calls_made: 0,
        }
    }

    fn new() -> World {
        World::with_config(config(&[PRODUCER], &[DISTRIBUTOR], &[RETAILER]))
    }

    fn mint(&mut self, who: u64, amount: u128) {
        *self.balances.entry(id(who)).or_insert(0) += amount;
    }

    fn balance(&self, who: u64) -> u128 {
        self.balances.get(&id(who)).copied().unwrap_or(0)
    }

    fn owner(&self, n: u64) -> ActorId {
        self.owners[&item(n)]
    }

    fn spend(&mut self, ms: u64) {
        self.now += ms;
    }

    fn perform(&mut self, call: &LedgerCall) -> Result<(), SupplyChainError> {
        self.calls_made += 1;
        match *call {
            LedgerCall::TransferFunds { tx_id, from, to, amount, .. } => {
                if self.seen_funds.contains(&tx_id) {
                    return Ok(());
                }
                let have = self.balances.get(&from).copied().unwrap_or(0);
                if have < amount {
                    return Err(call_error(call));
                }
                self.seen_funds.push(tx_id);
                self.balances.insert(from, have - amount);
                *self.balances.entry(to).or_insert(0) += amount;
                Ok(())
            }
            LedgerCall::TransferItem { tx_id, to, item_id, .. } => {
                if self.seen_items.contains(&tx_id) {
                    return Ok(());
                }
                self.seen_items.push(tx_id);
                self.owners.insert(item_id, to);
                Ok(())
            }
        }
    }

    fn run(&mut self, source: u64, action: SupplyChainAction) -> Result<SupplyChainEvent, SupplyChainError> {
        let step = self.chain.handle(&mut self.tx, id(source), action, self.now, id(PROGRAM))?;
        let pending = match step {
            Step::Mint(request) => {
                let token = item(self.next_token);
                self.next_token += 1;
                self.calls_made += 1;
                self.owners.insert(token, id(PROGRAM));
                self.chain.minted(request, token)
            }
            Step::Calls(pending) => pending,
        };
        let mut result = Ok(());
        for call in pending.calls().clone() {
            if let Err(e) = self.perform(&call) {
                result = Err(e);
                break;
            }
        }
        self.chain.finish(&mut self.tx, pending, result)
    }

    fn act(&mut self, source: u64, action: InnerSupplyChainAction) -> Result<SupplyChainEvent, SupplyChainError> {
        self.run(source, SupplyChainAction::new(action))
    }

    fn produce(&mut self, source: u64) -> Result<SupplyChainEvent, SupplyChainError> {
        self.act(source, InnerSupplyChainAction::Producer(ProducerAction::Produce { token_metadata: metadata() }))
    }

    fn put_up_for_sale_by_producer(&mut self, source: u64, n: u64, price: u128) -> Result<SupplyChainEvent, SupplyChainError> {
        self.act(source, InnerSupplyChainAction::Producer(ProducerAction::PutUpForSale { item_id: item(n), price }))
    }

    fn approve_by_producer(&mut self, source: u64, n: u64, approve: bool) -> Result<SupplyChainEvent, SupplyChainError> {
        self.act(source, InnerSupplyChainAction::Producer(ProducerAction::Approve { item_id: item(n), approve }))
    }

    fn ship_by_producer(&mut self, source: u64, n: u64) -> Result<SupplyChainEvent, SupplyChainError> {
        self.act(source, InnerSupplyChainAction::Producer(ProducerAction::Ship(item(n))))
    }

    fn purchase_by_distributor(&mut self, source: u64, n: u64, delivery_time: u64) -> Result<SupplyChainEvent, SupplyChainError> {
        self.act(source, InnerSupplyChainAction::Distributor(DistributorAction::Purchase { item_id: item(n), delivery_time }))
    }

    fn receive_by_distributor(&mut self, source: u64, n: u64) -> Result<SupplyChainEvent, SupplyChainError> {
        self.act(source, InnerSupplyChainAction::Distributor(DistributorAction::Receive(item(n))))
    }

    fn process(&mut self, source: u64, n: u64) -> Result<SupplyChainEvent, SupplyChainError> {
        self.act(source, InnerSupplyChainAction::Distributor(DistributorAction::Process(item(n))))
    }

    fn package(&mut self, source: u64, n: u64) -> Result<SupplyChainEvent, SupplyChainError> {
        self.act(source, InnerSupplyChainAction::Distributor(DistributorAction::Package(item(n))))
    }

    fn put_up_for_sale_by_distributor(&mut self, source: u64, n: u64, price: u128) -> Result<SupplyChainEvent, SupplyChainError> {
        self.act(source, InnerSupplyChainAction::Distributor(DistributorAction::PutUpForSale { item_id: item(n), price }))
    }

    fn approve_by_distributor(&mut self, source: u64, n: u64, approve: bool) -> Result<SupplyChainEvent, SupplyChainError> {
        self.act(source, InnerSupplyChainAction::Distributor(DistributorAction::Approve { item_id: item(n), approve }))
    }

    fn ship_by_distributor(&mut self, source: u64, n: u64) -> Result<SupplyChainEvent, SupplyChainError> {
        self.act(source, InnerSupplyChainAction::Distributor(DistributorAction::Ship(item(n))))
    }

    fn purchase_by_retailer(&mut self, source: u64, n: u64, delivery_time: u64) -> Result<SupplyChainEvent, SupplyChainError> {
        self.act(source, InnerSupplyChainAction::Retailer(RetailerAction::Purchase { item_id: item(n), delivery_time }))
    }

    fn receive_by_retailer(&mut self, source: u64, n: u64) -> Result<SupplyChainEvent, SupplyChainError> {
        self.act(source, InnerSupplyChainAction::Retailer(RetailerAction::Receive(item(n))))
    }

    fn put_up_for_sale_by_retailer(&mut self, source: u64, n: u64, price: u128) -> Result<SupplyChainEvent, SupplyChainError> {
        self.act(source, InnerSupplyChainAction::Retailer(RetailerAction::PutUpForSale { item_id: item(n), price }))
    }

    fn purchase_by_consumer(&mut self, source: u64, n: u64) -> Result<SupplyChainEvent, SupplyChainError> {
        self.act(source, InnerSupplyChainAction::Consumer(ConsumerAction::Purchase(item(n))))
    }

    fn item_info(&self, n: u64) -> Option<ItemInfo> {
        match self.chain.state(SupplyChainStateQuery::ItemInfo(item(n))) {
            SupplyChainStateReply::ItemInfo(info) => info,
            other => panic!("unexpected reply {:?}", other),
        }
    }
}

fn metadata() -> TokenMetadata {
    TokenMetadata {
        name: String::from("item"),
        description: String::from("a tracked item"),
        media: String::new(),
        reference: String::new(),
    }
}

fn config(producers: &[u64], distributors: &[u64], retailers: &[u64]) -> SupplyChainInit {
    SupplyChainInit {
        producers: producers.iter().map(|&n| id(n)).collect(),
        distributors: distributors.iter().map(|&n| id(n)).collect(),
        retailers: retailers.iter().map(|&n| id(n)).collect(),
        fungible_token: id(FT),
        non_fungible_token: id(NFT),
    }
}

/// The event succeeded and is about item `n`.
fn contains(r: Result<SupplyChainEvent, SupplyChainError>, n: u64) -> SupplyChainEvent {
    let event = r.unwrap();
    assert_eq!(event.item_id, item(n));
    event
}

/// The approval succeeded, accepting or rejecting as `approved` says.
fn contains_approval(r: Result<SupplyChainEvent, SupplyChainError>, n: u64, approved: bool) {
    let event = contains(r, n);
    let expected = if approved { ItemEventState::Approved } else { ItemEventState::ForSale };
    assert_eq!(event.item_state.state, expected);
}

fn failed(r: Result<SupplyChainEvent, SupplyChainError>) {
    assert!(r.is_err());
}

/// Produces item `n` and takes it to the point where the distributor is to receive it.
fn ship_to_distributor(w: &mut World, n: u64, price: u128) {
    contains(w.produce(PRODUCER), n);
    contains(w.put_up_for_sale_by_producer(PRODUCER, n, price), n);
    contains(w.purchase_by_distributor(DISTRIBUTOR, n, DELIVERY_TIME), n);
    contains_approval(w.approve_by_producer(PRODUCER, n, true), n, true);
    contains(w.ship_by_producer(PRODUCER, n), n);
}

/// Takes a received item `n` to the point where the retailer is to receive it.
fn ship_to_retailer(w: &mut World, n: u64, price: u128) {
    contains(w.process(DISTRIBUTOR, n), n);
    contains(w.package(DISTRIBUTOR, n), n);
    contains(w.put_up_for_sale_by_distributor(DISTRIBUTOR, n, price), n);
    contains(w.purchase_by_retailer(RETAILER, n, DELIVERY_TIME), n);
    contains_approval(w.approve_by_distributor(DISTRIBUTOR, n, true), n, true);
    contains(w.ship_by_distributor(DISTRIBUTOR, n), n);
}

#[test]
fn interact_with_unexistent_item() {
    const NONEXISTENT_ITEM: u64 = 99999999;
    let mut w = World::new();

    failed(w.put_up_for_sale_by_producer(PRODUCER, NONEXISTENT_ITEM, ITEM_PRICE));
    failed(w.purchase_by_distributor(DISTRIBUTOR, NONEXISTENT_ITEM, DELIVERY_TIME));
    failed(w.approve_by_producer(PRODUCER, NONEXISTENT_ITEM, true));
    failed(w.ship_by_producer(PRODUCER, NONEXISTENT_ITEM));
    failed(w.receive_by_distributor(DISTRIBUTOR, NONEXISTENT_ITEM));
    failed(w.process(DISTRIBUTOR, NONEXISTENT_ITEM));
    failed(w.package(DISTRIBUTOR, NONEXISTENT_ITEM));
    failed(w.put_up_for_sale_by_distributor(DISTRIBUTOR, NONEXISTENT_ITEM, ITEM_PRICE));
    failed(w.purchase_by_retailer(RETAILER, NONEXISTENT_ITEM, DELIVERY_TIME));
    failed(w.approve_by_distributor(DISTRIBUTOR, NONEXISTENT_ITEM, true));
    failed(w.ship_by_distributor(DISTRIBUTOR, NONEXISTENT_ITEM));
    failed(w.receive_by_retailer(RETAILER, NONEXISTENT_ITEM));
    failed(w.put_up_for_sale_by_retailer(RETAILER, NONEXISTENT_ITEM, ITEM_PRICE));
    failed(w.purchase_by_consumer(CONSUMER, NONEXISTENT_ITEM));
    assert_eq!(
        w.purchase_by_consumer(CONSUMER, NONEXISTENT_ITEM),
        Err(SupplyChainError::ItemNotFound)
    );
    assert_eq!(w.calls_made, 0);

    assert_eq!(w.item_info(NONEXISTENT_ITEM), None);
    assert_eq!(
        w.chain.state(SupplyChainStateQuery::ExistingItems),
        SupplyChainStateReply::ExistingItems(Vec::new())
    );
}

#[test]
fn initialization() {
    let zero = ActorId::zero();
    let mut supply_chain_config = SupplyChainInit {
        producers: vec![zero],
        distributors: vec![zero],
        retailers: vec![zero],
        fungible_token: id(FT),
        non_fungible_token: id(NFT),
    };
    assert_eq!(
        SupplyChain::new(&supply_chain_config).err(),
        Some(SupplyChainError::ZeroActorId)
    );

    supply_chain_config.producers = vec![id(PRODUCER)];
    assert_eq!(
        SupplyChain::new(&supply_chain_config).err(),
        Some(SupplyChainError::ZeroActorId)
    );

    supply_chain_config.distributors = vec![id(DISTRIBUTOR)];
    assert_eq!(
        SupplyChain::new(&supply_chain_config).err(),
        Some(SupplyChainError::ZeroActorId)
    );

    supply_chain_config.retailers = vec![id(RETAILER)];
    let supply_chain = SupplyChain::new(&supply_chain_config).unwrap();

    assert_eq!(
        supply_chain.state(SupplyChainStateQuery::Participants),
        SupplyChainStateReply::Participants {
            producers: supply_chain_config.producers.clone(),
            distributors: supply_chain_config.distributors.clone(),
            retailers: supply_chain_config.retailers.clone(),
        }
    );
    assert_eq!(
        supply_chain.state(SupplyChainStateQuery::FungibleToken),
        SupplyChainStateReply::FungibleToken(id(FT))
    );
    assert_eq!(
        supply_chain.state(SupplyChainStateQuery::NonFungibleToken),
        SupplyChainStateReply::NonFungibleToken(id(NFT))
    );
}

#[test]
fn zero_ledger_address_is_refused() {
    let mut c = config(&[PRODUCER], &[DISTRIBUTOR], &[RETAILER]);
    c.fungible_token = ActorId::zero();
    assert_eq!(SupplyChain::new(&c).err(), Some(SupplyChainError::ZeroActorId));
    let mut c = config(&[PRODUCER], &[DISTRIBUTOR], &[RETAILER]);
    c.non_fungible_token = ActorId::zero();
    assert_eq!(SupplyChain::new(&c).err(), Some(SupplyChainError::ZeroActorId));
    let c = config(&[PRODUCER, 0], &[DISTRIBUTOR], &[RETAILER]);
    assert_eq!(SupplyChain::new(&c).err(), Some(SupplyChainError::ZeroActorId));
}

#[test]
fn query_existing_items() {
    let mut w = World::new();
    let mut items_info = BTreeMap::new();

    for n in 0..=5 {
        contains(w.produce(PRODUCER), n);
        items_info.insert(
            item(n),
            ItemInfo {
                producer: id(PRODUCER),
                distributor: ActorId::zero(),
                retailer: ActorId::zero(),
                state: ItemState { state: ItemEventState::Produced, by: Role::Producer },
                price: 0,
                delivery_time: 0,
            },
        );
    }

    let existing = match w.chain.state(SupplyChainStateQuery::ExistingItems) {
        SupplyChainStateReply::ExistingItems(items) => items,
        other => panic!("unexpected reply {:?}", other),
    };
    let existing: BTreeMap<ItemId, ItemInfo> = existing.into_iter().collect();
    assert_eq!(existing, items_info);
}

#[test]
fn approve_reuse_and_ft_transfer() {
    const ITEM_PRICE_BY_PRODUCER: u128 = ITEM_PRICE;
    const ITEM_PRICE_BY_DISTRIBUTOR: u128 = ITEM_PRICE * 2;
    let mut w = World::new();
    w.mint(DISTRIBUTOR, ITEM_PRICE_BY_PRODUCER);
    w.mint(RETAILER, ITEM_PRICE_BY_DISTRIBUTOR);

    contains(w.produce(PRODUCER), 0);
    contains(w.put_up_for_sale_by_producer(PRODUCER, 0, ITEM_PRICE_BY_PRODUCER), 0);
    assert_eq!(w.item_info(0).unwrap().price, ITEM_PRICE_BY_PRODUCER);

    contains(w.purchase_by_distributor(DISTRIBUTOR, 0, DELIVERY_TIME), 0);
    assert_eq!(w.balance(PROGRAM), ITEM_PRICE_BY_PRODUCER);
    contains_approval(w.approve_by_producer(PRODUCER, 0, false), 0, false);
    assert_eq!(w.balance(DISTRIBUTOR), ITEM_PRICE_BY_PRODUCER);
    contains(w.purchase_by_distributor(DISTRIBUTOR, 0, DELIVERY_TIME), 0);
    assert_eq!(w.balance(PROGRAM), ITEM_PRICE_BY_PRODUCER);
    contains_approval(w.approve_by_producer(PRODUCER, 0, true), 0, true);

    contains(w.ship_by_producer(PRODUCER, 0), 0);
    contains(w.receive_by_distributor(DISTRIBUTOR, 0), 0);
    contains(w.process(DISTRIBUTOR, 0), 0);
    contains(w.package(DISTRIBUTOR, 0), 0);
    contains(w.put_up_for_sale_by_distributor(DISTRIBUTOR, 0, ITEM_PRICE_BY_DISTRIBUTOR), 0);
    assert_eq!(w.item_info(0).unwrap().price, ITEM_PRICE_BY_DISTRIBUTOR);

    contains(w.purchase_by_retailer(RETAILER, 0, DELIVERY_TIME), 0);
    assert_eq!(w.balance(PROGRAM), ITEM_PRICE_BY_DISTRIBUTOR);
    contains_approval(w.approve_by_distributor(DISTRIBUTOR, 0, false), 0, false);
    assert_eq!(w.balance(RETAILER), ITEM_PRICE_BY_DISTRIBUTOR);
    contains(w.purchase_by_retailer(RETAILER, 0, DELIVERY_TIME), 0);
    assert_eq!(w.balance(PROGRAM), ITEM_PRICE_BY_DISTRIBUTOR);
    contains_approval(w.approve_by_distributor(DISTRIBUTOR, 0, true), 0, true);
}

#[test]
fn nft_transfer() {
    let mut w = World::new();
    for from in [DISTRIBUTOR, RETAILER, CONSUMER] {
        w.mint(from, ITEM_PRICE);
    }

    contains(w.produce(PRODUCER), 0);
    assert_eq!(w.owner(0), id(PRODUCER));
    contains(w.put_up_for_sale_by_producer(PRODUCER, 0, ITEM_PRICE), 0);
    assert_eq!(w.owner(0), id(PROGRAM));
    contains(w.purchase_by_distributor(DISTRIBUTOR, 0, DELIVERY_TIME), 0);
    contains_approval(w.approve_by_producer(PRODUCER, 0, true), 0, true);
    contains(w.ship_by_producer(PRODUCER, 0), 0);
    contains(w.receive_by_distributor(DISTRIBUTOR, 0), 0);
    assert_eq!(w.owner(0), id(DISTRIBUTOR));

    contains(w.process(DISTRIBUTOR, 0), 0);
    contains(w.package(DISTRIBUTOR, 0), 0);
    contains(w.put_up_for_sale_by_distributor(DISTRIBUTOR, 0, ITEM_PRICE), 0);
    assert_eq!(w.owner(0), id(PROGRAM));
    contains(w.purchase_by_retailer(RETAILER, 0, DELIVERY_TIME), 0);
    contains_approval(w.approve_by_distributor(DISTRIBUTOR, 0, true), 0, true);
    contains(w.ship_by_distributor(DISTRIBUTOR, 0), 0);
    contains(w.receive_by_retailer(RETAILER, 0), 0);
    assert_eq!(w.owner(0), id(RETAILER));

    contains(w.put_up_for_sale_by_retailer(RETAILER, 0, ITEM_PRICE), 0);
    assert_eq!(w.owner(0), id(PROGRAM));
    contains(w.purchase_by_consumer(CONSUMER, 0), 0);
    assert_eq!(w.owner(0), id(CONSUMER));

    assert_eq!(
        w.item_info(0),
        Some(ItemInfo {
            producer: id(PRODUCER),
            distributor: id(DISTRIBUTOR),
            retailer: id(RETAILER),
            state: ItemState { state: ItemEventState::Purchased, by: Role::Consumer },
            price: ITEM_PRICE,
            delivery_time: DELIVERY_TIME,
        })
    );
    assert_eq!(w.owner(0), id(CONSUMER));
    assert_eq!(w.balance(RETAILER), ITEM_PRICE);
}

#[test]
fn ownership_and_role() {
    const PRODUCERS: [u64; 2] = [5, 6];
    const DISTRIBUTORS: [u64; 2] = [7, 8];
    const RETAILERS: [u64; 2] = [9, 10];
    let mut w = World::with_config(config(&PRODUCERS, &DISTRIBUTORS, &RETAILERS));
    for from in [DISTRIBUTORS[0], RETAILERS[0]] {
        w.mint(from, ITEM_PRICE);
    }

    failed(w.produce(FOREIGN_USER));
    contains(w.produce(PRODUCERS[0]), 0);

    failed(w.put_up_for_sale_by_producer(FOREIGN_USER, 0, ITEM_PRICE));
    failed(w.put_up_for_sale_by_producer(PRODUCERS[1], 0, ITEM_PRICE));
    contains(w.put_up_for_sale_by_producer(PRODUCERS[0], 0, ITEM_PRICE), 0);

    failed(w.purchase_by_distributor(FOREIGN_USER, 0, DELIVERY_TIME));
    contains(w.purchase_by_distributor(DISTRIBUTORS[0], 0, DELIVERY_TIME), 0);

    failed(w.approve_by_producer(FOREIGN_USER, 0, true));
    failed(w.approve_by_producer(PRODUCERS[1], 0, true));
    contains_approval(w.approve_by_producer(PRODUCERS[0], 0, true), 0, true);

    failed(w.ship_by_producer(FOREIGN_USER, 0));
    failed(w.ship_by_producer(PRODUCERS[1], 0));
    contains(w.ship_by_producer(PRODUCERS[0], 0), 0);

    failed(w.receive_by_distributor(FOREIGN_USER, 0));
    failed(w.receive_by_distributor(DISTRIBUTORS[1], 0));
    contains(w.receive_by_distributor(DISTRIBUTORS[0], 0), 0);

    failed(w.process(FOREIGN_USER, 0));
    failed(w.process(DISTRIBUTORS[1], 0));
    contains(w.process(DISTRIBUTORS[0], 0), 0);

    failed(w.package(FOREIGN_USER, 0));
    failed(w.package(DISTRIBUTORS[1], 0));
    contains(w.package(DISTRIBUTORS[0], 0), 0);

    failed(w.put_up_for_sale_by_distributor(FOREIGN_USER, 0, ITEM_PRICE));
    failed(w.put_up_for_sale_by_distributor(DISTRIBUTORS[1], 0, ITEM_PRICE));
    contains(w.put_up_for_sale_by_distributor(DISTRIBUTORS[0], 0, ITEM_PRICE), 0);

    failed(w.purchase_by_retailer(FOREIGN_USER, 0, DELIVERY_TIME));
    contains(w.purchase_by_retailer(RETAILERS[0], 0, DELIVERY_TIME), 0);

    failed(w.approve_by_distributor(FOREIGN_USER, 0, true));
    failed(w.approve_by_distributor(DISTRIBUTORS[1], 0, true));
    contains_approval(w.approve_by_distributor(DISTRIBUTORS[0], 0, true), 0, true);

    failed(w.ship_by_distributor(FOREIGN_USER, 0));
    failed(w.ship_by_distributor(DISTRIBUTORS[1], 0));
    contains(w.ship_by_distributor(DISTRIBUTORS[0], 0), 0);

    failed(w.receive_by_retailer(FOREIGN_USER, 0));
    failed(w.receive_by_retailer(RETAILERS[1], 0));
    contains(w.receive_by_retailer(RETAILERS[0], 0), 0);

    failed(w.put_up_for_sale_by_retailer(FOREIGN_USER, 0, ITEM_PRICE));
    failed(w.put_up_for_sale_by_retailer(RETAILERS[1], 0, ITEM_PRICE));
}

#[test]
fn unauthorized_callers_get_access_restricted_and_no_call() {
    let mut w = World::new();
    w.mint(DISTRIBUTOR, ITEM_PRICE);
    contains(w.produce(PRODUCER), 0);
    let before = w.calls_made;

    assert_eq!(w.produce(FOREIGN_USER), Err(SupplyChainError::AccessRestricted));
    assert_eq!(
        w.put_up_for_sale_by_producer(FOREIGN_USER, 0, ITEM_PRICE),
        Err(SupplyChainError::AccessRestricted)
    );
    assert_eq!(
        w.purchase_by_retailer(DISTRIBUTOR, 0, DELIVERY_TIME),
        Err(SupplyChainError::AccessRestricted)
    );
    // A listed producer who is not the item's producer.
    let mut w2 = World::with_config(config(&[PRODUCER, 6], &[DISTRIBUTOR], &[RETAILER]));
    contains(w2.produce(PRODUCER), 0);
    let before2 = w2.calls_made;
    assert_eq!(
        w2.put_up_for_sale_by_producer(6, 0, ITEM_PRICE),
        Err(SupplyChainError::AccessRestricted)
    );
    assert_eq!(w2.calls_made, before2);
    assert!(w2.tx.reservation_list().is_empty());
    assert_eq!(w.calls_made, before);
    assert!(w.tx.reservation_list().is_empty());
}

#[test]
fn query_roles() {
    let w = World::with_config(config(&[FOREIGN_USER], &[FOREIGN_USER], &[FOREIGN_USER]));
    assert_eq!(
        w.chain.state(SupplyChainStateQuery::Roles(id(FOREIGN_USER))),
        SupplyChainStateReply::Roles(vec![
            Role::Consumer,
            Role::Producer,
            Role::Distributor,
            Role::Retailer
        ])
    );

    let w = World::with_config(config(&[], &[], &[]));
    assert_eq!(
        w.chain.state(SupplyChainStateQuery::Roles(id(FOREIGN_USER))),
        SupplyChainStateReply::Roles(vec![Role::Consumer])
    );
    assert_eq!(w.chain.roles(id(FOREIGN_USER)), vec![Role::Consumer]);
}

#[test]
fn delivery_wo_delay() {
    let mut w = World::new();
    for from in [DISTRIBUTOR, RETAILER] {
        w.mint(from, ITEM_PRICE);
    }
    ship_to_distributor(&mut w, 0, ITEM_PRICE);
    w.spend(DELIVERY_TIME);
    contains(w.receive_by_distributor(DISTRIBUTOR, 0), 0);
    assert_eq!(w.balance(PRODUCER), ITEM_PRICE);
    assert_eq!(w.balance(DISTRIBUTOR), 0);

    ship_to_retailer(&mut w, 0, ITEM_PRICE);
    w.spend(DELIVERY_TIME);
    contains(w.receive_by_retailer(RETAILER, 0), 0);
    assert_eq!(w.balance(DISTRIBUTOR), ITEM_PRICE);
    assert_eq!(w.balance(RETAILER), 0);
}

#[test]
fn delivery_with_delay() {
    const ITEM_PRICE: [u128; 2] = [123123, 12341234];
    const DELAY: u64 = DELIVERY_TIME * 2 - 1000;
    let mut w = World::new();
    w.mint(DISTRIBUTOR, ITEM_PRICE[0]);
    w.mint(RETAILER, ITEM_PRICE[1]);

    ship_to_distributor(&mut w, 0, ITEM_PRICE[0]);
    w.spend(DELAY);
    contains(w.receive_by_distributor(DISTRIBUTOR, 0), 0);
    assert_eq!(w.balance(PRODUCER), ITEM_PRICE[0] / 2);
    assert_eq!(w.balance(DISTRIBUTOR), ITEM_PRICE[0] - ITEM_PRICE[0] / 2);

    ship_to_retailer(&mut w, 0, ITEM_PRICE[1]);
    w.spend(DELAY);
    contains(w.receive_by_retailer(RETAILER, 0), 0);
    assert_eq!(
        w.balance(DISTRIBUTOR),
        ITEM_PRICE[0] - ITEM_PRICE[0] / 2 + ITEM_PRICE[1] / 2
    );
    assert_eq!(w.balance(RETAILER), ITEM_PRICE[1] - ITEM_PRICE[1] / 2);
}

#[test]
fn delivery_with_big_delay() {
    const BIG_DELAY: u64 = DELIVERY_TIME * 2;
    let mut w = World::new();
    for from in [DISTRIBUTOR, RETAILER] {
        w.mint(from, ITEM_PRICE);
    }
    ship_to_distributor(&mut w, 0, ITEM_PRICE);
    w.spend(BIG_DELAY);
    contains(w.receive_by_distributor(DISTRIBUTOR, 0), 0);
    assert_eq!(w.balance(PRODUCER), 0);
    assert_eq!(w.balance(DISTRIBUTOR), ITEM_PRICE);

    ship_to_retailer(&mut w, 0, ITEM_PRICE);
    w.spend(BIG_DELAY);
    contains(w.receive_by_retailer(RETAILER, 0), 0);
    assert_eq!(w.balance(DISTRIBUTOR), ITEM_PRICE);
    assert_eq!(w.balance(RETAILER), ITEM_PRICE);
}

#[test]
fn state() {
    let mut w = World::new();
    for from in [DISTRIBUTOR, RETAILER, CONSUMER] {
        w.mint(from, ITEM_PRICE * 2);
    }

    contains(w.produce(PRODUCER), 0);
    contains(w.put_up_for_sale_by_producer(PRODUCER, 0, ITEM_PRICE), 0);
    failed(w.put_up_for_sale_by_producer(PRODUCER, 0, ITEM_PRICE));
    contains(w.purchase_by_distributor(DISTRIBUTOR, 0, DELIVERY_TIME), 0);
    failed(w.purchase_by_distributor(DISTRIBUTOR, 0, DELIVERY_TIME));
    contains_approval(w.approve_by_producer(PRODUCER, 0, true), 0, true);
    failed(w.approve_by_producer(PRODUCER, 0, true));
    contains(w.ship_by_producer(PRODUCER, 0), 0);
    failed(w.ship_by_producer(PRODUCER, 0));
    contains(w.receive_by_distributor(DISTRIBUTOR, 0), 0);
    failed(w.receive_by_distributor(DISTRIBUTOR, 0));
    contains(w.process(DISTRIBUTOR, 0), 0);
    failed(w.process(DISTRIBUTOR, 0));
    contains(w.package(DISTRIBUTOR, 0), 0);
    failed(w.package(DISTRIBUTOR, 0));
    contains(w.put_up_for_sale_by_distributor(DISTRIBUTOR, 0, ITEM_PRICE), 0);
    failed(w.put_up_for_sale_by_distributor(DISTRIBUTOR, 0, ITEM_PRICE));
    contains(w.purchase_by_retailer(RETAILER, 0, DELIVERY_TIME), 0);
    failed(w.purchase_by_retailer(RETAILER, 0, DELIVERY_TIME));
    contains_approval(w.approve_by_distributor(DISTRIBUTOR, 0, true), 0, true);
    failed(w.approve_by_distributor(DISTRIBUTOR, 0, true));
    contains(w.ship_by_distributor(DISTRIBUTOR, 0), 0);
    failed(w.ship_by_distributor(DISTRIBUTOR, 0));
    contains(w.receive_by_retailer(RETAILER, 0), 0);
    failed(w.receive_by_retailer(RETAILER, 0));
    contains(w.put_up_for_sale_by_retailer(RETAILER, 0, ITEM_PRICE), 0);
    failed(w.put_up_for_sale_by_retailer(RETAILER, 0, ITEM_PRICE));
    contains(w.purchase_by_consumer(CONSUMER, 0), 0);
    assert_eq!(
        w.purchase_by_consumer(CONSUMER, 0),
        Err(SupplyChainError::UnexpectedItemState)
    );
    // A failed action leaves the item as it was.
    assert_eq!(
        w.item_info(0).unwrap().state,
        ItemState { state: ItemEventState::Purchased, by: Role::Consumer }
    );
}

#[test]
fn settlement_on_time_late_and_very_late() {
    assert_eq!(supply_chain::settle(1000, 1000, 1000), (1000, 0));
    assert_eq!(supply_chain::settle(1001, 1500, 1000), (500, 501));
    assert_eq!(supply_chain::settle(1000, 2000, 1000), (0, 1000));
    assert_eq!(supply_chain::settle(1000, 5000, 1000), (0, 1000));
    assert_eq!(supply_chain::settle(7, 1, 0), (0, 7));
    assert_eq!(supply_chain::settle(u128::MAX, u64::MAX, u64::MAX - 1), (u128::MAX / 2, u128::MAX - u128::MAX / 2));
}

#[test]
fn receive_after_one_and_a_half_delivery_times_splits_the_price() {
    let mut w = World::new();
    w.mint(DISTRIBUTOR, 1001);
    contains(w.produce(PRODUCER), 0);
    contains(w.put_up_for_sale_by_producer(PRODUCER, 0, 1001), 0);
    contains(w.purchase_by_distributor(DISTRIBUTOR, 0, 1000), 0);
    contains_approval(w.approve_by_producer(PRODUCER, 0, true), 0, true);
    contains(w.ship_by_producer(PRODUCER, 0), 0);
    w.spend(1500);
    contains(w.receive_by_distributor(DISTRIBUTOR, 0), 0);
    assert_eq!(w.balance(PRODUCER), 500);
    assert_eq!(w.balance(DISTRIBUTOR), 501);
    assert_eq!(w.balance(PROGRAM), 0);
}

#[test]
fn rejected_purchase_refunds_and_reopens_sale() {
    let mut w = World::new();
    w.mint(DISTRIBUTOR, 1000);
    w.mint(8, 1000);
    let mut w2 = World::with_config(config(&[PRODUCER], &[DISTRIBUTOR, 8], &[RETAILER]));
    w2.mint(DISTRIBUTOR, 1000);
    w2.mint(8, 1000);
    for world in [&mut w, &mut w2] {
        contains(world.produce(PRODUCER), 0);
        contains(world.put_up_for_sale_by_producer(PRODUCER, 0, 1000), 0);
        contains(world.purchase_by_distributor(DISTRIBUTOR, 0, 10), 0);
        assert_eq!(world.balance(DISTRIBUTOR), 0);
        let event = world.approve_by_producer(PRODUCER, 0, false).unwrap();
        assert_eq!(
            event.item_state,
            ItemState { state: ItemEventState::ForSale, by: Role::Producer }
        );
        assert_eq!(world.balance(DISTRIBUTOR), 1000);
        assert_eq!(world.balance(PROGRAM), 0);
    }
    // Another distributor buys the same item afterwards.
    contains(w2.purchase_by_distributor(8, 0, 10), 0);
    assert_eq!(w2.item_info(0).unwrap().distributor, id(8));
    assert_eq!(w2.balance(8), 0);
}

#[test]
fn bad_retry_fails_without_calls() {
    let mut w = World::new();
    w.mint(DISTRIBUTOR, ITEM_PRICE);
    contains(w.produce(PRODUCER), 0);
    let before = w.calls_made;
    let action = SupplyChainAction::new(InnerSupplyChainAction::Producer(
        ProducerAction::PutUpForSale { item_id: item(0), price: ITEM_PRICE },
    ));
    assert_eq!(
        w.run(PRODUCER, action.clone().to_retry()),
        Err(SupplyChainError::TransactionNotFound)
    );
    // A live reservation of width 1, as left by an aborted action.
    w.tx.asquire_transaction(ActionKind::New, id(PRODUCER)).unwrap();
    let produce = SupplyChainAction::new(InnerSupplyChainAction::Producer(
        ProducerAction::Produce { token_metadata: metadata() },
    ));
    assert_eq!(
        w.run(PRODUCER, produce.to_retry()),
        Err(SupplyChainError::UnexpectedTransactionAmount)
    );
    assert_eq!(w.calls_made, before);
    assert_eq!(w.tx.reservation_list().len(), 1);
}

#[test]
fn aborted_receive_is_completed_by_a_retry_without_paying_twice() {
    let mut w = World::new();
    w.mint(DISTRIBUTOR, 1001);
    ship_to_distributor(&mut w, 0, 1001);
    w.spend(DELIVERY_TIME + DELIVERY_TIME / 2);

    // The action runs its first call, then the host aborts it.
    let action = SupplyChainAction::new(InnerSupplyChainAction::Distributor(DistributorAction::Receive(item(0))));
    let step = w.chain.handle(&mut w.tx, id(DISTRIBUTOR), action.clone(), w.now, id(PROGRAM)).unwrap();
    let pending = match step {
        Step::Calls(p) => p,
        Step::Mint(_) => panic!("receiving mints nothing"),
    };
    assert_eq!(pending.calls().len(), 3);
    w.perform(&pending.calls()[0]).unwrap();
    assert_eq!(w.balance(DISTRIBUTOR), 501);

    // The retry gets the same ids; the refund is replayed without effect.
    let event = w.run(DISTRIBUTOR, action.to_retry()).unwrap();
    assert_eq!(event.item_state, ItemState { state: ItemEventState::Received, by: Role::Distributor });
    assert_eq!(w.balance(DISTRIBUTOR), 501);
    assert_eq!(w.balance(PRODUCER), 500);
    assert_eq!(w.owner(0), id(DISTRIBUTOR));
    assert!(w.tx.reservation_list().is_empty());
}

#[test]
fn failed_ledger_call_leaves_the_item_and_frees_the_reservation() {
    let mut w = World::new();
    contains(w.produce(PRODUCER), 0);
    contains(w.put_up_for_sale_by_producer(PRODUCER, 0, ITEM_PRICE), 0);
    // The distributor has no funds.
    assert_eq!(
        w.purchase_by_distributor(DISTRIBUTOR, 0, DELIVERY_TIME),
        Err(SupplyChainError::FTTransferFailed)
    );
    assert_eq!(
        w.item_info(0).unwrap().state,
        ItemState { state: ItemEventState::ForSale, by: Role::Producer }
    );
    assert!(w.tx.reservation_list().is_empty());
}

#[test]
fn call_errors_by_ledger() {
    let funds = LedgerCall::TransferFunds { ledger: id(FT), tx_id: 0, from: id(1), to: id(2), amount: 3 };
    let items = LedgerCall::TransferItem { ledger: id(NFT), tx_id: 0, to: id(1), item_id: item(0) };
    assert_eq!(call_error(&funds), SupplyChainError::FTTransferFailed);
    assert_eq!(call_error(&items), SupplyChainError::NFTTransferFailed);
}

#[test]
fn produce_mints_then_hands_over_under_the_next_id() {
    let mut w = World::new();
    let action = SupplyChainAction::new(InnerSupplyChainAction::Producer(ProducerAction::Produce {
        token_metadata: metadata(),
    }));
    let step = w.chain.handle(&mut w.tx, id(PRODUCER), action, 0, id(PROGRAM)).unwrap();
    let request = match step {
        Step::Mint(r) => r,
        Step::Calls(_) => panic!("producing mints first"),
    };
    assert_eq!(request.ledger(), id(NFT));
    assert_eq!(request.producer(), id(PRODUCER));
    let pending = w.chain.minted(request.clone(), item(42));
    assert_eq!(
        pending.calls().clone(),
        vec![LedgerCall::TransferItem {
            ledger: id(NFT),
            tx_id: request.guard().tx_id + 1,
            to: id(PRODUCER),
            item_id: item(42),
        }]
    );
    let event = w.chain.finish(&mut w.tx, pending, Ok(())).unwrap();
    assert_eq!(event.item_id, item(42));
    assert_eq!(event.item_state, ItemState { state: ItemEventState::Produced, by: Role::Producer });
    assert_eq!(w.item_info(42).unwrap().producer, id(PRODUCER));
}

#[test]
fn participants_lists_each_member_once() {
    let w = World::with_config(config(&[PRODUCER, PRODUCER, 6], &[DISTRIBUTOR], &[]));
    let p = w.chain.participants();
    let mut producers = p.producers.clone();
    producers.sort();
    assert_eq!(producers, vec![id(PRODUCER), id(6)]);
    assert_eq!(p.distributors, vec![id(DISTRIBUTOR)]);
    assert!(p.retailers.is_empty());
}

#[test]
fn process_init_starts_empty_or_refuses_zero() {
    let (chain, tx) = supply_chain::process_init(&config(&[PRODUCER], &[DISTRIBUTOR], &[RETAILER])).unwrap();
    assert!(tx.reservation_list().is_empty());
    assert_eq!(
        chain.state(SupplyChainStateQuery::ExistingItems),
        SupplyChainStateReply::ExistingItems(Vec::new())
    );
    assert_eq!(chain.roles(id(PRODUCER)), vec![Role::Consumer, Role::Producer]);
    let refused = supply_chain::process_init(&config(&[PRODUCER], &[0], &[RETAILER]));
    assert_eq!(refused.err(), Some(SupplyChainError::ZeroActorId));
}
