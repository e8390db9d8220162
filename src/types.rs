use vstd::prelude::*;

verus! {

/// A participant's address: 256 bits, held as two 128-bit halves.
///
/// The all-zero address means "nobody" and is never a valid participant.
#[derive(Clone, Copy, Debug, PartialEq, Eq, Structural, Hash, PartialOrd, Ord)]
pub struct ActorId {
    pub high: u128,
    pub low: u128,
}

impl ActorId {
    pub open spec fn spec_zero() -> ActorId {
        ActorId { high: 0, low: 0 }
    }

    pub fn zero() -> (r: ActorId)
        ensures
            r == ActorId::spec_zero(),
    {
        ActorId { high: 0, low: 0 }
    }

    pub fn is_zero(&self) -> (r: bool)
        ensures
            r == (*self == ActorId::spec_zero()),
    {
        self.high == 0 && self.low == 0
    }
}

impl From<u64> for ActorId {
    fn from(v: u64) -> (r: ActorId) {
        ActorId { high: 0, low: v as u128 }
    }
}

impl vstd::std_specs::convert::FromSpecImpl<u64> for ActorId {
    open spec fn obeys_from_spec() -> bool {
        true
    }

    open spec fn from_spec(v: u64) -> ActorId {
        ActorId { high: 0, low: v as u128 }
    }
}

/// An item's id: the 256-bit id of the item's token on the item ledger.
#[derive(Clone, Copy, Debug, PartialEq, Eq, Structural, Hash, PartialOrd, Ord)]
pub struct ItemId {
    pub high: u128,
    pub low: u128,
}

impl From<u64> for ItemId {
    fn from(v: u64) -> (r: ItemId) {
        ItemId { high: 0, low: v as u128 }
    }
}

impl vstd::std_specs::convert::FromSpecImpl<u64> for ItemId {
    open spec fn obeys_from_spec() -> bool {
        true
    }

    open spec fn from_spec(v: u64) -> ItemId {
        ItemId { high: 0, low: v as u128 }
    }
}

/// Metadata of the token minted for a new item.
#[derive(Clone, Debug, PartialEq, Eq, Hash, PartialOrd, Ord)]
pub struct TokenMetadata {
    pub name: String,
    pub description: String,
    pub media: String,
    pub reference: String,
}

/// Roles of supply chain participants. Every address is a consumer.
#[derive(Clone, Copy, Debug, PartialEq, Eq, Structural, Hash, PartialOrd, Ord)]
pub enum Role {
    Producer,
    Distributor,
    Retailer,
    Consumer,
}

/// What last happened to an item.
#[derive(Clone, Copy, Debug, PartialEq, Eq, Structural, Hash, PartialOrd, Ord)]
pub enum ItemEventState {
    Produced,
    Purchased,
    Received,
    Processed,
    Packaged,
    ForSale,
    Approved,
    Shipped,
}

/// An item's state: what happened to it, and which role did it.
#[derive(Clone, Copy, Debug, PartialEq, Eq, Structural, Hash, PartialOrd, Ord)]
pub struct ItemState {
    pub state: ItemEventState,
    pub by: Role,
}

impl ItemState {
    pub open spec fn spec_default() -> ItemState {
        ItemState { state: ItemEventState::Produced, by: Role::Producer }
    }
}

impl Default for ItemState {
    fn default() -> (r: ItemState)
        ensures
            r == ItemState::spec_default(),
    {
        ItemState { state: ItemEventState::Produced, by: Role::Producer }
    }
}

/// What is known of an item.
#[derive(Clone, Copy, Debug, PartialEq, Eq, Structural, Hash, PartialOrd, Ord)]
pub struct ItemInfo {
    /// The item's producer.
    pub producer: ActorId,
    /// The item's current or past distributor; zero if it never had one.
    pub distributor: ActorId,
    /// The item's current or past retailer; zero if it never had one.
    pub retailer: ActorId,
    pub state: ItemState,
    /// The item's price; zero if it was never put up for sale.
    pub price: u128,
    /// Milliseconds within which the current seller should deliver the item.
    pub delivery_time: u64,
}

impl ItemInfo {
    pub open spec fn spec_default() -> ItemInfo {
        ItemInfo {
            producer: ActorId::spec_zero(),
            distributor: ActorId::spec_zero(),
            retailer: ActorId::spec_zero(),
            state: ItemState::spec_default(),
            price: 0,
            delivery_time: 0,
        }
    }
}

impl Default for ItemInfo {
    fn default() -> (r: ItemInfo)
        ensures
            r == ItemInfo::spec_default(),
    {
        ItemInfo {
            producer: ActorId::zero(),
            distributor: ActorId::zero(),
            retailer: ActorId::zero(),
            state: ItemState::default(),
            price: 0,
            delivery_time: 0,
        }
    }
}

/// Whether an action is new, or a retry of one whose reservation survived.
#[derive(Clone, Copy, Debug, PartialEq, Eq, Structural, Hash, PartialOrd, Ord)]
pub enum ActionKind {
    New,
    Retry,
}

/// Actions of a producer.
#[derive(Clone, Debug, PartialEq, Eq, Hash, PartialOrd, Ord)]
pub enum ProducerAction {
    /// Mints an item's token with the given metadata and hands it to the producer.
    Produce { token_metadata: TokenMetadata },
    /// Puts a produced item up for sale to distributors.
    PutUpForSale { item_id: ItemId, price: u128 },
    /// Accepts or rejects a distributor's purchase.
    Approve { item_id: ItemId, approve: bool },
    /// Starts shipping an item to its distributor.
    Ship(ItemId),
}

/// Actions of a distributor.
#[derive(Clone, Copy, Debug, PartialEq, Eq, Structural, Hash, PartialOrd, Ord)]
pub enum DistributorAction {
    /// Buys an item from its producer, to be delivered within `delivery_time` ms.
    Purchase { item_id: ItemId, delivery_time: u64 },
    /// Receives a shipped item from its producer.
    Receive(ItemId),
    /// Processes a received item.
    Process(ItemId),
    /// Packages a processed item.
    Package(ItemId),
    /// Puts a packaged item up for sale to retailers.
    PutUpForSale { item_id: ItemId, price: u128 },
    /// Accepts or rejects a retailer's purchase.
    Approve { item_id: ItemId, approve: bool },
    /// Starts shipping an item to its retailer.
    Ship(ItemId),
}

/// Actions of a retailer.
#[derive(Clone, Copy, Debug, PartialEq, Eq, Structural, Hash, PartialOrd, Ord)]
pub enum RetailerAction {
    /// Buys an item from its distributor, to be delivered within `delivery_time` ms.
    Purchase { item_id: ItemId, delivery_time: u64 },
    /// Receives a shipped item from its distributor.
    Receive(ItemId),
    /// Puts a received item up for sale to consumers.
    PutUpForSale { item_id: ItemId, price: u128 },
}

/// Actions of a consumer.
#[derive(Clone, Copy, Debug, PartialEq, Eq, Structural, Hash, PartialOrd, Ord)]
pub enum ConsumerAction {
    /// Buys an item from its retailer.
    Purchase(ItemId),
}

#[derive(Clone, Debug, PartialEq, Eq, Hash, PartialOrd, Ord)]
pub enum InnerSupplyChainAction {
    Producer(ProducerAction),
    Distributor(DistributorAction),
    Retailer(RetailerAction),
    Consumer(ConsumerAction),
}

/// An action together with its kind.
#[derive(Clone, Debug, PartialEq, Eq, Hash, PartialOrd, Ord)]
pub struct SupplyChainAction {
    pub action: InnerSupplyChainAction,
    pub kind: ActionKind,
}

impl SupplyChainAction {
    pub fn new(action: InnerSupplyChainAction) -> (r: SupplyChainAction)
        ensures
            r.action == action,
            r.kind == ActionKind::New,
    {
        SupplyChainAction { action, kind: ActionKind::New }
    }

    pub fn to_retry(self) -> (r: SupplyChainAction)
        ensures
            r.action == self.action,
            r.kind == ActionKind::Retry,
    {
        SupplyChainAction { action: self.action, kind: ActionKind::Retry }
    }
}

/// The result of a successful action.
#[derive(Clone, Copy, Debug, PartialEq, Eq, Structural, Hash, PartialOrd, Ord)]
pub struct SupplyChainEvent {
    pub item_id: ItemId,
    pub item_state: ItemState,
}

#[derive(Clone, Debug, PartialEq, Eq, Hash, PartialOrd, Ord)]
pub enum SupplyChainError {
    /// The configuration holds the zero address.
    ZeroActorId,
    /// A retry asked for another number of transaction ids than were reserved.
    UnexpectedTransactionAmount,
    /// A retry found no reservation for the caller.
    TransactionNotFound,
    /// A new action came while the caller's reservation is still live.
    TransactionPending,
    ItemNotFound,
    UnexpectedItemState,
    AccessRestricted,
    FTTransferFailed,
    NFTTransferFailed,
    NFTMintingFailed,
    /// The message layer failed, with its description.
    ContractError(String),
}

/// The configuration a supply chain starts from.
#[derive(Clone, Debug, PartialEq, Eq, Hash, PartialOrd, Ord)]
pub struct SupplyChainInit {
    pub producers: Vec<ActorId>,
    pub distributors: Vec<ActorId>,
    pub retailers: Vec<ActorId>,
    /// The fund ledger's address.
    pub fungible_token: ActorId,
    /// The item ledger's address.
    pub non_fungible_token: ActorId,
}

/// The participant lists.
#[derive(Clone, Debug, PartialEq, Eq, Hash, PartialOrd, Ord)]
pub struct Participants {
    pub producers: Vec<ActorId>,
    pub distributors: Vec<ActorId>,
    pub retailers: Vec<ActorId>,
}

/// A question about the state.
#[derive(Clone, Copy, Debug, PartialEq, Eq, Structural, Hash, PartialOrd, Ord)]
pub enum SupplyChainStateQuery {
    ItemInfo(ItemId),
    Participants,
    Roles(ActorId),
    ExistingItems,
    FungibleToken,
    NonFungibleToken,
}

/// The answer to a [`SupplyChainStateQuery`].
#[derive(Clone, Debug, PartialEq, Eq, Hash, PartialOrd, Ord)]
pub enum SupplyChainStateReply {
    ItemInfo(Option<ItemInfo>),
    Participants { producers: Vec<ActorId>, distributors: Vec<ActorId>, retailers: Vec<ActorId> },
    FungibleToken(ActorId),
    NonFungibleToken(ActorId),
    ExistingItems(Vec<(ItemId, ItemInfo)>),
    Roles(Vec<Role>),
}

} // verus!
