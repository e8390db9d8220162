//! A supply chain of items that pass from producer to distributor to retailer
//! to consumer, paid through a fund ledger and tracked on an item ledger.
//!
//! The library decides; the ledger calls are made by its caller. An action is
//! handled by [`SupplyChain::handle`], which checks it and plans its ledger
//! calls; once they were made, [`SupplyChain::finish`] records the result.
pub mod chain;
pub mod dispatch;
pub mod laws;
pub mod queries;
pub mod tables;
pub mod tx_manager;
pub mod types;

pub use chain::{settle, Item, LedgerCall, Plan, SupplyChain};
pub use dispatch::{call_error, process_init, MintRequest, Pending, Step};
pub use tx_manager::{Reservation, TransactionGuard, TransactionManager, MAX_NUMBER_OF_TXS};
pub use types::{
    ActionKind, ActorId, ConsumerAction, DistributorAction, InnerSupplyChainAction, ItemEventState,
    ItemId, ItemInfo, ItemState, Participants, ProducerAction, RetailerAction, Role,
    SupplyChainAction, SupplyChainError, SupplyChainEvent, SupplyChainInit, SupplyChainStateQuery,
    SupplyChainStateReply, TokenMetadata,
};
