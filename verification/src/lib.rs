//! Power-up bookkeeping for a wolf-pack NFT collection.
//!
//! A wolf NFT is parked with the contract by the wolf-pack collection; bone NFTs sent
//! by the power-up collection are then burned, their "XP Boost" traits are added to
//! the wolf's "XP" trait, the wolf's "LVL" trait is recomputed from the level table,
//! and the wolf is sent back to its owner with a history record.
//!
//! The modules hold the decisions of each handler as functions from plain values to
//! plain values; reading and writing chain storage, querying other contracts and
//! encoding outgoing messages happen around them.

pub mod decimal;
pub mod msg;
pub mod state;
pub mod metadata;
pub mod encoding;
pub mod contract;
pub mod laws;
