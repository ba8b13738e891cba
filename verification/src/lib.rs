//! Verified rules of an asset-for-payment escrow and of the contracts
//! around it.
//!
//! The library decides; it never reaches outside. A host hands it what a
//! call carries and what storage holds, answers the questions it asks
//! about registries and balances, and carries out the instructions it
//! hands back.
//!
//! - [`escrow`]: the escrow itself, from the notification of a deposit to
//!   its settlement, with recovery and refund.
//! - [`guard`]: the configuration and the test of trusted registries.
//! - [`ledger`]: the records of the assets in custody.
//! - [`price`]: the price in an asset's metadata, written and read.
//! - [`step`]: the questions, answers and steps of an operation.
//! - [`wire`]: the two payloads exchanged with a registry.
//! - [`nft`]: minting an asset that carries a price.
//! - [`reward`]: payment by milestones.
//! - [`types`], [`text`], [`error`]: values, text and errors shared by
//!   the rest.

pub mod error;
pub mod escrow;
pub mod guard;
pub mod ledger;
pub mod nft;
pub mod price;
pub mod reward;
pub mod step;
pub mod text;
pub mod types;
pub mod wire;
