//! A pallet that keeps the latest numbers and prices on a chain, and the off-chain worker that
//! finds them out and submits them.
//!
//! On the chain, [`pallet::Pallet`] holds two bounded queues and decides who may add to them, and
//! [`validity::validate_unsigned`] decides which unsigned transactions get that far. Off the chain,
//! [`worker::offchain_worker`] begins a run in each block, and [`worker::Stage::proceed`] takes it
//! on from what the node made of each action. The node itself (storage, the network, keys) is not
//! part of the library: what comes from it are arguments, and what it is to do are results. What the
//! functions promise of their results stands in [`laws`].

pub mod error;
pub mod http;
pub mod info;
pub mod json;
pub mod laws;
pub mod pallet;
pub mod payload;
pub mod permill;
pub mod price;
pub mod text;
pub mod validity;
pub mod worker;
