//! Keeps a node's view of the chain in step with an Esplora server, and
//! prepares what a node needs to pay an invoice or to fund a transaction.
//!
//! The synchronisation is a machine that never does any input or output
//! itself: [`esplora::EsploraSyncClient::sync`] is told what happened last and
//! answers with the one query or notification that is due next. What it
//! watches comes in through a [`common::FilterQueue`]. The checks that turn a
//! server's answers into a confirmation stand in [`confirmation`], what
//! holds of every synchronisation in [`laws`], and what a whole round
//! collects in [`rounds`].
//!
//! Hashes, transactions and headers are plain values here ([`hashes`],
//! [`transaction`], [`merkle`]); what only the `bitcoin` crate can compute of
//! them is asked of it.

pub mod bolt11_payment;
pub mod common;
pub mod confirmation;
pub mod error;
pub mod esplora;
pub mod hashes;
pub mod laws;
pub mod merkle;
pub mod rounds;
pub mod transaction;
pub mod transaction_utils;
