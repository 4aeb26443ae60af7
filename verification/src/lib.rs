//! Decision logic for a scripted regtest payment workflow: provision two
//! named wallets on a node, mine until the sender's balance clears a
//! threshold, send one payment, confirm it, and reconstruct a summary
//! record (input amount, payment, change, fee, confirming block) from the
//! node's raw query results.
//!
//! All node interaction is plain RPC I/O and lives outside this crate; the
//! functions here take the node's answers as plain values (amounts in
//! satoshis, addresses and transaction ids as strings) and decide what to
//! do next or what the answers mean.

use vstd::prelude::*;

pub mod amounts;
pub mod errors;
pub mod mining;
pub mod provision;
pub mod report;
pub mod resolve;
pub mod transfer;
pub mod workflow;

verus! {

/// Number of satoshis in one bitcoin.
pub const SATS_PER_BTC: u64 = 100_000_000;

} // verus!
