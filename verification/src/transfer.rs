//! The transfer executor's decisions. Submitting the payment, probing the
//! mempool and mining the confirming block are node calls made by the
//! caller; this module decides what each answer means. None of these steps
//! is idempotent — re-submitting would pay twice — so every failure here
//! is fatal, never retried.

use vstd::prelude::*;

use crate::errors::WorkflowError;

verus! {

/// The confirming block's hash. The workflow mines exactly one block to
/// confirm the payment, so the hash is the first (and only) entry of the
/// mining result; an empty result means there is no confirming block,
/// which is the named fatal condition.
pub fn confirmation_hash(hashes: Vec<String>) -> (r: Result<String, WorkflowError>)
    ensures
        match r {
            Ok(h) => hashes@.len() >= 1 && h == hashes@[0],
            Err(e) => hashes@.len() == 0 && e == WorkflowError::NoBlockHash,
        },
{
    if hashes.len() == 0 {
        Err(WorkflowError::NoBlockHash)
    } else {
        let mut hashes = hashes;
        Ok(hashes.remove(0))
    }
}

/// The mempool probe after submission is a sanity check, not a retry
/// point: absence is fatal, since it means the submission did not reach
/// the node's view of the network.
pub fn mempool_gate(present: bool) -> (r: Result<(), WorkflowError>)
    ensures
        match r {
            Ok(_) => present,
            Err(e) => !present && e == WorkflowError::NotInMempool,
        },
{
    if present {
        Ok(())
    } else {
        Err(WorkflowError::NotInMempool)
    }
}

/// Outcome of a raw payment submission that reports a completion flag
/// beside the transaction id: the id counts only when the node reports
/// the submission complete.
pub fn accept_send(complete: bool, txid: String) -> (r: Option<String>)
    ensures
        match r {
            Some(t) => complete && t@ == txid@,
            None => !complete,
        },
{
    if complete {
        Some(txid)
    } else {
        None
    }
}

} // verus!
