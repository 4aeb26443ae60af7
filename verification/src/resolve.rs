//! The transaction detail resolver: reconstructs the semantic facts of the
//! confirmed payment — aggregate input amount, payment amount, change
//! output, fee, confirming block — from the node's raw query results,
//! which expose outputs positionally and never label their roles.
//!
//! The one heuristic lives in [`find_change_output`]: node wallets
//! conventionally append the change output after the explicit payment
//! outputs, so among the outputs whose resolved address differs from the
//! known recipient address, the last one is taken as change. Outputs with
//! no resolvable address are excluded. The policy is isolated here so a
//! stricter strategy could replace it without touching the rest.

use vstd::prelude::*;
use vstd::math::abs;

use crate::amounts::{fee_sats, recipient_output_sats, sender_input_sats, sum_sats};
use crate::errors::WorkflowError;

verus! {

/// One output of the decoded raw transaction, in transaction order: its
/// value and the destination address, when the node could resolve one.
pub struct TxOutput {
    pub value_sats: u64,
    pub address: Option<String>,
}

/// The output selected as change: its resolved address and value.
pub struct ChangeOutput {
    pub address: String,
    pub value_sats: u64,
}

/// An output counts as a change candidate when it has a resolvable
/// address and that address is not the recipient's.
pub open spec fn is_change_candidate(o: TxOutput, recipient: Seq<char>) -> bool {
    match o.address {
        Some(a) => a@ != recipient,
        None => false,
    }
}

/// The change output the positional policy selects: the last change
/// candidate of the ordered output list, as (address, value), or `None`
/// when there is no candidate at all.
pub open spec fn spec_change_output(vout: Seq<TxOutput>, recipient: Seq<char>) -> Option<
    (Seq<char>, u64),
>
    decreases vout.len(),
{
    if vout.len() == 0 {
        None
    } else {
        match vout.last().address {
            Some(a) => if a@ != recipient {
                Some((a@, vout.last().value_sats))
            } else {
                spec_change_output(vout.drop_last(), recipient)
            },
            None => spec_change_output(vout.drop_last(), recipient),
        }
    }
}

/// The same selection carrying the selected output's own address value
/// rather than its view, for callers that keep the address: the last
/// change candidate's (address, value), or `None` when there is none.
pub open spec fn spec_change_entry(vout: Seq<TxOutput>, recipient: Seq<char>) -> Option<
    (String, u64),
>
    decreases vout.len(),
{
    if vout.len() == 0 {
        None
    } else {
        match vout.last().address {
            Some(a) => if a@ != recipient {
                Some((a, vout.last().value_sats))
            } else {
                spec_change_entry(vout.drop_last(), recipient)
            },
            None => spec_change_entry(vout.drop_last(), recipient),
        }
    }
}

/// The fields of `c` are exactly those of the output `o`: its resolved
/// address and its value.
pub open spec fn candidate_fields(o: TxOutput, c: (Seq<char>, u64)) -> bool {
    match o.address {
        Some(a) => a@ == c.0 && o.value_sats == c.1,
        None => false,
    }
}

/// What "last candidate" means, spelled out: the policy selects the fields
/// of an output that is a change candidate and is followed by no other,
/// and selects nothing exactly when no output is a candidate.
pub proof fn lemma_change_output_is_last_candidate(vout: Seq<TxOutput>, recipient: Seq<char>)
    ensures
        match spec_change_output(vout, recipient) {
            Some(c) => exists|i: int|
                0 <= i < vout.len() && #[trigger] is_change_candidate(vout[i], recipient)
                    && candidate_fields(vout[i], c) && forall|j: int|
                    i < j < vout.len() ==> !is_change_candidate(vout[j], recipient),
            None => forall|i: int|
                0 <= i < vout.len() ==> !is_change_candidate(vout[i], recipient),
        },
    decreases vout.len(),
{
    if vout.len() > 0 {
        if is_change_candidate(vout.last(), recipient) {
            let i = vout.len() - 1;
            assert(is_change_candidate(vout[i as int], recipient));
        } else {
            lemma_change_output_is_last_candidate(vout.drop_last(), recipient);
            match spec_change_output(vout.drop_last(), recipient) {
                Some(c) => {
                    let i = choose|i: int|
                        0 <= i < vout.drop_last().len() && #[trigger] is_change_candidate(
                            vout.drop_last()[i],
                            recipient,
                        ) && candidate_fields(vout.drop_last()[i], c) && forall|j: int|
                            i < j < vout.drop_last().len() ==> !is_change_candidate(
                                vout.drop_last()[j],
                                recipient,
                            );
                    assert(vout[i] == vout.drop_last()[i]);
                    assert(is_change_candidate(vout[i], recipient));
                    assert(forall|j: int|
                        i < j < vout.len() ==> !is_change_candidate(vout[j], recipient)) by {
                        assert(forall|j: int|
                            i < j < vout.len() - 1 ==> vout[j] == vout.drop_last()[j]);
                    }
                },
                None => {
                    assert(forall|i: int|
                        0 <= i < vout.len() - 1 ==> vout[i] == vout.drop_last()[i]);
                },
            }
        }
    }
}

/// Select the change output of a decoded transaction: the last output
/// whose resolved address differs from the recipient's. Fails with the
/// named "no change output found" condition — never a guessed default —
/// when no output qualifies, as in an exact-change payment.
pub fn find_change_output(vout: &Vec<TxOutput>, recipient: &String) -> (r: Result<
    ChangeOutput,
    WorkflowError,
>)
    ensures
        match r {
            Ok(c) => spec_change_output(vout@, recipient@) == Some((c.address@, c.value_sats))
                && spec_change_entry(vout@, recipient@) == Some((c.address, c.value_sats)),
            Err(e) => spec_change_output(vout@, recipient@) is None && spec_change_entry(
                vout@,
                recipient@,
            ) is None && e == WorkflowError::NoChangeOutput,
        },
{
    proof {
        assert(vout@.subrange(0, vout@.len() as int) =~= vout@);
    }
    let mut i: usize = vout.len();
    while i > 0
        invariant
            0 <= i <= vout@.len(),
            spec_change_output(vout@, recipient@) == spec_change_output(
                vout@.subrange(0, i as int),
                recipient@,
            ),
            spec_change_entry(vout@, recipient@) == spec_change_entry(
                vout@.subrange(0, i as int),
                recipient@,
            ),
        decreases i,
    {
        i = i - 1;
        proof {
            assert(vout@.subrange(0, i as int + 1).last() == vout@[i as int]);
            assert(vout@.subrange(0, i as int + 1).drop_last() =~= vout@.subrange(0, i as int));
        }
        match &vout[i].address {
            Some(a) => {
                if !a.eq(recipient) {
                    return Ok(
                        ChangeOutput { address: a.clone(), value_sats: vout[i].value_sats },
                    );
                }
            },
            None => {},
        }
    }
    proof {
        assert(vout@.subrange(0, 0) =~= Seq::<TxOutput>::empty());
    }
    Err(WorkflowError::NoChangeOutput)
}

/// The finished report entity: every amount in satoshis, every identifier
/// in its canonical string form. Created once by resolution, immutable,
/// written exactly once.
pub struct TransactionSummary {
    pub txid: String,
    pub sender_address: String,
    pub sender_input_sats: u64,
    pub recipient_address: String,
    pub recipient_output_sats: u64,
    pub change_address: String,
    pub change_sats: u64,
    pub fee_sats: u64,
    pub block_height: u64,
    pub block_hash: String,
}

/// How a summary's derived fields relate to the raw node results they were
/// resolved from: input is the magnitude of the sender wallet's detail
/// sum, output is the recipient wallet's detail sum, change is what the
/// positional policy selects, fee is the magnitude of the reported fee.
pub open spec fn resolved_from(
    s: TransactionSummary,
    sender_details: Seq<i64>,
    recipient_details: Seq<i64>,
    vout: Seq<TxOutput>,
    fee: Option<i64>,
    recipient: Seq<char>,
) -> bool {
    &&& s.sender_input_sats as int == abs(sum_sats(sender_details))
    &&& s.recipient_output_sats as int == sum_sats(recipient_details)
    &&& spec_change_output(vout, recipient) == Some((s.change_address@, s.change_sats))
    &&& fee matches Some(f) && s.fee_sats as int == abs(f as int)
    &&& s.recipient_address@ == recipient
}

/// A raw observation balances when the sender's contribution covers
/// exactly the payment, the change and the fee — what a consistent node
/// reports for any real transaction.
pub open spec fn observation_balances(
    sender_details: Seq<i64>,
    recipient_details: Seq<i64>,
    vout: Seq<TxOutput>,
    fee: Option<i64>,
    recipient: Seq<char>,
) -> bool {
    match (spec_change_output(vout, recipient), fee) {
        (Some(c), Some(f)) => abs(sum_sats(sender_details)) == sum_sats(recipient_details) + c.1
            + abs(f as int),
        _ => false,
    }
}

/// Resolve the summary of the confirmed payment from the raw node
/// results. Succeeds exactly when every aggregate fits the satoshi range,
/// some output qualifies as change, and the fee is present; each failure
/// is the named condition, checked in that order, and nothing is ever
/// defaulted.
pub fn resolve_summary(
    txid: String,
    sender_address: String,
    sender_details: &Vec<i64>,
    recipient_address: String,
    recipient_details: &Vec<i64>,
    vout: &Vec<TxOutput>,
    fee: &Option<i64>,
    block_height: u64,
    block_hash: String,
) -> (r: Result<TransactionSummary, WorkflowError>)
    ensures
        match r {
            Ok(s) => {
                &&& resolved_from(
                    s,
                    sender_details@,
                    recipient_details@,
                    vout@,
                    *fee,
                    recipient_address@,
                )
                &&& abs(sum_sats(sender_details@)) <= u64::MAX
                &&& 0 <= sum_sats(recipient_details@) <= u64::MAX
                &&& s.txid@ == txid@
                &&& s.sender_address@ == sender_address@
                &&& s.block_height == block_height
                &&& s.block_hash@ == block_hash@
            },
            Err(e) => match e {
                WorkflowError::AmountOutOfRange => abs(sum_sats(sender_details@)) > u64::MAX || !(0
                    <= sum_sats(recipient_details@) <= u64::MAX),
                WorkflowError::NoChangeOutput => {
                    &&& abs(sum_sats(sender_details@)) <= u64::MAX
                    &&& 0 <= sum_sats(recipient_details@) <= u64::MAX
                    &&& spec_change_output(vout@, recipient_address@) is None
                },
                WorkflowError::MissingFee => {
                    &&& abs(sum_sats(sender_details@)) <= u64::MAX
                    &&& 0 <= sum_sats(recipient_details@) <= u64::MAX
                    &&& spec_change_output(vout@, recipient_address@) is Some
                    &&& *fee is None
                },
                _ => false,
            },
        },
{
    let input = match sender_input_sats(sender_details) {
        Some(v) => v,
        None => {
            return Err(WorkflowError::AmountOutOfRange);
        },
    };
    let output = match recipient_output_sats(recipient_details) {
        Some(v) => v,
        None => {
            return Err(WorkflowError::AmountOutOfRange);
        },
    };
    let change = match find_change_output(vout, &recipient_address) {
        Ok(c) => c,
        Err(e) => {
            return Err(e);
        },
    };
    let fee_magnitude = match fee_sats(fee) {
        Ok(f) => f,
        Err(e) => {
            return Err(e);
        },
    };
    Ok(
        TransactionSummary {
            txid,
            sender_address,
            sender_input_sats: input,
            recipient_address,
            recipient_output_sats: output,
            change_address: change.address,
            change_sats: change.value_sats,
            fee_sats: fee_magnitude,
            block_height,
            block_hash,
        },
    )
}

/// For any resolved summary of a balancing observation, the report's
/// round trip is exact: input amount minus payment minus change equals the
/// fee, with no tolerance at all — amounts are integral satoshis, so the
/// difference is zero, well below any epsilon a floating-point reading
/// would allow.
pub proof fn lemma_summary_balances(
    s: TransactionSummary,
    sender_details: Seq<i64>,
    recipient_details: Seq<i64>,
    vout: Seq<TxOutput>,
    fee: Option<i64>,
    recipient: Seq<char>,
)
    requires
        resolved_from(s, sender_details, recipient_details, vout, fee, recipient),
        observation_balances(sender_details, recipient_details, vout, fee, recipient),
    ensures
        s.sender_input_sats == s.recipient_output_sats + s.change_sats + s.fee_sats,
{
}

} // verus!
