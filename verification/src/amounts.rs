//! Aggregation of the signed per-wallet amounts a node reports for a
//! transaction, in satoshis.
//!
//! A wallet reports one detail entry per affected address; the sender's
//! contributions are negative (funds leaving the wallet) and there can be
//! several, so an aggregate is always the sum over all entries, never the
//! first alone.

use vstd::prelude::*;
use vstd::math::abs;

use crate::errors::WorkflowError;

verus! {

/// The sum of a sequence of signed satoshi amounts, as a mathematical
/// integer.
pub open spec fn sum_sats(s: Seq<i64>) -> int
    decreases s.len(),
{
    if s.len() == 0 {
        0
    } else {
        sum_sats(s.drop_last()) + s.last()
    }
}

proof fn lemma_sum_sats_step(s: Seq<i64>, i: int)
    requires
        0 <= i < s.len(),
    ensures
        sum_sats(s.subrange(0, i + 1)) == sum_sats(s.subrange(0, i)) + s[i],
{
    assert(s.subrange(0, i + 1).drop_last() =~= s.subrange(0, i));
    assert(s.subrange(0, i + 1).last() == s[i]);
}

/// The exact sum of all entries. The sum of `usize::MAX` values of `i64`
/// magnitude always fits an `i128`, so no entry is ever dropped.
pub fn total_sats(details: &Vec<i64>) -> (t: i128)
    ensures
        t as int == sum_sats(details@),
        abs(t as int) <= details@.len() * 0x8000_0000_0000_0000,
        abs(t as int) < 0x8000_0000_0000_0000_0000_0000_0000_0000,
{
    let mut acc: i128 = 0;
    let mut i: usize = 0;
    while i < details.len()
        invariant
            0 <= i <= details@.len(),
            acc as int == sum_sats(details@.subrange(0, i as int)),
            abs(acc as int) <= (i as int) * 0x8000_0000_0000_0000,
        decreases details@.len() - i,
    {
        proof {
            lemma_sum_sats_step(details@, i as int);
            assert((i as int + 1) * 0x8000_0000_0000_0000 == (i as int) * 0x8000_0000_0000_0000
                + 0x8000_0000_0000_0000) by (nonlinear_arith);
            assert((i as int + 1) * 0x8000_0000_0000_0000 <= 0xffff_ffff_ffff_ffff
                * 0x8000_0000_0000_0000) by (nonlinear_arith)
                requires
                    i as int + 1 <= 0xffff_ffff_ffff_ffff,
            ;
        }
        acc = acc + (details[i] as i128);
        i = i + 1;
    }
    proof {
        assert(details@.subrange(0, details@.len() as int) =~= details@);
        assert((details@.len() as int) * 0x8000_0000_0000_0000 <= 0xffff_ffff_ffff_ffff
            * 0x8000_0000_0000_0000) by (nonlinear_arith)
            requires
                details@.len() as int <= 0xffff_ffff_ffff_ffff,
        ;
    }
    acc
}

/// Aggregate amount the sender wallet contributed to the transaction: the
/// sum of all its (negative) detail entries, as an absolute magnitude.
/// `None` only when that magnitude does not fit an unsigned satoshi
/// amount, which no consistent node response produces.
pub fn sender_input_sats(details: &Vec<i64>) -> (r: Option<u64>)
    ensures
        match r {
            Some(v) => abs(sum_sats(details@)) <= u64::MAX && v as int == abs(sum_sats(details@)),
            None => abs(sum_sats(details@)) > u64::MAX,
        },
{
    let t = total_sats(details);
    let a: i128 = if t < 0 {
        -t
    } else {
        t
    };
    if a <= u64::MAX as i128 {
        Some(a as u64)
    } else {
        None
    }
}

/// Aggregate amount the recipient wallet received from the transaction:
/// the sum of its incoming detail entries. `None` when the sum is negative
/// or does not fit an unsigned satoshi amount; either would be a
/// protocol-class violation on an incoming payment.
pub fn recipient_output_sats(details: &Vec<i64>) -> (r: Option<u64>)
    ensures
        match r {
            Some(v) => 0 <= sum_sats(details@) <= u64::MAX && v as int == sum_sats(details@),
            None => !(0 <= sum_sats(details@) <= u64::MAX),
        },
{
    let t = total_sats(details);
    if t >= 0 && t <= u64::MAX as i128 {
        Some(t as u64)
    } else {
        None
    }
}

/// The transaction fee as an absolute magnitude: the sender wallet reports
/// it signed, as a cost. A confirmed transaction without a fee field is a
/// workflow-invariant violation, reported as such.
pub fn fee_sats(fee: &Option<i64>) -> (r: Result<u64, WorkflowError>)
    ensures
        match r {
            Ok(v) => *fee matches Some(f) && v as int == abs(f as int),
            Err(e) => *fee is None && e == WorkflowError::MissingFee,
        },
{
    match fee {
        None => Err(WorkflowError::MissingFee),
        Some(f) => {
            let wide: i128 = *f as i128;
            let a: i128 = if wide < 0 {
                -wide
            } else {
                wide
            };
            Ok(a as u64)
        },
    }
}

} // verus!
