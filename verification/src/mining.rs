//! The funds bootstrapper: mine a maturation batch, then one block at a
//! time until the wallet's confirmed balance clears a threshold.
//!
//! The loop itself re-reads the balance from the node after every block,
//! so the decision here is only its guard; on a private test network where
//! every block pays a fixed positive reward, the number of rounds the loop
//! can take is bounded, and [`lemma_mining_bounded`] gives the exact bound.

use vstd::prelude::*;
use vstd::arithmetic::div_mod::lemma_fundamental_div_mod;
use vstd::arithmetic::mul::lemma_mul_inequality;

verus! {

/// Blocks mined up front so the earliest block reward matures into a
/// spendable balance: the coinbase maturity rule wants at least 100
/// confirmations on top of the rewarding block.
pub const MATURATION_BLOCKS: u64 = 101;

/// The mining loop's guard: the wallet is funded once its confirmed
/// balance reaches the threshold, both in satoshis. The loop returns only
/// when this holds of the balance it last observed.
pub fn balance_reached(balance_sats: u64, min_sats: u64) -> (r: bool)
    ensures
        r == (balance_sats >= min_sats),
{
    balance_sats >= min_sats
}

/// The least number of one-block rounds that takes `balance` to `min` when
/// every round adds exactly `reward`.
pub open spec fn blocks_needed(balance: int, min: int, reward: int) -> int
    recommends
        reward >= 1,
{
    if balance >= min {
        0
    } else {
        (min - balance + reward - 1) / reward
    }
}

/// The mining loop terminates in a bounded number of rounds and never
/// stops early: with a fixed per-block reward of at least one satoshi,
/// `blocks_needed` rounds reach the threshold, and after any smaller
/// number of rounds the balance is still below it.
pub proof fn lemma_mining_bounded(balance: int, min: int, reward: int)
    requires
        reward >= 1,
    ensures
        balance + blocks_needed(balance, min, reward) * reward >= min,
        forall|k: int|
            0 <= k < blocks_needed(balance, min, reward) ==> balance + #[trigger] (k * reward)
                < min,
        balance < min ==> blocks_needed(balance, min, reward) <= min - balance,
{
    if balance < min {
        let d = min - balance;
        let q = (d + reward - 1) / reward;
        let r = (d + reward - 1) % reward;
        lemma_fundamental_div_mod(d + reward - 1, reward);
        assert(0 <= r < reward) by (nonlinear_arith)
            requires
                reward >= 1,
                r == (d + reward - 1) % reward,
        ;
        assert(q * reward == d + reward - 1 - r);
        assert(q * reward >= d);
        assert forall|k: int| 0 <= k < q implies balance + #[trigger] (k * reward) < min by {
            lemma_mul_inequality(k, q - 1, reward);
            assert((q - 1) * reward == q * reward - reward) by (nonlinear_arith);
        }
        assert(q <= d) by {
            if q > d {
                lemma_mul_inequality(d + 1, q, reward);
                assert((d + 1) * reward == d * reward + reward) by (nonlinear_arith);
                assert(d * reward >= d) by (nonlinear_arith)
                    requires
                        d >= 1,
                        reward >= 1,
                ;
            }
        }
    }
}

/// How many one-block rounds the loop will take from the balance observed
/// after the maturation batch, if every block pays exactly `reward_sats`:
/// the least count whose rewards reach the threshold.
pub fn blocks_until_funded(balance_sats: u64, min_sats: u64, reward_sats: u64) -> (n: u64)
    requires
        reward_sats >= 1,
    ensures
        n as int == blocks_needed(balance_sats as int, min_sats as int, reward_sats as int),
        balance_sats + n * reward_sats >= min_sats,
        forall|k: int|
            0 <= k < n ==> balance_sats + #[trigger] (k * reward_sats) < min_sats,
{
    proof {
        lemma_mining_bounded(balance_sats as int, min_sats as int, reward_sats as int);
    }
    if balance_sats >= min_sats {
        0
    } else {
        let d: u128 = (min_sats - balance_sats) as u128;
        let q: u128 = (d + (reward_sats as u128) - 1) / (reward_sats as u128);
        q as u64
    }
}

} // verus!
