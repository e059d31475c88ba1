//! Percentage weights, and the part of a deposit that each weight stands for.

use vstd::prelude::*;
use crate::error::EscrowError;

verus! {

/// The sum of the first `n` weights.
pub open spec fn weights_upto(weights: Seq<u8>, n: nat) -> nat
    decreases n,
{
    if n == 0 {
        0
    } else {
        weights_upto(weights, (n - 1) as nat) + weights[n - 1] as nat
    }
}

/// The sum of all weights.
pub open spec fn weights_sum(weights: Seq<u8>) -> nat {
    weights_upto(weights, weights.len())
}

/// A distribution is valid when every weight is a percentage and together
/// they make up the whole: no weight above 100, and a sum of exactly 100.
pub open spec fn valid_distribution(weights: Seq<u8>) -> bool {
    &&& forall|i: int| 0 <= i < weights.len() ==> weights[i] <= 100
    &&& weights_sum(weights) == 100
}

/// The payout of a rank: `weight` percent of `total_amount`, rounded down.
pub open spec fn share(total_amount: nat, weight: nat) -> nat {
    total_amount * weight / 100
}

/// A longer prefix never sums to less than a shorter one.
pub proof fn lemma_weights_upto_grows(weights: Seq<u8>, m: nat, n: nat)
    requires
        m <= n,
    ensures
        weights_upto(weights, m) <= weights_upto(weights, n),
    decreases n,
{
    if m < n {
        lemma_weights_upto_grows(weights, m, (n - 1) as nat);
    }
}

/// No weight is larger than the sum of all of them.
pub proof fn lemma_weight_within_sum(weights: Seq<u8>, i: int)
    requires
        0 <= i < weights.len(),
    ensures
        weights[i] <= weights_sum(weights),
{
    lemma_weights_upto_grows(weights, (i + 1) as nat, weights.len());
}

/// Weights that sum to 100 are a valid distribution: none of them can be
/// above 100.
pub proof fn lemma_full_sum_is_valid(weights: Seq<u8>)
    ensures
        valid_distribution(weights) <==> weights_sum(weights) == 100,
{
    if weights_sum(weights) == 100 {
        assert forall|i: int| 0 <= i < weights.len() implies weights[i] <= 100 by {
            lemma_weight_within_sum(weights, i);
        }
    }
}

/// A share, taken a hundred times, is never more than the weighted deposit.
pub proof fn lemma_share_bound(total_amount: nat, weight: nat)
    ensures
        share(total_amount, weight) * 100 <= total_amount * weight,
{
    let x = total_amount * weight;
    assert(0 <= x) by (nonlinear_arith)
        requires
            x == total_amount * weight,
    ;
    assert((x / 100) * 100 <= x) by (nonlinear_arith)
        requires
            0 <= x,
    ;
}

/// Decides whether `weights` is a valid distribution.
pub fn check_distribution(weights: &Vec<u8>) -> (ok: bool)
    ensures
        ok == valid_distribution(weights@),
{
    let mut sum: u8 = 0;
    let mut i: usize = 0;
    while i < weights.len()
        invariant
            i <= weights.len(),
            sum == weights_upto(weights@, i as nat),
            sum <= 100,
            forall|j: int| 0 <= j < i ==> weights@[j] <= 100,
        decreases weights.len() - i,
    {
        let w: u8 = weights[i];
        if w > 100 - sum {
            proof {
                lemma_weights_upto_grows(weights@, (i + 1) as nat, weights@.len());
            }
            return false;
        }
        sum = sum + w;
        i += 1;
    }
    sum == 100
}

/// Computes the payout of a rank in 64-bit arithmetic, and refuses where the
/// product of deposit and weight does not fit.
pub fn payout(total_amount: u64, weight: u8) -> (r: Result<u64, EscrowError>)
    ensures
        match r {
            Ok(p) => total_amount * weight <= u64::MAX && p == share(
                total_amount as nat,
                weight as nat,
            ),
            Err(e) => e == EscrowError::ArithmeticOverflow && total_amount * weight > u64::MAX,
        },
{
    match total_amount.checked_mul(weight as u64) {
        Some(product) => Ok(product / 100),
        None => Err(EscrowError::ArithmeticOverflow),
    }
}

} // verus!
