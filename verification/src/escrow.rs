//! The operations of the escrow.
//!
//! Each one decides on the pool record alone. Where it succeeds it returns the
//! transfer that goes with the change; the host makes that transfer and keeps
//! the changed record only if the tokens moved.

use vstd::prelude::*;
use crate::error::EscrowError;
use crate::identity::Identity;
use crate::laws::{
    law_claim_keeps_invariant, law_set_winners_keeps_invariant, law_withdrawal_keeps_invariant,
};
use crate::model::{
    claim_prize_outcome, create_pool_outcome, emergency_withdraw_outcome, lemma_next_rank,
    set_winners_outcome, PoolView,
};
use crate::pool::Pool;
use crate::shares::{check_distribution, payout};
use crate::transfer::{Account, Transfer};

verus! {

/// Creates the pool of a post and asks for the deposit to be moved from the
/// creator into escrow.
pub fn create_pool(
    creator: Identity,
    now: i64,
    post_id: String,
    total_amount: u64,
    distribution: Vec<u8>,
    ends_at: i64,
) -> (r: Result<(Pool, Transfer), EscrowError>)
    ensures
        match r {
            Ok((pool, deposit)) => {
                &&& pool@.well_formed()
                &&& create_pool_outcome(
                    creator,
                    now as int,
                    post_id@,
                    total_amount as nat,
                    distribution@,
                    ends_at as int,
                ) == Ok::<(PoolView, Transfer), EscrowError>((pool@, deposit))
            },
            Err(e) => create_pool_outcome(
                creator,
                now as int,
                post_id@,
                total_amount as nat,
                distribution@,
                ends_at as int,
            ) == Err::<(PoolView, Transfer), EscrowError>(e),
        },
{
    if !check_distribution(&distribution) {
        return Err(EscrowError::InvalidDistribution);
    }
    if ends_at <= now {
        return Err(EscrowError::InvalidDeadline);
    }
    if total_amount == 0 {
        return Err(EscrowError::InvalidAmount);
    }
    let pool = Pool {
        post_id,
        owner: creator,
        total_amount,
        distribution,
        ends_at,
        winners: None,
        claimed: Vec::new(),
        escrow_balance: total_amount,
        withdrawn: 0,
    };
    let deposit = Transfer {
        source: Account::Wallet(creator),
        destination: Account::Escrow,
        amount: total_amount,
    };
    Ok((pool, deposit))
}

/// Names the winners of a pool, in rank order. No tokens move.
pub fn set_winners(pool: &mut Pool, caller: Identity, now: i64, winners: Vec<Identity>) -> (r:
    Result<(), EscrowError>)
    requires
        old(pool)@.well_formed(),
    ensures
        final(pool)@.well_formed(),
        match r {
            Ok(()) => set_winners_outcome(old(pool)@, caller, now as int, winners@) == Ok::<
                PoolView,
                EscrowError,
            >(final(pool)@),
            Err(e) => {
                &&& set_winners_outcome(old(pool)@, caller, now as int, winners@) == Err::<
                    PoolView,
                    EscrowError,
                >(e)
                &&& *final(pool) == *old(pool)
            },
        },
{
    if !(caller == pool.owner) {
        return Err(EscrowError::Unauthorized);
    }
    if now < pool.ends_at {
        return Err(EscrowError::PoolNotEnded);
    }
    if pool.winners.is_some() {
        return Err(EscrowError::WinnersAlreadySet);
    }
    if pool.escrow_balance == 0 {
        return Err(EscrowError::PoolDrained);
    }
    let ranks: usize = pool.distribution.len();
    if winners.len() != ranks {
        return Err(EscrowError::DistributionMismatch);
    }
    let mut claimed: Vec<bool> = Vec::new();
    while claimed.len() < ranks
        invariant
            claimed.len() <= ranks,
            forall|i: int| 0 <= i < claimed.len() ==> !claimed@[i],
        decreases ranks - claimed.len(),
    {
        claimed.push(false);
    }
    pool.claimed = claimed;
    pool.winners = Some(winners);
    proof {
        assert(pool@.claimed =~= Seq::new(pool@.distribution.len(), |i: int| false));
        law_set_winners_keeps_invariant(old(pool)@, caller, now as int, winners@);
    }
    Ok(())
}

/// Pays the caller the prize of the first rank that they hold and have not
/// been paid for, and asks for the payout to be moved from escrow to them.
pub fn claim_prize(pool: &mut Pool, caller: Identity) -> (r: Result<Transfer, EscrowError>)
    requires
        old(pool)@.well_formed(),
    ensures
        final(pool)@.well_formed(),
        match r {
            Ok(prize) => claim_prize_outcome(old(pool)@, caller) == Ok::<
                (PoolView, Transfer),
                EscrowError,
            >((final(pool)@, prize)),
            Err(e) => {
                &&& claim_prize_outcome(old(pool)@, caller) == Err::<
                    (PoolView, Transfer),
                    EscrowError,
                >(e)
                &&& *final(pool) == *old(pool)
            },
        },
{
    if pool.winners.is_none() {
        return Err(EscrowError::WinnersNotSet);
    }
    let rank: usize = match pool.first_open_rank(caller) {
        Some(rank) => rank,
        None => {
            if pool.holds_any_rank(caller) {
                return Err(EscrowError::AlreadyClaimed);
            } else {
                return Err(EscrowError::NotAWinner);
            }
        },
    };
    proof {
        lemma_next_rank(pool@, caller, rank as int);
    }
    let amount: u64 = match payout(pool.total_amount, pool.distribution[rank]) {
        Ok(amount) => amount,
        Err(e) => {
            return Err(e);
        },
    };
    proof {
        law_claim_keeps_invariant(pool@, caller);
    }
    pool.claimed[rank] = true;
    pool.escrow_balance = pool.escrow_balance - amount;
    Ok(Transfer { source: Account::Escrow, destination: Account::Wallet(caller), amount })
}

/// Returns what is left in escrow to the owner: the whole deposit of a pool
/// without winners, or the remainder of one whose prizes have all been paid.
pub fn emergency_withdraw(pool: &mut Pool, caller: Identity) -> (r: Result<Transfer, EscrowError>)
    requires
        old(pool)@.well_formed(),
    ensures
        final(pool)@.well_formed(),
        match r {
            Ok(refund) => emergency_withdraw_outcome(old(pool)@, caller) == Ok::<
                (PoolView, Transfer),
                EscrowError,
            >((final(pool)@, refund)),
            Err(e) => {
                &&& emergency_withdraw_outcome(old(pool)@, caller) == Err::<
                    (PoolView, Transfer),
                    EscrowError,
                >(e)
                &&& *final(pool) == *old(pool)
            },
        },
{
    if !(caller == pool.owner) {
        return Err(EscrowError::Unauthorized);
    }
    if pool.winners.is_some() && !pool.all_claimed() {
        return Err(EscrowError::EmergencyConditionNotMet);
    }
    proof {
        law_withdrawal_keeps_invariant(pool@, caller);
    }
    let amount: u64 = pool.escrow_balance;
    pool.withdrawn = pool.withdrawn + amount;
    pool.escrow_balance = 0;
    Ok(Transfer { source: Account::Escrow, destination: Account::Wallet(pool.owner), amount })
}

/// Closes an operation once the host knows whether the transfer it asked for
/// went through: the changed record stands if the tokens moved, and is
/// dropped with `TransferFailed` if they did not.
pub fn settle(staged: Pool, moved: bool) -> (r: Result<Pool, EscrowError>)
    ensures
        moved ==> r == Ok::<Pool, EscrowError>(staged),
        !moved ==> r == Err::<Pool, EscrowError>(EscrowError::TransferFailed),
{
    if moved {
        Ok(staged)
    } else {
        Err(EscrowError::TransferFailed)
    }
}

} // verus!
