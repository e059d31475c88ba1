//! What holds of every pool, whatever is done with it.

use vstd::prelude::*;
use crate::error::EscrowError;
use crate::identity::Identity;
use crate::model::{
    claim_prize_outcome, create_pool_outcome, emergency_withdraw_outcome, lemma_paid_upto_mark,
    lemma_paid_upto_none, lemma_paid_upto_within_deposit, set_winners_outcome, PoolView,
};
use crate::shares::{lemma_full_sum_is_valid, weights_sum};
use crate::transfer::{Account, Transfer};

verus! {

/// A pool is only ever created with weights that sum to 100. Any other
/// distribution is refused with `InvalidDistribution`, whatever the other
/// arguments are, and no distribution that sums to 100 is refused for that
/// reason.
pub proof fn law_distribution_sums_to_100(
    creator: Identity,
    now: int,
    post_id: Seq<char>,
    total_amount: nat,
    distribution: Seq<u8>,
    ends_at: int,
)
    ensures
        ({
            let outcome = create_pool_outcome(
                creator,
                now,
                post_id,
                total_amount,
                distribution,
                ends_at,
            );
            &&& weights_sum(distribution) != 100 <==> outcome == Err::<
                (PoolView, Transfer),
                EscrowError,
            >(EscrowError::InvalidDistribution)
            &&& outcome is Ok ==> outcome.unwrap().0.distribution == distribution && weights_sum(
                distribution,
            ) == 100
        }),
{
    lemma_full_sum_is_valid(distribution);
}

/// A pool that has just been created is well formed, holds the whole
/// deposit, and has no winners.
pub proof fn law_creation_establishes_invariant(
    creator: Identity,
    now: int,
    post_id: Seq<char>,
    total_amount: nat,
    distribution: Seq<u8>,
    ends_at: int,
)
    requires
        total_amount <= u64::MAX,
        create_pool_outcome(creator, now, post_id, total_amount, distribution, ends_at) is Ok,
    ensures
        ({
            let (pool, deposit) = create_pool_outcome(
                creator,
                now,
                post_id,
                total_amount,
                distribution,
                ends_at,
            ).unwrap();
            &&& pool.well_formed()
            &&& pool.escrow_balance == total_amount
            &&& pool.winners is None
            &&& deposit.amount == total_amount
        }),
{
}

/// Naming winners keeps a pool well formed, moves nothing, and leaves every
/// rank unpaid.
pub proof fn law_set_winners_keeps_invariant(
    pool: PoolView,
    caller: Identity,
    now: int,
    winners: Seq<Identity>,
)
    requires
        pool.well_formed(),
        set_winners_outcome(pool, caller, now, winners) is Ok,
    ensures
        ({
            let after = set_winners_outcome(pool, caller, now, winners).unwrap();
            &&& after.well_formed()
            &&& after.escrow_balance == pool.escrow_balance
            &&& after.paid_out() == 0
            &&& after.withdrawn == 0
        }),
{
    let after = set_winners_outcome(pool, caller, now, winners).unwrap();
    lemma_paid_upto_none(
        after.total_amount,
        after.distribution,
        after.claimed,
        after.claimed.len(),
    );
}

/// A claim keeps a pool well formed. It marks one rank that was unpaid and
/// that the caller is the winner of, pays exactly that rank's share from
/// escrow to the caller, and takes exactly that much from the balance.
pub proof fn law_claim_keeps_invariant(pool: PoolView, caller: Identity)
    requires
        pool.well_formed(),
        claim_prize_outcome(pool, caller) is Ok,
    ensures
        ({
            let (after, prize) = claim_prize_outcome(pool, caller).unwrap();
            let rank = pool.next_rank(caller);
            &&& after.well_formed()
            &&& pool.is_first_open_rank(caller, rank)
            &&& pool.winners.unwrap()[rank] == caller
            &&& prize.source == Account::Escrow
            &&& prize.destination == Account::Wallet(caller)
            &&& after.claimed == pool.claimed.update(rank, true)
            &&& prize.amount == pool.payout(rank)
            &&& prize.amount <= pool.escrow_balance
            &&& after.escrow_balance == pool.escrow_balance - prize.amount
            &&& after.paid_out() == pool.paid_out() + prize.amount
            &&& after.withdrawn == pool.withdrawn
        }),
{
    let (after, prize) = claim_prize_outcome(pool, caller).unwrap();
    let rank = pool.next_rank(caller);
    let witness = choose|i: int| pool.open_rank(caller, i);
    lemma_first_open_rank_exists(pool, caller, witness);
    assert(pool.is_first_open_rank(caller, rank));
    assert(!pool.claimed[rank]);
    lemma_paid_upto_mark(
        pool.total_amount,
        pool.distribution,
        pool.claimed,
        rank,
        pool.claimed.len(),
    );
    lemma_paid_upto_within_deposit(
        pool.total_amount,
        pool.distribution,
        after.claimed,
        after.claimed.len(),
    );
}

/// Where a party has an unpaid rank, it has a first one.
pub proof fn lemma_first_open_rank_exists(pool: PoolView, who: Identity, i: int)
    requires
        pool.open_rank(who, i),
    ensures
        exists|k: int| pool.is_first_open_rank(who, k),
    decreases i,
{
    if exists|j: int| 0 <= j < i && pool.open_rank(who, j) {
        let j = choose|j: int| 0 <= j < i && pool.open_rank(who, j);
        lemma_first_open_rank_exists(pool, who, j);
    } else {
        assert(pool.is_first_open_rank(who, i));
    }
}

/// An emergency withdrawal keeps a pool well formed. It empties the escrow
/// and counts what was in it as withdrawn.
pub proof fn law_withdrawal_keeps_invariant(pool: PoolView, caller: Identity)
    requires
        pool.well_formed(),
        emergency_withdraw_outcome(pool, caller) is Ok,
    ensures
        ({
            let (after, refund) = emergency_withdraw_outcome(pool, caller).unwrap();
            &&& after.well_formed()
            &&& refund.amount == pool.escrow_balance
            &&& after.escrow_balance == 0
            &&& after.withdrawn == pool.withdrawn + refund.amount
            &&& after.paid_out() == pool.paid_out()
        }),
{
}

/// What has been paid to winners and what the owner has withdrawn is, taken
/// together, never more than the deposit: it is exactly what is no longer in
/// escrow.
pub proof fn law_payments_within_deposit(pool: PoolView)
    requires
        pool.well_formed(),
    ensures
        pool.paid_out() + pool.withdrawn <= pool.total_amount,
        pool.paid_out() + pool.withdrawn == pool.total_amount - pool.escrow_balance,
{
}

/// No operation changes the terms of a pool: its post, owner, deposit,
/// distribution and deadline stay as they were created.
pub proof fn law_terms_are_fixed(
    pool: PoolView,
    caller: Identity,
    now: int,
    winners: Seq<Identity>,
)
    ensures
        set_winners_outcome(pool, caller, now, winners) is Ok ==> same_terms(
            pool,
            set_winners_outcome(pool, caller, now, winners).unwrap(),
        ),
        claim_prize_outcome(pool, caller) is Ok ==> same_terms(
            pool,
            claim_prize_outcome(pool, caller).unwrap().0,
        ),
        emergency_withdraw_outcome(pool, caller) is Ok ==> same_terms(
            pool,
            emergency_withdraw_outcome(pool, caller).unwrap().0,
        ),
{
}

/// Two states of a pool that agree on what is fixed at creation.
pub open spec fn same_terms(before: PoolView, after: PoolView) -> bool {
    &&& after.post_id == before.post_id
    &&& after.owner == before.owner
    &&& after.total_amount == before.total_amount
    &&& after.distribution == before.distribution
    &&& after.ends_at == before.ends_at
}

/// Winners are named once: on a pool that has winners, naming them is refused,
/// and claims and withdrawals leave them as they are.
pub proof fn law_winners_are_named_once(
    pool: PoolView,
    caller: Identity,
    now: int,
    winners: Seq<Identity>,
)
    requires
        pool.winners is Some,
    ensures
        set_winners_outcome(pool, caller, now, winners) is Err,
        caller == pool.owner && now >= pool.ends_at ==> set_winners_outcome(
            pool,
            caller,
            now,
            winners,
        ) == Err::<PoolView, EscrowError>(EscrowError::WinnersAlreadySet),
        claim_prize_outcome(pool, caller) is Ok ==> claim_prize_outcome(
            pool,
            caller,
        ).unwrap().0.winners == pool.winners,
        emergency_withdraw_outcome(pool, caller) is Ok ==> emergency_withdraw_outcome(
            pool,
            caller,
        ).unwrap().0.winners == pool.winners,
{
}

/// A rank that has been paid stays paid: no operation takes the mark back.
pub proof fn law_paid_rank_stays_paid(
    pool: PoolView,
    caller: Identity,
    now: int,
    winners: Seq<Identity>,
    rank: int,
)
    requires
        pool.well_formed(),
        0 <= rank < pool.claimed.len(),
        pool.claimed[rank],
    ensures
        set_winners_outcome(pool, caller, now, winners) is Err,
        claim_prize_outcome(pool, caller) is Ok ==> claim_prize_outcome(
            pool,
            caller,
        ).unwrap().0.claimed[rank],
        emergency_withdraw_outcome(pool, caller) is Ok ==> emergency_withdraw_outcome(
            pool,
            caller,
        ).unwrap().0.claimed[rank],
{
    if claim_prize_outcome(pool, caller) is Ok {
        law_claim_keeps_invariant(pool, caller);
    }
}

/// No rank is paid twice. After a claim was paid for a rank, a further claim
/// of the same party is never paid for that rank again: it is paid for
/// another rank of theirs that is still unpaid, or refused. Where the party
/// has no other unpaid rank it is refused with `AlreadyClaimed`.
pub proof fn law_no_double_claim(pool: PoolView, caller: Identity)
    requires
        pool.well_formed(),
        claim_prize_outcome(pool, caller) is Ok,
    ensures
        ({
            let rank = pool.next_rank(caller);
            let after = claim_prize_outcome(pool, caller).unwrap().0;
            let again = claim_prize_outcome(after, caller);
            &&& !after.open_rank(caller, rank)
            &&& match again {
                Ok((later, prize)) => {
                    &&& after.next_rank(caller) != rank
                    &&& pool.open_rank(caller, after.next_rank(caller))
                    &&& later.claimed[rank]
                },
                Err(e) => e == EscrowError::AlreadyClaimed || e == EscrowError::ArithmeticOverflow,
            }
            &&& (forall|j: int| j != rank ==> !pool.open_rank(caller, j)) ==> again == Err::<
                (PoolView, Transfer),
                EscrowError,
            >(EscrowError::AlreadyClaimed)
        }),
{
    let rank = pool.next_rank(caller);
    let after = claim_prize_outcome(pool, caller).unwrap().0;
    law_claim_keeps_invariant(pool, caller);
    assert(after.holds_rank(caller, rank));
    assert forall|j: int| after.open_rank(caller, j) implies j != rank && pool.open_rank(
        caller,
        j,
    ) by {}
    if claim_prize_outcome(after, caller) is Ok {
        law_claim_keeps_invariant(after, caller);
    }
}

/// Only the owner names winners or withdraws: anyone else is refused with
/// `Unauthorized`, whatever the state of the pool and the other arguments.
pub proof fn law_only_owner(pool: PoolView, caller: Identity, now: int, winners: Seq<Identity>)
    requires
        caller != pool.owner,
    ensures
        set_winners_outcome(pool, caller, now, winners) == Err::<PoolView, EscrowError>(
            EscrowError::Unauthorized,
        ),
        emergency_withdraw_outcome(pool, caller) == Err::<(PoolView, Transfer), EscrowError>(
            EscrowError::Unauthorized,
        ),
{
}

/// The deadline gates the naming of winners. Before it the owner is refused
/// with `PoolNotEnded`. At or after it the owner succeeds, provided that the
/// pool has no winners yet, has not been drained, and gets one winner per
/// weight.
pub proof fn law_time_gate(pool: PoolView, now: int, winners: Seq<Identity>)
    ensures
        now < pool.ends_at ==> set_winners_outcome(pool, pool.owner, now, winners) == Err::<
            PoolView,
            EscrowError,
        >(EscrowError::PoolNotEnded),
        now >= pool.ends_at && pool.winners is None && !pool.drained() && winners.len()
            == pool.distribution.len() ==> set_winners_outcome(
            pool,
            pool.owner,
            now,
            winners,
        ) is Ok,
{
}

/// Once the owner has withdrawn the deposit of a pool without winners, the
/// pool stays as it is: winners can no longer be named, no claim is paid, and
/// a further withdrawal moves nothing.
pub proof fn law_drained_pool_is_final(
    pool: PoolView,
    caller: Identity,
    now: int,
    winners: Seq<Identity>,
)
    requires
        pool.well_formed(),
        pool.drained(),
    ensures
        set_winners_outcome(pool, caller, now, winners) is Err,
        caller == pool.owner && now >= pool.ends_at ==> set_winners_outcome(
            pool,
            caller,
            now,
            winners,
        ) == Err::<PoolView, EscrowError>(EscrowError::PoolDrained),
        claim_prize_outcome(pool, caller) == Err::<(PoolView, Transfer), EscrowError>(
            EscrowError::WinnersNotSet,
        ),
        emergency_withdraw_outcome(pool, caller) is Ok ==> emergency_withdraw_outcome(
            pool,
            caller,
        ).unwrap() == (
            pool,
            Transfer {
                source: Account::Escrow,
                destination: Account::Wallet(pool.owner),
                amount: 0,
            },
        ),
{
}

} // verus!
