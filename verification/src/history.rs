//! Whole histories of a pool: what holds after any number of requests, made
//! by anyone, at any time, in any order.

use vstd::prelude::*;
use crate::identity::Identity;
use crate::laws::{
    law_claim_keeps_invariant, law_creation_establishes_invariant,
    law_set_winners_keeps_invariant, law_terms_are_fixed, law_withdrawal_keeps_invariant,
    same_terms,
};
use crate::model::{
    claim_prize_outcome, create_pool_outcome, emergency_withdraw_outcome, set_winners_outcome,
    PoolView,
};

verus! {

/// One call of an operation on an existing pool.
pub enum Request {
    SetWinners { caller: Identity, now: int, winners: Seq<Identity> },
    ClaimPrize { caller: Identity },
    EmergencyWithdraw { caller: Identity },
}

/// The pool after a request: as the operation leaves it, which for a refused
/// request is as it was.
pub open spec fn after(pool: PoolView, request: Request) -> PoolView {
    match request {
        Request::SetWinners { caller, now, winners } => match set_winners_outcome(
            pool,
            caller,
            now,
            winners,
        ) {
            Ok(next) => next,
            Err(_) => pool,
        },
        Request::ClaimPrize { caller } => match claim_prize_outcome(pool, caller) {
            Ok((next, _)) => next,
            Err(_) => pool,
        },
        Request::EmergencyWithdraw { caller } => match emergency_withdraw_outcome(pool, caller) {
            Ok((next, _)) => next,
            Err(_) => pool,
        },
    }
}

/// What a request moves out of escrow: the amount of the transfer that the
/// operation asks for, and nothing for a refused request.
pub open spec fn moved_by(pool: PoolView, request: Request) -> nat {
    match request {
        Request::SetWinners { .. } => 0,
        Request::ClaimPrize { caller } => match claim_prize_outcome(pool, caller) {
            Ok((_, prize)) => prize.amount as nat,
            Err(_) => 0,
        },
        Request::EmergencyWithdraw { caller } => match emergency_withdraw_outcome(pool, caller) {
            Ok((_, refund)) => refund.amount as nat,
            Err(_) => 0,
        },
    }
}

/// The pool after a sequence of requests, made one after the other.
pub open spec fn after_all(pool: PoolView, requests: Seq<Request>) -> PoolView
    decreases requests.len(),
{
    if requests.len() == 0 {
        pool
    } else {
        after(after_all(pool, requests.drop_last()), requests.last())
    }
}

/// What a sequence of requests moves out of escrow, all told.
pub open spec fn moved_by_all(pool: PoolView, requests: Seq<Request>) -> nat
    decreases requests.len(),
{
    if requests.len() == 0 {
        0
    } else {
        moved_by_all(pool, requests.drop_last()) + moved_by(
            after_all(pool, requests.drop_last()),
            requests.last(),
        )
    }
}

/// One request keeps a pool well formed and its terms fixed, and what it
/// moves out of escrow is exactly what the balance goes down by.
pub proof fn law_request_keeps_invariant(pool: PoolView, request: Request)
    requires
        pool.well_formed(),
    ensures
        after(pool, request).well_formed(),
        same_terms(pool, after(pool, request)),
        moved_by(pool, request) + after(pool, request).escrow_balance == pool.escrow_balance,
{
    match request {
        Request::SetWinners { caller, now, winners } => {
            law_terms_are_fixed(pool, caller, now, winners);
            if set_winners_outcome(pool, caller, now, winners) is Ok {
                law_set_winners_keeps_invariant(pool, caller, now, winners);
            }
        },
        Request::ClaimPrize { caller } => {
            law_terms_are_fixed(pool, caller, 0, Seq::empty());
            if claim_prize_outcome(pool, caller) is Ok {
                law_claim_keeps_invariant(pool, caller);
            }
        },
        Request::EmergencyWithdraw { caller } => {
            law_terms_are_fixed(pool, caller, 0, Seq::empty());
            if emergency_withdraw_outcome(pool, caller) is Ok {
                law_withdrawal_keeps_invariant(pool, caller);
            }
        },
    }
}

/// Whatever is asked of a well-formed pool, and however often, it stays well
/// formed with its terms fixed, and what has left the escrow is exactly what
/// the balance has gone down by.
pub proof fn law_history_keeps_invariant(pool: PoolView, requests: Seq<Request>)
    requires
        pool.well_formed(),
    ensures
        after_all(pool, requests).well_formed(),
        same_terms(pool, after_all(pool, requests)),
        moved_by_all(pool, requests) + after_all(pool, requests).escrow_balance
            == pool.escrow_balance,
    decreases requests.len(),
{
    if requests.len() > 0 {
        law_history_keeps_invariant(pool, requests.drop_last());
        law_request_keeps_invariant(after_all(pool, requests.drop_last()), requests.last());
    }
}

/// Over the whole life of a pool, from its creation on, no more leaves the
/// escrow than was deposited: what has been moved out and what is still held
/// are together the deposit.
pub proof fn law_never_more_than_the_deposit(
    creator: Identity,
    now: int,
    post_id: Seq<char>,
    total_amount: nat,
    distribution: Seq<u8>,
    ends_at: int,
    requests: Seq<Request>,
)
    requires
        total_amount <= u64::MAX,
        create_pool_outcome(creator, now, post_id, total_amount, distribution, ends_at) is Ok,
    ensures
        ({
            let (pool, deposit) = create_pool_outcome(
                creator,
                now,
                post_id,
                total_amount,
                distribution,
                ends_at,
            ).unwrap();
            let last = after_all(pool, requests);
            &&& last.well_formed()
            &&& moved_by_all(pool, requests) + last.escrow_balance == deposit.amount
            &&& moved_by_all(pool, requests) <= total_amount
            &&& moved_by_all(pool, requests) == last.paid_out() + last.withdrawn
        }),
{
    let (pool, deposit) = create_pool_outcome(
        creator,
        now,
        post_id,
        total_amount,
        distribution,
        ends_at,
    ).unwrap();
    law_creation_establishes_invariant(creator, now, post_id, total_amount, distribution, ends_at);
    law_history_keeps_invariant(pool, requests);
}

} // verus!
