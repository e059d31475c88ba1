//! The pool as a mathematical record, its invariant, and the four operations
//! as functions from a record to an outcome.

use vstd::prelude::*;
use crate::error::EscrowError;
use crate::identity::Identity;
use crate::shares::{
    lemma_share_bound, lemma_weights_upto_grows, share, valid_distribution, weights_upto,
};
use crate::transfer::{Account, Transfer};

verus! {

/// The state of one pool.
#[verifier::ext_equal]
pub struct PoolView {
    /// The identifier of the post, as the host's database gave it.
    pub post_id: Seq<char>,
    /// Who created the pool.
    pub owner: Identity,
    /// The deposit, in the token's smallest unit.
    pub total_amount: nat,
    /// One percentage per rank.
    pub distribution: Seq<u8>,
    /// The time before which no winners can be named.
    pub ends_at: int,
    /// The winners in rank order, once they are named.
    pub winners: Option<Seq<Identity>>,
    /// For each rank, whether its prize has been paid. Empty until winners are
    /// named.
    pub claimed: Seq<bool>,
    /// What is left in the escrow account.
    pub escrow_balance: nat,
    /// What the owner has taken back by emergency withdrawals.
    pub withdrawn: nat,
}

/// What has been paid to the first `n` ranks.
pub open spec fn paid_upto(total_amount: nat, weights: Seq<u8>, claimed: Seq<bool>, n: nat) -> nat
    decreases n,
{
    if n == 0 {
        0
    } else {
        paid_upto(total_amount, weights, claimed, (n - 1) as nat) + if claimed[n - 1] {
            share(total_amount, weights[n - 1] as nat)
        } else {
            0
        }
    }
}

impl PoolView {
    /// The payout of rank `i`.
    pub open spec fn payout(self, i: int) -> nat {
        share(self.total_amount, self.distribution[i] as nat)
    }

    /// The sum of the payouts of all ranks that have been paid.
    pub open spec fn paid_out(self) -> nat {
        paid_upto(self.total_amount, self.distribution, self.claimed, self.claimed.len())
    }

    /// Every rank has been paid. Holds of a pool without winners.
    pub open spec fn all_claimed(self) -> bool {
        forall|i: int| 0 <= i < self.claimed.len() ==> self.claimed[i]
    }

    /// `who` is the winner at rank `i`.
    pub open spec fn holds_rank(self, who: Identity, i: int) -> bool {
        &&& self.winners is Some
        &&& 0 <= i < self.winners.unwrap().len()
        &&& self.winners.unwrap()[i] == who
    }

    /// `who` is the winner at rank `i`, and that rank has not been paid.
    pub open spec fn open_rank(self, who: Identity, i: int) -> bool {
        &&& self.holds_rank(who, i)
        &&& i < self.claimed.len()
        &&& !self.claimed[i]
    }

    /// `i` is the first unpaid rank of `who`.
    pub open spec fn is_first_open_rank(self, who: Identity, i: int) -> bool {
        &&& self.open_rank(who, i)
        &&& forall|j: int| 0 <= j < i ==> !self.open_rank(who, j)
    }

    /// The rank that the next claim of `who` is paid for: the first unpaid
    /// one. Arbitrary where `who` has none.
    pub open spec fn next_rank(self, who: Identity) -> int {
        choose|i: int| self.is_first_open_rank(who, i)
    }

    /// The owner has withdrawn the deposit of a pool that never had winners.
    pub open spec fn drained(self) -> bool {
        self.winners is None && self.escrow_balance == 0
    }

    /// The invariant of a pool. There is a deposit, and it fits 64 bits. The
    /// distribution is valid. Winners, where they are named, are one per
    /// rank, and so are the paid marks; without winners there are no marks.
    /// What is held, what has been paid and what has been withdrawn are
    /// together the deposit. And nothing has been withdrawn while a winner
    /// was still unpaid: after a withdrawal the escrow is empty and no rank
    /// is open.
    pub open spec fn well_formed(self) -> bool {
        &&& 0 < self.total_amount <= u64::MAX
        &&& valid_distribution(self.distribution)
        &&& match self.winners {
            Some(w) => w.len() == self.distribution.len() && self.claimed.len()
                == self.distribution.len(),
            None => self.claimed.len() == 0,
        }
        &&& self.escrow_balance + self.paid_out() + self.withdrawn == self.total_amount
        &&& self.withdrawn > 0 ==> self.escrow_balance == 0 && self.all_claimed()
    }
}

/// What `create_pool` does: the new pool and the deposit to move into escrow,
/// or the reason for refusing. The distribution is looked at first, then the
/// deadline, then the amount; the first that is wrong gives the reason.
pub open spec fn create_pool_outcome(
    creator: Identity,
    now: int,
    post_id: Seq<char>,
    total_amount: nat,
    distribution: Seq<u8>,
    ends_at: int,
) -> Result<(PoolView, Transfer), EscrowError> {
    if !valid_distribution(distribution) {
        Err(EscrowError::InvalidDistribution)
    } else if ends_at <= now {
        Err(EscrowError::InvalidDeadline)
    } else if total_amount == 0 {
        Err(EscrowError::InvalidAmount)
    } else {
        Ok(
            (
                PoolView {
                    post_id,
                    owner: creator,
                    total_amount,
                    distribution,
                    ends_at,
                    winners: None,
                    claimed: Seq::empty(),
                    escrow_balance: total_amount,
                    withdrawn: 0,
                },
                Transfer {
                    source: Account::Wallet(creator),
                    destination: Account::Escrow,
                    amount: total_amount as u64,
                },
            ),
        )
    }
}

/// What `set_winners` does: the pool with its winners and every rank unpaid,
/// or the reason for refusing. The caller is looked at first, then the time,
/// then the state of the pool, then the number of winners; the first that is
/// wrong gives the reason. The same party may be named for several ranks.
pub open spec fn set_winners_outcome(
    pool: PoolView,
    caller: Identity,
    now: int,
    winners: Seq<Identity>,
) -> Result<PoolView, EscrowError> {
    if caller != pool.owner {
        Err(EscrowError::Unauthorized)
    } else if now < pool.ends_at {
        Err(EscrowError::PoolNotEnded)
    } else if pool.winners is Some {
        Err(EscrowError::WinnersAlreadySet)
    } else if pool.drained() {
        Err(EscrowError::PoolDrained)
    } else if winners.len() != pool.distribution.len() {
        Err(EscrowError::DistributionMismatch)
    } else {
        Ok(
            PoolView {
                winners: Some(winners),
                claimed: Seq::new(pool.distribution.len(), |i: int| false),
                ..pool
            },
        )
    }
}

/// What `claim_prize` does: the pool after the payment and the payout to move
/// to the caller, or the reason for refusing. One call pays one rank: the
/// first that the caller holds and has not been paid for. A caller whose
/// ranks are all paid is told `AlreadyClaimed`, one who holds none
/// `NotAWinner`. The payout is computed in 64 bits, and refused where the
/// product of deposit and percentage does not fit.
pub open spec fn claim_prize_outcome(pool: PoolView, caller: Identity) -> Result<
    (PoolView, Transfer),
    EscrowError,
> {
    if pool.winners is None {
        Err(EscrowError::WinnersNotSet)
    } else if !(exists|i: int| pool.holds_rank(caller, i)) {
        Err(EscrowError::NotAWinner)
    } else if !(exists|i: int| pool.open_rank(caller, i)) {
        Err(EscrowError::AlreadyClaimed)
    } else {
        let rank = pool.next_rank(caller);
        if pool.total_amount * pool.distribution[rank] > u64::MAX {
            Err(EscrowError::ArithmeticOverflow)
        } else {
            Ok(
                (
                    PoolView {
                        claimed: pool.claimed.update(rank, true),
                        escrow_balance: (pool.escrow_balance - pool.payout(rank)) as nat,
                        ..pool
                    },
                    Transfer {
                        source: Account::Escrow,
                        destination: Account::Wallet(caller),
                        amount: pool.payout(rank) as u64,
                    },
                ),
            )
        }
    }
}

/// What `emergency_withdraw` does: the emptied pool and the remainder to move
/// to the owner, or the reason for refusing. The owner may withdraw at any
/// time while no winners are named, and again once every rank is paid; what
/// is left then is what rounding down the payouts has kept back.
pub open spec fn emergency_withdraw_outcome(pool: PoolView, caller: Identity) -> Result<
    (PoolView, Transfer),
    EscrowError,
> {
    if caller != pool.owner {
        Err(EscrowError::Unauthorized)
    } else if pool.winners is Some && !pool.all_claimed() {
        Err(EscrowError::EmergencyConditionNotMet)
    } else {
        Ok(
            (
                PoolView {
                    escrow_balance: 0,
                    withdrawn: pool.withdrawn + pool.escrow_balance,
                    ..pool
                },
                Transfer {
                    source: Account::Escrow,
                    destination: Account::Wallet(pool.owner),
                    amount: pool.escrow_balance as u64,
                },
            ),
        )
    }
}

/// The payouts of the first `n` ranks, taken a hundred times, are never more
/// than the deposit weighted by the sum of their percentages.
pub proof fn lemma_paid_upto_bound(
    total_amount: nat,
    weights: Seq<u8>,
    claimed: Seq<bool>,
    n: nat,
)
    requires
        n <= weights.len(),
    ensures
        paid_upto(total_amount, weights, claimed, n) * 100 <= total_amount * weights_upto(
            weights,
            n,
        ),
    decreases n,
{
    if n > 0 {
        let m = (n - 1) as nat;
        let w = weights[n - 1] as nat;
        lemma_paid_upto_bound(total_amount, weights, claimed, m);
        lemma_share_bound(total_amount, w);
        assert(total_amount * (weights_upto(weights, m) + w) == total_amount * weights_upto(
            weights,
            m,
        ) + total_amount * w) by (nonlinear_arith);
        assert(0 <= total_amount * w) by (nonlinear_arith);
    } else {
        assert(total_amount * 0 == 0) by (nonlinear_arith);
    }
}

/// With a valid distribution, what has been paid to the first `n` ranks is
/// never more than the deposit.
pub proof fn lemma_paid_upto_within_deposit(
    total_amount: nat,
    weights: Seq<u8>,
    claimed: Seq<bool>,
    n: nat,
)
    requires
        valid_distribution(weights),
        n <= weights.len(),
    ensures
        paid_upto(total_amount, weights, claimed, n) <= total_amount,
{
    let sum = weights_upto(weights, n);
    lemma_paid_upto_bound(total_amount, weights, claimed, n);
    lemma_weights_upto_grows(weights, n, weights.len());
    assert(total_amount * sum <= total_amount * 100) by (nonlinear_arith)
        requires
            sum <= 100,
    ;
}

/// Where no rank is marked as paid, nothing has been paid.
pub proof fn lemma_paid_upto_none(total_amount: nat, weights: Seq<u8>, claimed: Seq<bool>, n: nat)
    requires
        n <= claimed.len(),
        forall|i: int| 0 <= i < n ==> !claimed[i],
    ensures
        paid_upto(total_amount, weights, claimed, n) == 0,
    decreases n,
{
    if n > 0 {
        lemma_paid_upto_none(total_amount, weights, claimed, (n - 1) as nat);
    }
}

/// Marking an unpaid rank as paid adds exactly its share to what has been
/// paid.
pub proof fn lemma_paid_upto_mark(
    total_amount: nat,
    weights: Seq<u8>,
    claimed: Seq<bool>,
    rank: int,
    n: nat,
)
    requires
        0 <= rank < claimed.len(),
        !claimed[rank],
        n <= claimed.len(),
    ensures
        paid_upto(total_amount, weights, claimed.update(rank, true), n) == paid_upto(
            total_amount,
            weights,
            claimed,
            n,
        ) + if rank < n {
            share(total_amount, weights[rank] as nat)
        } else {
            0
        },
    decreases n,
{
    if n > 0 {
        lemma_paid_upto_mark(total_amount, weights, claimed, rank, (n - 1) as nat);
    }
}

/// The first unpaid rank of a party is unique, so it is the one that
/// `next_rank` names.
pub proof fn lemma_next_rank(pool: PoolView, who: Identity, i: int)
    requires
        pool.is_first_open_rank(who, i),
    ensures
        pool.next_rank(who) == i,
{
    let k = pool.next_rank(who);
    assert(pool.is_first_open_rank(who, k));
    if k < i {
        assert(!pool.open_rank(who, k));
    } else if i < k {
        assert(!pool.open_rank(who, i));
    }
}

} // verus!
