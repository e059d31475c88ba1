//! The pool record as it is stored, and the questions that can be asked of it.

use vstd::prelude::*;
use crate::identity::Identity;
use crate::model::{lemma_paid_upto_within_deposit, paid_upto, PoolView};
use crate::shares::{check_distribution, valid_distribution};

verus! {

/// The record of one pool. The operations of the escrow keep it well formed;
/// a record that comes from storage is to be checked with `is_well_formed`
/// before it is handed to them.
#[derive(Clone, Debug, PartialEq, Eq)]
pub struct Pool {
    /// The identifier of the post, as the host's database gave it.
    pub post_id: String,
    /// Who created the pool.
    pub owner: Identity,
    /// The deposit, in the token's smallest unit.
    pub total_amount: u64,
    /// One percentage per rank.
    pub distribution: Vec<u8>,
    /// The time before which no winners can be named.
    pub ends_at: i64,
    /// The winners in rank order, once they are named.
    pub winners: Option<Vec<Identity>>,
    /// For each rank, whether its prize has been paid. Empty until winners are
    /// named.
    pub claimed: Vec<bool>,
    /// What is left in the escrow account.
    pub escrow_balance: u64,
    /// What the owner has taken back by emergency withdrawals.
    pub withdrawn: u64,
}

impl View for Pool {
    type V = PoolView;

    open spec fn view(&self) -> PoolView {
        PoolView {
            post_id: self.post_id@,
            owner: self.owner,
            total_amount: self.total_amount as nat,
            distribution: self.distribution@,
            ends_at: self.ends_at as int,
            winners: match self.winners {
                Some(w) => Some(w@),
                None => None,
            },
            claimed: self.claimed@,
            escrow_balance: self.escrow_balance as nat,
            withdrawn: self.withdrawn as nat,
        }
    }
}

impl Pool {
    /// Whether `who` is the winner of some rank.
    pub fn holds_any_rank(&self, who: Identity) -> (r: bool)
        ensures
            r == exists|i: int| self@.holds_rank(who, i),
    {
        match &self.winners {
            None => false,
            Some(winners) => {
                let mut i: usize = 0;
                while i < winners.len()
                    invariant
                        i <= winners.len(),
                        self.winners == Some(*winners),
                        forall|j: int| 0 <= j < i ==> !self@.holds_rank(who, j),
                    decreases winners.len() - i,
                {
                    if winners[i] == who {
                        assert(self@.holds_rank(who, i as int));
                        return true;
                    }
                    i += 1;
                }
                false
            },
        }
    }

    /// The first rank of `who` that has not been paid, if there is one.
    pub fn first_open_rank(&self, who: Identity) -> (r: Option<usize>)
        ensures
            match r {
                Some(i) => self@.is_first_open_rank(who, i as int),
                None => forall|i: int| !self@.open_rank(who, i),
            },
    {
        match &self.winners {
            None => None,
            Some(winners) => {
                let mut i: usize = 0;
                while i < winners.len() && i < self.claimed.len()
                    invariant
                        self.winners == Some(*winners),
                        forall|j: int| 0 <= j < i ==> !self@.open_rank(who, j),
                    decreases winners.len() - i,
                {
                    if winners[i] == who && !self.claimed[i] {
                        return Some(i);
                    }
                    i += 1;
                }
                None
            },
        }
    }

    /// Whether every rank has been paid.
    pub fn all_claimed(&self) -> (r: bool)
        ensures
            r == self@.all_claimed(),
    {
        let mut i: usize = 0;
        while i < self.claimed.len()
            invariant
                i <= self.claimed.len(),
                forall|j: int| 0 <= j < i ==> self.claimed@[j],
            decreases self.claimed.len() - i,
        {
            if !self.claimed[i] {
                assert(!self@.claimed[i as int]);
                return false;
            }
            i += 1;
        }
        true
    }

    /// The sum of the payouts of the ranks that have been paid.
    pub fn paid_out(&self) -> (r: u64)
        requires
            valid_distribution(self@.distribution),
            self@.claimed.len() <= self@.distribution.len(),
        ensures
            r == self@.paid_out(),
    {
        let mut paid: u64 = 0;
        let mut i: usize = 0;
        while i < self.claimed.len()
            invariant
                i <= self.claimed.len(),
                valid_distribution(self.distribution@),
                self.claimed.len() <= self.distribution.len(),
                paid == paid_upto(
                    self.total_amount as nat,
                    self.distribution@,
                    self.claimed@,
                    i as nat,
                ),
            decreases self.claimed.len() - i,
        {
            proof {
                lemma_paid_upto_within_deposit(
                    self.total_amount as nat,
                    self.distribution@,
                    self.claimed@,
                    (i + 1) as nat,
                );
            }
            if self.claimed[i] {
                let weight: u8 = self.distribution[i];
                assert(self.total_amount * weight <= u64::MAX * 255) by (nonlinear_arith)
                    requires
                        self.total_amount <= u64::MAX,
                        weight <= 255,
                ;
                let part: u128 = self.total_amount as u128 * weight as u128 / 100;
                paid = paid + part as u64;
            }
            i += 1;
        }
        paid
    }

    /// Decides whether the record is well formed.
    pub fn is_well_formed(&self) -> (r: bool)
        ensures
            r == self@.well_formed(),
    {
        if self.total_amount == 0 || !check_distribution(&self.distribution) {
            return false;
        }
        let lengths_agree: bool = match &self.winners {
            Some(winners) => winners.len() == self.distribution.len() && self.claimed.len()
                == self.distribution.len(),
            None => self.claimed.len() == 0,
        };
        if !lengths_agree {
            return false;
        }
        let paid: u64 = self.paid_out();
        let held: u128 = self.escrow_balance as u128 + paid as u128 + self.withdrawn as u128;
        if held != self.total_amount as u128 {
            return false;
        }
        self.withdrawn == 0 || (self.escrow_balance == 0 && self.all_claimed())
    }
}

} // verus!
