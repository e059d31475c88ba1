use gimme_idea::{
    claim_prize, create_pool, emergency_withdraw, set_winners, settle, Account, EscrowError,
    Identity, Pool, Transfer,
};

fn party(tag: u8) -> Identity {
    Identity { bytes: [tag; 32] }
}

const NOW: i64 = 1_700_000_000;

fn funded_pool(total_amount: u64, distribution: Vec<u8>) -> Pool {
    let (pool, _) = create_pool(
        party(9),
        NOW,
        String::from("post-42"),
        total_amount,
        distribution,
        NOW + 100,
    )
    .unwrap();
    pool
}

#[test]
fn three_winners_are_paid_in_full_and_nothing_is_left() {
    let owner = party(9);
    let (a, b, c) = (party(1), party(2), party(3));
    let (mut pool, deposit) = create_pool(
        owner,
        NOW,
        String::from("post-42"),
        1_000_000,
        vec![50, 30, 20],
        NOW + 100,
    )
    .unwrap();
    assert_eq!(
        deposit,
        Transfer { source: Account::Wallet(owner), destination: Account::Escrow, amount: 1_000_000 }
    );
    assert_eq!(pool.escrow_balance, 1_000_000);
    assert_eq!(pool.winners, None);

    assert_eq!(set_winners(&mut pool, owner, NOW + 101, vec![a, b, c]), Ok(()));
    assert_eq!(pool.winners, Some(vec![a, b, c]));
    assert_eq!(pool.claimed, vec![false, false, false]);
    assert_eq!(pool.escrow_balance, 1_000_000);

    let first = claim_prize(&mut pool, a).unwrap();
    assert_eq!(
        first,
        Transfer { source: Account::Escrow, destination: Account::Wallet(a), amount: 500_000 }
    );
    assert_eq!(pool.claimed, vec![true, false, false]);
    assert_eq!(pool.escrow_balance, 500_000);

    let second = claim_prize(&mut pool, b).unwrap();
    assert_eq!(second.amount, 300_000);
    assert_eq!(second.destination, Account::Wallet(b));
    assert_eq!(pool.claimed, vec![true, true, false]);

    let third = claim_prize(&mut pool, c).unwrap();
    assert_eq!(third.amount, 200_000);
    assert_eq!(pool.claimed, vec![true, true, true]);
    assert_eq!(pool.escrow_balance, 0);

    let refund = emergency_withdraw(&mut pool, owner).unwrap();
    assert_eq!(
        refund,
        Transfer { source: Account::Escrow, destination: Account::Wallet(owner), amount: 0 }
    );
    assert_eq!(pool.escrow_balance, 0);
    assert_eq!(pool.withdrawn, 0);
    assert!(pool.is_well_formed());
}

#[test]
fn owner_takes_back_a_pool_without_winners() {
    let owner = party(9);
    let mut pool = funded_pool(750_000, vec![60, 40]);

    let refund = emergency_withdraw(&mut pool, owner).unwrap();
    assert_eq!(
        refund,
        Transfer { source: Account::Escrow, destination: Account::Wallet(owner), amount: 750_000 }
    );
    assert_eq!(pool.escrow_balance, 0);
    assert_eq!(pool.withdrawn, 750_000);
    assert!(pool.is_well_formed());

    let drained = pool.clone();
    assert_eq!(
        set_winners(&mut pool, owner, NOW + 101, vec![party(1), party(2)]),
        Err(EscrowError::PoolDrained)
    );
    assert_eq!(
        set_winners(&mut pool, owner, NOW + 50, vec![party(1), party(2)]),
        Err(EscrowError::PoolNotEnded)
    );
    assert_eq!(claim_prize(&mut pool, party(1)), Err(EscrowError::WinnersNotSet));
    assert_eq!(claim_prize(&mut pool, owner), Err(EscrowError::WinnersNotSet));
    assert_eq!(pool, drained);

    let again = emergency_withdraw(&mut pool, owner).unwrap();
    assert_eq!(again.amount, 0);
    assert_eq!(pool, drained);
}

#[test]
fn weights_that_sum_to_90_are_refused() {
    let outcome =
        create_pool(party(9), NOW, String::from("post-42"), 1_000_000, vec![50, 40], NOW + 100);
    assert_eq!(outcome, Err(EscrowError::InvalidDistribution));
}

#[test]
fn a_rank_is_paid_once() {
    let (a, b) = (party(1), party(2));
    let mut pool = funded_pool(1_000, vec![70, 30]);
    set_winners(&mut pool, party(9), NOW + 100, vec![a, b]).unwrap();

    assert_eq!(claim_prize(&mut pool, a).unwrap().amount, 700);
    assert_eq!(pool.escrow_balance, 300);
    let after_first = pool.clone();

    assert_eq!(claim_prize(&mut pool, a), Err(EscrowError::AlreadyClaimed));
    assert_eq!(claim_prize(&mut pool, a), Err(EscrowError::AlreadyClaimed));
    assert_eq!(pool, after_first);
    assert_eq!(pool.escrow_balance, 300);
}

#[test]
fn one_party_on_two_ranks_claims_each_in_turn() {
    let (a, b) = (party(1), party(2));
    let mut pool = funded_pool(1_000_000, vec![50, 30, 20]);
    set_winners(&mut pool, party(9), NOW + 100, vec![a, b, a]).unwrap();

    assert_eq!(claim_prize(&mut pool, a).unwrap().amount, 500_000);
    assert_eq!(pool.claimed, vec![true, false, false]);
    assert_eq!(claim_prize(&mut pool, a).unwrap().amount, 200_000);
    assert_eq!(pool.claimed, vec![true, false, true]);
    assert_eq!(claim_prize(&mut pool, a), Err(EscrowError::AlreadyClaimed));
    assert_eq!(pool.escrow_balance, 300_000);
    assert_eq!(claim_prize(&mut pool, b).unwrap().amount, 300_000);
    assert_eq!(pool.escrow_balance, 0);
}

#[test]
fn rounding_leaves_dust_for_the_owner() {
    let owner = party(9);
    let (a, b, c) = (party(1), party(2), party(3));
    let mut pool = funded_pool(1_001, vec![33, 33, 34]);
    set_winners(&mut pool, owner, NOW + 100, vec![a, b, c]).unwrap();

    assert_eq!(claim_prize(&mut pool, a).unwrap().amount, 330);
    assert_eq!(claim_prize(&mut pool, b).unwrap().amount, 330);
    assert_eq!(emergency_withdraw(&mut pool, owner), Err(EscrowError::EmergencyConditionNotMet));
    assert_eq!(claim_prize(&mut pool, c).unwrap().amount, 340);
    assert_eq!(pool.escrow_balance, 1);
    assert_eq!(pool.paid_out(), 1_000);

    let refund = emergency_withdraw(&mut pool, owner).unwrap();
    assert_eq!(refund.amount, 1);
    assert_eq!(pool.escrow_balance, 0);
    assert_eq!(pool.withdrawn, 1);
    assert_eq!(pool.paid_out() + pool.withdrawn, pool.total_amount);
    assert!(pool.is_well_formed());
}

#[test]
fn a_rank_with_weight_zero_is_paid_nothing() {
    let (a, b) = (party(1), party(2));
    let mut pool = funded_pool(500, vec![0, 100]);
    set_winners(&mut pool, party(9), NOW + 100, vec![a, b]).unwrap();
    assert_eq!(claim_prize(&mut pool, a).unwrap().amount, 0);
    assert_eq!(pool.claimed, vec![true, false]);
    assert_eq!(pool.escrow_balance, 500);
    assert_eq!(claim_prize(&mut pool, b).unwrap().amount, 500);
    assert_eq!(pool.escrow_balance, 0);
}

#[test]
fn a_transfer_that_went_through_keeps_the_change() {
    let a = party(1);
    let stored = {
        let mut pool = funded_pool(1_000, vec![100]);
        set_winners(&mut pool, party(9), NOW + 100, vec![a]).unwrap();
        pool
    };
    let mut staged = stored.clone();
    claim_prize(&mut staged, a).unwrap();
    let kept = settle(staged.clone(), true);
    assert_eq!(kept, Ok(staged));
    assert_ne!(kept, Ok(stored));
}

#[test]
fn a_transfer_that_failed_drops_the_change() {
    let a = party(1);
    let mut staged = funded_pool(1_000, vec![100]);
    set_winners(&mut staged, party(9), NOW + 100, vec![a]).unwrap();
    claim_prize(&mut staged, a).unwrap();
    assert_eq!(settle(staged, false), Err(EscrowError::TransferFailed));
}
