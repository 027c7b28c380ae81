use clawscrow::errors::ClawscrowError;
use clawscrow::identity::PartyId;
use clawscrow::record::{Escrow, EscrowState, Ruling, REVIEW_PERIOD_SECS};
use clawscrow::transitions::{
    accept_escrow, approve, arbitrate, auto_approve, create_escrow, deliver, raise_dispute,
};
use clawscrow::vault::{Party, Transfer, Vault};

fn buyer() -> PartyId {
    PartyId(11)
}

fn seller() -> PartyId {
    PartyId(22)
}

fn arbitrator() -> PartyId {
    PartyId(33)
}

/// Creates the standard job of the scenarios (id 1, payment 1000, both
/// collaterals 100) and funds the vault with the creation deposit.
fn funded_escrow() -> (Escrow, Vault) {
    let (escrow, transfers, _event) = create_escrow(
        1,
        b"paint the fence".to_vec(),
        1000,
        100,
        100,
        10_000,
        buyer(),
        arbitrator(),
        5,
        254,
        253,
    )
    .unwrap();
    let mut vault = Vault::new();
    assert!(vault.apply_all(&transfers));
    (escrow, vault)
}

/// Runs the shared prefix create -> accept -> deliver and keeps the vault
/// balance in step with every transfer.
fn delivered_escrow() -> (Escrow, Vault) {
    let (mut escrow, mut vault) = funded_escrow();
    let (transfers, _event) = accept_escrow(&mut escrow, 1, seller()).unwrap();
    assert!(vault.apply_all(&transfers));
    deliver(&mut escrow, [7u8; 32], seller(), 50).unwrap();
    (escrow, vault)
}

#[test]
fn create_fills_record_and_funds_vault() {
    let (escrow, transfers, event) = create_escrow(
        1,
        b"paint the fence".to_vec(),
        1000,
        100,
        100,
        10_000,
        buyer(),
        arbitrator(),
        5,
        254,
        253,
    )
    .unwrap();
    assert_eq!(escrow.escrow_id, 1);
    assert_eq!(escrow.buyer, buyer());
    assert_eq!(escrow.seller, PartyId(0));
    assert_eq!(escrow.arbitrator, arbitrator());
    assert_eq!(escrow.payment_amount, 1000);
    assert_eq!(escrow.buyer_collateral, 100);
    assert_eq!(escrow.seller_collateral, 100);
    assert_eq!(escrow.deadline_ts, 10_000);
    assert_eq!(escrow.state, EscrowState::Created);
    assert_eq!(escrow.delivery_hash, [0u8; 32]);
    assert_eq!(escrow.created_at, 5);
    assert_eq!(escrow.delivered_at, 0);
    assert_eq!(
        transfers,
        vec![Transfer::Deposit { from: Party::Buyer, amount: 1100 }]
    );
    assert_eq!(event.escrow_id, 1);
    assert_eq!(event.buyer, buyer());
    assert_eq!(event.payment_amount, 1000);
    // The vault holds payment plus buyer collateral immediately after
    // creation.
    let mut vault = Vault::new();
    assert!(vault.apply_all(&transfers));
    assert_eq!(vault.balance, 1100);
}

#[test]
fn accept_adds_seller_collateral_to_vault() {
    let (mut escrow, mut vault) = funded_escrow();
    let (transfers, event) = accept_escrow(&mut escrow, 1, seller()).unwrap();
    assert_eq!(escrow.state, EscrowState::Accepted);
    assert_eq!(escrow.seller, seller());
    assert_eq!(
        transfers,
        vec![Transfer::Deposit { from: Party::Seller, amount: 100 }]
    );
    assert_eq!(event.seller, seller());
    assert!(vault.apply_all(&transfers));
    assert_eq!(vault.balance, 1200);
}

#[test]
fn deliver_sets_fingerprint_and_time() {
    let (mut escrow, vault) = funded_escrow();
    accept_escrow(&mut escrow, 1, seller()).unwrap();
    let event = deliver(&mut escrow, [7u8; 32], seller(), 50).unwrap();
    assert_eq!(escrow.state, EscrowState::Delivered);
    assert_eq!(escrow.delivery_hash, [7u8; 32]);
    assert_eq!(escrow.delivered_at, 50);
    assert_eq!(event.escrow_id, 1);
    assert_eq!(event.delivery_hash, [7u8; 32]);
    // Delivery moves no funds.
    assert_eq!(vault.balance, 1100);
}

#[test]
fn happy_path_buyer_approves() {
    // Scenario: create -> accept -> deliver -> approve by the buyer. The
    // seller receives payment plus the seller stake, the buyer gets the
    // buyer stake back, the vault drains to zero.
    let (mut escrow, mut vault) = delivered_escrow();
    let (transfers, event) = approve(&mut escrow, 1, buyer()).unwrap();
    assert_eq!(escrow.state, EscrowState::Approved);
    assert_eq!(
        transfers,
        vec![
            Transfer::Payout { to: Party::Seller, amount: 1100 },
            Transfer::Payout { to: Party::Buyer, amount: 100 },
        ]
    );
    assert_eq!(event.escrow_id, 1);
    assert!(vault.apply_all(&transfers));
    assert_eq!(vault.balance, 0);
}

#[test]
fn dispute_buyer_wins_fee_from_buyer_stake() {
    // Scenario: deliver -> dispute -> arbitrate for the buyer. The pool is
    // 1000 + 100 + 100 = 1200; the fee is one percent of the buyer's
    // stake, truncating: 100 / 100 = 1. The buyer receives 1199, the
    // arbitrator 1, and the vault drains to zero.
    let (mut escrow, mut vault) = delivered_escrow();
    raise_dispute(&mut escrow, buyer()).unwrap();
    assert_eq!(escrow.state, EscrowState::Disputed);
    let (transfers, event) = arbitrate(&mut escrow, 1, arbitrator(), Ruling::BuyerWins).unwrap();
    assert_eq!(escrow.state, EscrowState::ResolvedBuyer);
    assert_eq!(
        transfers,
        vec![
            Transfer::Payout { to: Party::Buyer, amount: 1199 },
            Transfer::Payout { to: Party::Arbitrator, amount: 1 },
        ]
    );
    assert_eq!(event.ruling, Ruling::BuyerWins);
    assert!(vault.apply_all(&transfers));
    assert_eq!(vault.balance, 0);
}

#[test]
fn dispute_seller_wins_drains_vault() {
    let (mut escrow, mut vault) = delivered_escrow();
    raise_dispute(&mut escrow, buyer()).unwrap();
    let (transfers, _event) = arbitrate(&mut escrow, 1, arbitrator(), Ruling::SellerWins).unwrap();
    assert_eq!(escrow.state, EscrowState::ResolvedSeller);
    assert_eq!(
        transfers,
        vec![
            Transfer::Payout { to: Party::Seller, amount: 1199 },
            Transfer::Payout { to: Party::Arbitrator, amount: 1 },
        ]
    );
    assert!(vault.apply_all(&transfers));
    assert_eq!(vault.balance, 0);
}

#[test]
fn accept_twice_second_caller_loses() {
    // Scenario: a second seller races the first and must fail closed with
    // InvalidState, leaving the record and the vault untouched.
    let (mut escrow, mut vault) = funded_escrow();
    let (transfers, _event) = accept_escrow(&mut escrow, 1, seller()).unwrap();
    assert!(vault.apply_all(&transfers));
    let before = escrow.clone();
    let balance_before = vault.balance;
    let second = accept_escrow(&mut escrow, 1, PartyId(44));
    assert_eq!(second.unwrap_err(), ClawscrowError::InvalidState);
    assert_eq!(escrow, before);
    assert_eq!(escrow.seller, seller());
    assert_eq!(vault.balance, balance_before);
}

#[test]
fn auto_approve_after_review_period() {
    // Any caller may settle once the review period has fully elapsed; the
    // split is the same as the buyer's approval.
    let (mut escrow, mut vault) = delivered_escrow();
    let now = escrow.delivered_at + REVIEW_PERIOD_SECS;
    let (transfers, event) = auto_approve(&mut escrow, 1, now).unwrap();
    assert_eq!(escrow.state, EscrowState::Approved);
    assert_eq!(
        transfers,
        vec![
            Transfer::Payout { to: Party::Seller, amount: 1100 },
            Transfer::Payout { to: Party::Buyer, amount: 100 },
        ]
    );
    assert_eq!(event.escrow_id, 1);
    assert!(vault.apply_all(&transfers));
    assert_eq!(vault.balance, 0);
}

#[test]
fn zero_collateral_escrow_settles_cleanly() {
    // Collateral may be zero: the pool is the payment alone and approval
    // still drains the vault exactly.
    let (mut escrow, transfers, _event) =
        create_escrow(9, Vec::new(), 500, 0, 0, 100, buyer(), arbitrator(), 1, 1, 1).unwrap();
    let mut vault = Vault::new();
    assert!(vault.apply_all(&transfers));
    assert_eq!(vault.balance, 500);
    let (transfers, _event) = accept_escrow(&mut escrow, 9, seller()).unwrap();
    assert!(vault.apply_all(&transfers));
    assert_eq!(vault.balance, 500);
    deliver(&mut escrow, [1u8; 32], seller(), 2).unwrap();
    let (transfers, _event) = approve(&mut escrow, 9, buyer()).unwrap();
    assert_eq!(
        transfers,
        vec![
            Transfer::Payout { to: Party::Seller, amount: 500 },
            Transfer::Payout { to: Party::Buyer, amount: 0 },
        ]
    );
    assert!(vault.apply_all(&transfers));
    assert_eq!(vault.balance, 0);
}

#[test]
fn small_buyer_stake_means_no_fee() {
    // One percent of a stake under 100 truncates to zero: the winner
    // receives the whole pool and the arbitrator nothing.
    let (mut escrow, transfers, _event) =
        create_escrow(3, Vec::new(), 1000, 50, 60, 100, buyer(), arbitrator(), 1, 1, 1).unwrap();
    let mut vault = Vault::new();
    assert!(vault.apply_all(&transfers));
    let (transfers, _event) = accept_escrow(&mut escrow, 3, seller()).unwrap();
    assert!(vault.apply_all(&transfers));
    deliver(&mut escrow, [1u8; 32], seller(), 2).unwrap();
    raise_dispute(&mut escrow, buyer()).unwrap();
    let (transfers, _event) = arbitrate(&mut escrow, 3, arbitrator(), Ruling::SellerWins).unwrap();
    assert_eq!(
        transfers,
        vec![
            Transfer::Payout { to: Party::Seller, amount: 1110 },
            Transfer::Payout { to: Party::Arbitrator, amount: 0 },
        ]
    );
    assert!(vault.apply_all(&transfers));
    assert_eq!(vault.balance, 0);
}
