use vstd::prelude::*;

use crate::errors::ClawscrowError;
use crate::events::{
    DisputeResolved, EscrowAccepted, EscrowApproved, EscrowCreated, EscrowDisputed, WorkDelivered,
};
use crate::identity::PartyId;
use crate::record::{Escrow, EscrowState, EscrowView, Ruling, MAX_DESCRIPTION_LEN,
    REVIEW_PERIOD_SECS};
use crate::vault::{Party, Transfer};

verus! {

// --- create ---

/// When creation succeeds: a positive payment, a bounded description, a
/// deadline strictly in the future, and a funding total that fits.
pub open spec fn create_ok(
    payment_amount: u64,
    description: Seq<u8>,
    deadline_ts: i64,
    now: i64,
    buyer_collateral: u64,
) -> bool {
    &&& payment_amount > 0
    &&& description.len() <= MAX_DESCRIPTION_LEN
    &&& deadline_ts > now
    &&& payment_amount + buyer_collateral <= u64::MAX
}

/// Which rejection a failed creation reports: the checks run in order, and
/// the first that fails decides.
pub open spec fn create_error(
    payment_amount: u64,
    description: Seq<u8>,
    deadline_ts: i64,
    now: i64,
) -> ClawscrowError {
    if payment_amount == 0 {
        ClawscrowError::InvalidAmount
    } else if description.len() > MAX_DESCRIPTION_LEN {
        ClawscrowError::DescriptionTooLong
    } else if deadline_ts <= now {
        ClawscrowError::InvalidDeadline
    } else {
        ClawscrowError::Overflow
    }
}

/// The record a successful creation stores: seller unset, state `Created`,
/// fingerprint cleared, timestamps from the host's clock.
pub open spec fn created_view(
    escrow_id: u64,
    buyer: PartyId,
    arbitrator: PartyId,
    description: Seq<u8>,
    payment_amount: u64,
    buyer_collateral: u64,
    seller_collateral: u64,
    deadline_ts: i64,
    now: i64,
    bump: u8,
    vault_bump: u8,
) -> EscrowView {
    EscrowView {
        escrow_id,
        buyer,
        seller: PartyId(0),
        arbitrator,
        payment_amount,
        buyer_collateral,
        seller_collateral,
        deadline_ts,
        description,
        state: EscrowState::Created,
        delivery_hash: Seq::new(32, |i: int| 0u8),
        created_at: now,
        delivered_at: 0,
        bump,
        vault_bump,
    }
}

/// The one funding movement creation directs: the buyer pays the payment
/// plus the buyer's stake into the vault.
pub open spec fn funding_deposit(payment_amount: u64, buyer_collateral: u64) -> Seq<Transfer> {
    seq![
        Transfer::Deposit { from: Party::Buyer, amount: (payment_amount + buyer_collateral) as u64 },
    ]
}

/// Opens a new escrow: validates the job's terms, builds the record and
/// directs the buyer's funding deposit into the fresh vault.
///
/// `buyer` is the caller, as verified by the host's identity source; `now`
/// comes from its clock; `bump` and `vault_bump` are the host's storage
/// locator bytes for the record and its vault.
pub fn create_escrow(
    escrow_id: u64,
    description: Vec<u8>,
    payment_amount: u64,
    buyer_collateral: u64,
    seller_collateral: u64,
    deadline_ts: i64,
    buyer: PartyId,
    arbitrator: PartyId,
    now: i64,
    bump: u8,
    vault_bump: u8,
) -> (r: Result<(Escrow, Vec<Transfer>, EscrowCreated), ClawscrowError>)
    ensures
        r is Ok <==> create_ok(payment_amount, description@, deadline_ts, now, buyer_collateral),
        (r matches Ok((e, ts, ev)) ==> e@ == created_view(
            escrow_id,
            buyer,
            arbitrator,
            description@,
            payment_amount,
            buyer_collateral,
            seller_collateral,
            deadline_ts,
            now,
            bump,
            vault_bump,
        ) && ts@ == funding_deposit(payment_amount, buyer_collateral) && ev == (EscrowCreated {
            escrow_id,
            buyer,
            payment_amount,
            buyer_collateral,
            seller_collateral,
        })),
        (r matches Err(e) ==> e == create_error(payment_amount, description@, deadline_ts, now)),
{
    if payment_amount == 0 {
        return Err(ClawscrowError::InvalidAmount);
    }
    if description.len() > MAX_DESCRIPTION_LEN {
        return Err(ClawscrowError::DescriptionTooLong);
    }
    if deadline_ts <= now {
        return Err(ClawscrowError::InvalidDeadline);
    }
    if payment_amount > u64::MAX - buyer_collateral {
        return Err(ClawscrowError::Overflow);
    }
    let total = payment_amount + buyer_collateral;
    let escrow = Escrow {
        escrow_id,
        buyer,
        seller: PartyId(0),
        arbitrator,
        payment_amount,
        buyer_collateral,
        seller_collateral,
        deadline_ts,
        description,
        state: EscrowState::Created,
        delivery_hash: [0u8; 32],
        created_at: now,
        delivered_at: 0,
        bump,
        vault_bump,
    };
    let mut transfers: Vec<Transfer> = Vec::new();
    transfers.push(Transfer::Deposit { from: Party::Buyer, amount: total });
    let event = EscrowCreated { escrow_id, buyer, payment_amount, buyer_collateral,
        seller_collateral };
    proof {
        assert(escrow@.delivery_hash =~= Seq::new(32, |i: int| 0u8));
        assert(escrow@ =~= created_view(escrow_id, buyer, arbitrator, escrow@.description,
            payment_amount, buyer_collateral, seller_collateral, deadline_ts, now, bump,
            vault_bump));
        assert(transfers@ =~= funding_deposit(payment_amount, buyer_collateral));
    }
    Ok((escrow, transfers, event))
}

// --- accept ---

/// When acceptance succeeds: the record is still open and the call names it.
pub open spec fn accept_ok(pre: EscrowView, escrow_id: u64) -> bool {
    pre.state is Created && pre.escrow_id == escrow_id
}

/// The record after acceptance: the caller becomes the seller.
pub open spec fn accept_post(pre: EscrowView, caller: PartyId) -> EscrowView {
    EscrowView { seller: caller, state: EscrowState::Accepted, ..pre }
}

/// The one funding movement acceptance directs: the seller stakes the
/// collateral into the vault.
pub open spec fn collateral_deposit(seller_collateral: u64) -> Seq<Transfer> {
    seq![Transfer::Deposit { from: Party::Seller, amount: seller_collateral }]
}

/// Accepts an open job: the caller becomes the seller and must stake the
/// seller collateral into the vault. Exactly one acceptance can win; any
/// later call finds the record no longer open and fails closed.
pub fn accept_escrow(escrow: &mut Escrow, escrow_id: u64, caller: PartyId) -> (r: Result<
    (Vec<Transfer>, EscrowAccepted),
    ClawscrowError,
>)
    ensures
        r is Ok <==> accept_ok(old(escrow)@, escrow_id),
        (r matches Ok((ts, ev)) ==> final(escrow)@ == accept_post(old(escrow)@, caller)
            && ts@ == collateral_deposit(old(escrow).seller_collateral)
            && ev == (EscrowAccepted { escrow_id: old(escrow).escrow_id, seller: caller })),
        r is Err ==> *final(escrow) == *old(escrow),
        (r matches Err(e) ==> e == ClawscrowError::InvalidState),
{
    if escrow.state != EscrowState::Created {
        return Err(ClawscrowError::InvalidState);
    }
    if escrow.escrow_id != escrow_id {
        return Err(ClawscrowError::InvalidState);
    }
    let collateral = escrow.seller_collateral;
    let eid = escrow.escrow_id;
    escrow.seller = caller;
    escrow.state = EscrowState::Accepted;
    let mut transfers: Vec<Transfer> = Vec::new();
    transfers.push(Transfer::Deposit { from: Party::Seller, amount: collateral });
    proof {
        assert(transfers@ =~= collateral_deposit(collateral));
        assert(escrow@ =~= accept_post(old(escrow)@, caller));
    }
    Ok((transfers, EscrowAccepted { escrow_id: eid, seller: caller }))
}

// --- deliver ---

/// When delivery succeeds: the job is accepted and the caller is its seller.
pub open spec fn deliver_ok(pre: EscrowView, caller: PartyId) -> bool {
    pre.state is Accepted && caller == pre.seller
}

/// Which rejection a failed delivery reports: state before authorization.
pub open spec fn deliver_error(pre: EscrowView, caller: PartyId) -> ClawscrowError {
    if !(pre.state is Accepted) {
        ClawscrowError::InvalidState
    } else {
        ClawscrowError::Unauthorized
    }
}

/// The record after delivery: the work's fingerprint and the delivery time
/// are set, exactly once.
pub open spec fn deliver_post(pre: EscrowView, delivery_hash: Seq<u8>, now: i64) -> EscrowView {
    EscrowView {
        delivery_hash,
        state: EscrowState::Delivered,
        delivered_at: now,
        ..pre
    }
}

/// Attests delivery of the work: the stored seller binds the delivered
/// content's fingerprint to the record and starts the review period. Moves
/// no funds.
pub fn deliver(escrow: &mut Escrow, delivery_hash: [u8; 32], caller: PartyId, now: i64) -> (r:
    Result<WorkDelivered, ClawscrowError>)
    ensures
        r is Ok <==> deliver_ok(old(escrow)@, caller),
        (r matches Ok(ev) ==> final(escrow)@ == deliver_post(old(escrow)@, delivery_hash@, now)
            && ev == (WorkDelivered { escrow_id: old(escrow).escrow_id, delivery_hash })),
        r is Err ==> *final(escrow) == *old(escrow),
        (r matches Err(e) ==> e == deliver_error(old(escrow)@, caller)),
{
    if escrow.state != EscrowState::Accepted {
        return Err(ClawscrowError::InvalidState);
    }
    if caller != escrow.seller {
        return Err(ClawscrowError::Unauthorized);
    }
    escrow.delivery_hash = delivery_hash;
    escrow.state = EscrowState::Delivered;
    escrow.delivered_at = now;
    proof {
        assert(escrow@ =~= deliver_post(old(escrow)@, delivery_hash@, now));
    }
    Ok(WorkDelivered { escrow_id: escrow.escrow_id, delivery_hash })
}

// --- approve and auto-approve ---

/// The settlement both approval paths owe the parties: the vault pays the
/// seller the payment plus the seller's stake and returns the buyer's
/// stake. Together the two payouts drain the whole pool.
pub open spec fn approval_payouts(
    payment_amount: u64,
    seller_collateral: u64,
    buyer_collateral: u64,
) -> Seq<Transfer> {
    seq![
        Transfer::Payout {
            to: Party::Seller,
            amount: (payment_amount + seller_collateral) as u64,
        },
        Transfer::Payout { to: Party::Buyer, amount: buyer_collateral },
    ]
}

/// When approval by the buyer succeeds.
pub open spec fn approve_ok(pre: EscrowView, escrow_id: u64, caller: PartyId) -> bool {
    &&& pre.state is Delivered
    &&& caller == pre.buyer
    &&& pre.escrow_id == escrow_id
    &&& pre.payment_amount + pre.seller_collateral <= u64::MAX
}

/// Which rejection a failed approval reports, in the order the checks run.
pub open spec fn approve_error(pre: EscrowView, escrow_id: u64, caller: PartyId) -> ClawscrowError {
    if !(pre.state is Delivered) {
        ClawscrowError::InvalidState
    } else if caller != pre.buyer {
        ClawscrowError::Unauthorized
    } else if pre.escrow_id != escrow_id {
        ClawscrowError::InvalidState
    } else {
        ClawscrowError::Overflow
    }
}

/// The record after either approval path.
pub open spec fn approve_post(pre: EscrowView) -> EscrowView {
    EscrowView { state: EscrowState::Approved, ..pre }
}

/// The settlement routine both approval paths share.
fn approval_settlement(payment_amount: u64, seller_collateral: u64, buyer_collateral: u64) -> (r:
    Result<Vec<Transfer>, ClawscrowError>)
    ensures
        r is Ok <==> payment_amount + seller_collateral <= u64::MAX,
        (r matches Ok(ts) ==> ts@ == approval_payouts(payment_amount, seller_collateral,
            buyer_collateral)),
        (r matches Err(e) ==> e == ClawscrowError::Overflow),
{
    if payment_amount > u64::MAX - seller_collateral {
        return Err(ClawscrowError::Overflow);
    }
    let seller_total = payment_amount + seller_collateral;
    let mut transfers: Vec<Transfer> = Vec::new();
    transfers.push(Transfer::Payout { to: Party::Seller, amount: seller_total });
    transfers.push(Transfer::Payout { to: Party::Buyer, amount: buyer_collateral });
    proof {
        assert(transfers@ =~= approval_payouts(payment_amount, seller_collateral,
            buyer_collateral));
    }
    Ok(transfers)
}

/// Releases a delivered job in the seller's favour, on the stored buyer's
/// say-so: the vault pays the seller the payment plus the seller's stake,
/// returns the buyer's stake, and the record closes as `Approved`.
pub fn approve(escrow: &mut Escrow, escrow_id: u64, caller: PartyId) -> (r: Result<
    (Vec<Transfer>, EscrowApproved),
    ClawscrowError,
>)
    ensures
        r is Ok <==> approve_ok(old(escrow)@, escrow_id, caller),
        (r matches Ok((ts, ev)) ==> final(escrow)@ == approve_post(old(escrow)@)
            && ts@ == approval_payouts(old(escrow).payment_amount, old(escrow).seller_collateral,
            old(escrow).buyer_collateral) && ev == (EscrowApproved { escrow_id })),
        r is Err ==> *final(escrow) == *old(escrow),
        (r matches Err(e) ==> e == approve_error(old(escrow)@, escrow_id, caller)),
{
    if escrow.state != EscrowState::Delivered {
        return Err(ClawscrowError::InvalidState);
    }
    if caller != escrow.buyer {
        return Err(ClawscrowError::Unauthorized);
    }
    if escrow.escrow_id != escrow_id {
        return Err(ClawscrowError::InvalidState);
    }
    let transfers = match approval_settlement(escrow.payment_amount, escrow.seller_collateral,
        escrow.buyer_collateral) {
        Ok(ts) => ts,
        Err(e) => {
            return Err(e);
        },
    };
    escrow.state = EscrowState::Approved;
    proof {
        assert(escrow@ =~= approve_post(old(escrow)@));
    }
    Ok((transfers, EscrowApproved { escrow_id }))
}

/// When auto-approval succeeds: the review period has fully elapsed.
pub open spec fn auto_approve_ok(pre: EscrowView, escrow_id: u64, now: i64) -> bool {
    &&& pre.state is Delivered
    &&& pre.escrow_id == escrow_id
    &&& now >= pre.delivered_at + REVIEW_PERIOD_SECS
    &&& pre.payment_amount + pre.seller_collateral <= u64::MAX
}

/// Which rejection a failed auto-approval reports, in the order the checks
/// run.
pub open spec fn auto_approve_error(pre: EscrowView, escrow_id: u64, now: i64) -> ClawscrowError {
    if !(pre.state is Delivered) || pre.escrow_id != escrow_id {
        ClawscrowError::InvalidState
    } else if now < pre.delivered_at + REVIEW_PERIOD_SECS {
        ClawscrowError::ReviewPeriodActive
    } else {
        ClawscrowError::Overflow
    }
}

/// Releases a delivered job in the seller's favour once the buyer's review
/// period has fully elapsed. Any caller may trigger it; the split is the
/// same as [`approve`]'s, so a silent buyer cannot strand the funds.
pub fn auto_approve(escrow: &mut Escrow, escrow_id: u64, now: i64) -> (r: Result<
    (Vec<Transfer>, EscrowApproved),
    ClawscrowError,
>)
    ensures
        r is Ok <==> auto_approve_ok(old(escrow)@, escrow_id, now),
        (r matches Ok((ts, ev)) ==> final(escrow)@ == approve_post(old(escrow)@)
            && ts@ == approval_payouts(old(escrow).payment_amount, old(escrow).seller_collateral,
            old(escrow).buyer_collateral) && ev == (EscrowApproved { escrow_id })),
        r is Err ==> *final(escrow) == *old(escrow),
        (r matches Err(e) ==> e == auto_approve_error(old(escrow)@, escrow_id, now)),
{
    if escrow.state != EscrowState::Delivered {
        return Err(ClawscrowError::InvalidState);
    }
    if escrow.escrow_id != escrow_id {
        return Err(ClawscrowError::InvalidState);
    }
    if (now as i128) < (escrow.delivered_at as i128) + (REVIEW_PERIOD_SECS as i128) {
        return Err(ClawscrowError::ReviewPeriodActive);
    }
    let transfers = match approval_settlement(escrow.payment_amount, escrow.seller_collateral,
        escrow.buyer_collateral) {
        Ok(ts) => ts,
        Err(e) => {
            return Err(e);
        },
    };
    escrow.state = EscrowState::Approved;
    proof {
        assert(escrow@ =~= approve_post(old(escrow)@));
    }
    Ok((transfers, EscrowApproved { escrow_id }))
}

// --- dispute ---

/// When a dispute succeeds: the job is delivered and the caller is its
/// buyer.
pub open spec fn dispute_ok(pre: EscrowView, caller: PartyId) -> bool {
    pre.state is Delivered && caller == pre.buyer
}

/// Which rejection a failed dispute reports: state before authorization.
pub open spec fn dispute_error(pre: EscrowView, caller: PartyId) -> ClawscrowError {
    if !(pre.state is Delivered) {
        ClawscrowError::InvalidState
    } else {
        ClawscrowError::Unauthorized
    }
}

/// The record after a dispute is raised.
pub open spec fn dispute_post(pre: EscrowView) -> EscrowView {
    EscrowView { state: EscrowState::Disputed, ..pre }
}

/// Contests a delivery: the stored buyer routes the decision to the
/// arbitrator. Moves no funds; the pool stays in the vault until the
/// arbitrator rules.
pub fn raise_dispute(escrow: &mut Escrow, caller: PartyId) -> (r: Result<
    EscrowDisputed,
    ClawscrowError,
>)
    ensures
        r is Ok <==> dispute_ok(old(escrow)@, caller),
        (r matches Ok(ev) ==> final(escrow)@ == dispute_post(old(escrow)@)
            && ev == (EscrowDisputed { escrow_id: old(escrow).escrow_id })),
        r is Err ==> *final(escrow) == *old(escrow),
        (r matches Err(e) ==> e == dispute_error(old(escrow)@, caller)),
{
    if escrow.state != EscrowState::Delivered {
        return Err(ClawscrowError::InvalidState);
    }
    if caller != escrow.buyer {
        return Err(ClawscrowError::Unauthorized);
    }
    escrow.state = EscrowState::Disputed;
    proof {
        assert(escrow@ =~= dispute_post(old(escrow)@));
    }
    Ok(EscrowDisputed { escrow_id: escrow.escrow_id })
}

// --- arbitrate ---

/// The party the ruling awards the pool to.
pub open spec fn winning_party(ruling: Ruling) -> Party {
    match ruling {
        Ruling::BuyerWins => Party::Buyer,
        Ruling::SellerWins => Party::Seller,
    }
}

/// The terminal state the ruling closes the record in.
pub open spec fn resolved_state(ruling: Ruling) -> EscrowState {
    match ruling {
        Ruling::BuyerWins => EscrowState::ResolvedBuyer,
        Ruling::SellerWins => EscrowState::ResolvedSeller,
    }
}

/// The arbitrator's fee: one percent of the buyer's stake, truncating.
/// It comes out of the pool the winner would otherwise receive whole.
pub open spec fn arbitration_fee(buyer_collateral: u64) -> u64 {
    buyer_collateral / 100
}

/// The settlement a ruling owes the parties: the whole pool less the fee to
/// the winner, the fee to the arbitrator. Together the two payouts drain
/// the pool.
pub open spec fn arbitration_payouts(
    payment_amount: u64,
    buyer_collateral: u64,
    seller_collateral: u64,
    ruling: Ruling,
) -> Seq<Transfer> {
    seq![
        Transfer::Payout {
            to: winning_party(ruling),
            amount: ((payment_amount + buyer_collateral + seller_collateral)
                - arbitration_fee(buyer_collateral)) as u64,
        },
        Transfer::Payout { to: Party::Arbitrator, amount: arbitration_fee(buyer_collateral) },
    ]
}

/// When arbitration succeeds.
pub open spec fn arbitrate_ok(pre: EscrowView, escrow_id: u64, caller: PartyId) -> bool {
    &&& pre.state is Disputed
    &&& caller == pre.arbitrator
    &&& pre.escrow_id == escrow_id
    &&& pre.pool() <= u64::MAX
}

/// Which rejection a failed arbitration reports, in the order the checks
/// run.
pub open spec fn arbitrate_error(pre: EscrowView, escrow_id: u64, caller: PartyId)
    -> ClawscrowError {
    if !(pre.state is Disputed) {
        ClawscrowError::InvalidState
    } else if caller != pre.arbitrator {
        ClawscrowError::Unauthorized
    } else if pre.escrow_id != escrow_id {
        ClawscrowError::InvalidState
    } else {
        ClawscrowError::Overflow
    }
}

/// The record after arbitration.
pub open spec fn arbitrate_post(pre: EscrowView, ruling: Ruling) -> EscrowView {
    EscrowView { state: resolved_state(ruling), ..pre }
}

/// Resolves a disputed job: the stored arbitrator rules for one side, the
/// vault pays that side the whole pool less the fee, pays the arbitrator
/// the fee, and the record closes in the ruling's terminal state.
pub fn arbitrate(escrow: &mut Escrow, escrow_id: u64, caller: PartyId, ruling: Ruling) -> (r:
    Result<(Vec<Transfer>, DisputeResolved), ClawscrowError>)
    ensures
        r is Ok <==> arbitrate_ok(old(escrow)@, escrow_id, caller),
        (r matches Ok((ts, ev)) ==> final(escrow)@ == arbitrate_post(old(escrow)@, ruling)
            && ts@ == arbitration_payouts(old(escrow).payment_amount,
            old(escrow).buyer_collateral, old(escrow).seller_collateral, ruling)
            && ev == (DisputeResolved { escrow_id, ruling })),
        r is Err ==> *final(escrow) == *old(escrow),
        (r matches Err(e) ==> e == arbitrate_error(old(escrow)@, escrow_id, caller)),
{
    if escrow.state != EscrowState::Disputed {
        return Err(ClawscrowError::InvalidState);
    }
    if caller != escrow.arbitrator {
        return Err(ClawscrowError::Unauthorized);
    }
    if escrow.escrow_id != escrow_id {
        return Err(ClawscrowError::InvalidState);
    }
    let payment = escrow.payment_amount;
    let buyer_col = escrow.buyer_collateral;
    let seller_col = escrow.seller_collateral;
    if payment > u64::MAX - buyer_col {
        return Err(ClawscrowError::Overflow);
    }
    let partial = payment + buyer_col;
    if partial > u64::MAX - seller_col {
        return Err(ClawscrowError::Overflow);
    }
    let total_pool = partial + seller_col;
    let arb_fee = buyer_col / 100;
    proof {
        assert(buyer_col / 100 <= buyer_col) by (nonlinear_arith);
    }
    let winner_amount = total_pool - arb_fee;
    let winner = match ruling {
        Ruling::BuyerWins => Party::Buyer,
        Ruling::SellerWins => Party::Seller,
    };
    let mut transfers: Vec<Transfer> = Vec::new();
    transfers.push(Transfer::Payout { to: winner, amount: winner_amount });
    transfers.push(Transfer::Payout { to: Party::Arbitrator, amount: arb_fee });
    escrow.state = match ruling {
        Ruling::BuyerWins => EscrowState::ResolvedBuyer,
        Ruling::SellerWins => EscrowState::ResolvedSeller,
    };
    proof {
        assert(transfers@ =~= arbitration_payouts(payment, buyer_col, seller_col, ruling));
        assert(escrow@ =~= arbitrate_post(old(escrow)@, ruling));
    }
    Ok((transfers, DisputeResolved { escrow_id, ruling }))
}

} // verus!
