use vstd::prelude::*;

use crate::errors::ClawscrowError;
use crate::identity::PartyId;
use crate::record::{EscrowView, Ruling, REVIEW_PERIOD_SECS};
use crate::transitions::{
    accept_ok, accept_post, approval_payouts, approve_ok, approve_post, arbitrate_ok,
    arbitrate_post, arbitration_fee, arbitration_payouts, auto_approve_error, auto_approve_ok,
    collateral_deposit, create_ok, created_view, deliver_ok, deliver_post, dispute_ok,
    dispute_post, funding_deposit,
};
use crate::vault::{expected_vault_balance, transfer_delta, vault_after, Transfer};

verus! {

/// Applying a single transfer moves the balance by exactly its delta.
proof fn lemma_vault_after_one(balance: int, ts: Seq<Transfer>)
    requires
        ts.len() == 1,
    ensures
        vault_after(balance, ts) == balance + transfer_delta(ts[0]),
{
    assert(vault_after(balance + transfer_delta(ts[0]), ts.drop_first()) == balance
        + transfer_delta(ts[0]));
}

/// Applying two transfers moves the balance by the sum of their deltas.
proof fn lemma_vault_after_two(balance: int, ts: Seq<Transfer>)
    requires
        ts.len() == 2,
    ensures
        vault_after(balance, ts) == balance + transfer_delta(ts[0]) + transfer_delta(ts[1]),
{
    let sub = ts.drop_first();
    assert(sub[0] == ts[1]);
    lemma_vault_after_one(balance + transfer_delta(ts[0]), sub);
}

/// A valid creation leaves a well-formed record, and the buyer's funding
/// deposit brings the fresh vault to exactly the payment plus the buyer's
/// stake — the balance the record's state owes from then on.
pub proof fn law_create_establishes_invariants(
    escrow_id: u64,
    buyer: PartyId,
    arbitrator: PartyId,
    description: Seq<u8>,
    payment_amount: u64,
    buyer_collateral: u64,
    seller_collateral: u64,
    deadline_ts: i64,
    now: i64,
    bump: u8,
    vault_bump: u8,
)
    requires
        create_ok(payment_amount, description, deadline_ts, now, buyer_collateral),
    ensures
        created_view(escrow_id, buyer, arbitrator, description, payment_amount, buyer_collateral,
            seller_collateral, deadline_ts, now, bump, vault_bump).wf(),
        vault_after(0, funding_deposit(payment_amount, buyer_collateral))
            == expected_vault_balance(created_view(escrow_id, buyer, arbitrator, description,
            payment_amount, buyer_collateral, seller_collateral, deadline_ts, now, bump,
            vault_bump)),
{
    lemma_vault_after_one(0, funding_deposit(payment_amount, buyer_collateral));
}

/// Acceptance by a real caller keeps the record well-formed, and the
/// seller's collateral deposit raises the vault from the funded balance to
/// the whole pool — the balance an accepted record owes.
pub proof fn law_accept_preserves_invariants(pre: EscrowView, escrow_id: u64, caller: PartyId)
    requires
        pre.wf(),
        accept_ok(pre, escrow_id),
        caller.is_set(),
    ensures
        accept_post(pre, caller).wf(),
        vault_after(expected_vault_balance(pre), collateral_deposit(pre.seller_collateral))
            == expected_vault_balance(accept_post(pre, caller)),
{
    lemma_vault_after_one(expected_vault_balance(pre),
        collateral_deposit(pre.seller_collateral));
}

/// Delivery under a monotone clock keeps the record well-formed and moves
/// no funds: a delivered record still owes the whole pool.
pub proof fn law_deliver_preserves_invariants(
    pre: EscrowView,
    caller: PartyId,
    delivery_hash: Seq<u8>,
    now: i64,
)
    requires
        pre.wf(),
        deliver_ok(pre, caller),
        delivery_hash.len() == 32,
        now >= pre.created_at,
    ensures
        deliver_post(pre, delivery_hash, now).wf(),
        expected_vault_balance(deliver_post(pre, delivery_hash, now))
            == expected_vault_balance(pre),
{
}

/// Raising a dispute keeps the record well-formed and moves no funds: a
/// disputed record still owes the whole pool.
pub proof fn law_dispute_preserves_invariants(pre: EscrowView, caller: PartyId)
    requires
        pre.wf(),
        dispute_ok(pre, caller),
    ensures
        dispute_post(pre).wf(),
        expected_vault_balance(dispute_post(pre)) == expected_vault_balance(pre),
{
}

/// Either approval path settles completely: its two payouts hand out
/// exactly the pool the vault holds for a delivered record, draining it to
/// zero — the balance every terminal record owes. No funds are stranded
/// and none are paid twice.
pub proof fn law_approval_drains_vault(pre: EscrowView)
    requires
        pre.wf(),
        pre.state is Delivered,
        pre.payment_amount + pre.seller_collateral <= u64::MAX,
    ensures
        approve_post(pre).wf(),
        vault_after(expected_vault_balance(pre), approval_payouts(pre.payment_amount,
            pre.seller_collateral, pre.buyer_collateral)) == 0,
        expected_vault_balance(approve_post(pre)) == 0,
{
    lemma_vault_after_two(expected_vault_balance(pre), approval_payouts(pre.payment_amount,
        pre.seller_collateral, pre.buyer_collateral));
}

/// Arbitration settles completely whichever side wins: the winner's payout
/// and the arbitrator's fee add up to exactly the pool, draining the vault
/// to zero. The fee never exceeds the buyer's stake, so the subtraction
/// can never wrap.
pub proof fn law_arbitration_drains_vault(pre: EscrowView, ruling: Ruling)
    requires
        pre.wf(),
        pre.state is Disputed,
        pre.pool() <= u64::MAX,
    ensures
        arbitrate_post(pre, ruling).wf(),
        arbitration_fee(pre.buyer_collateral) <= pre.buyer_collateral,
        vault_after(expected_vault_balance(pre), arbitration_payouts(pre.payment_amount,
            pre.buyer_collateral, pre.seller_collateral, ruling)) == 0,
        expected_vault_balance(arbitrate_post(pre, ruling)) == 0,
{
    assert(pre.buyer_collateral / 100 <= pre.buyer_collateral) by (nonlinear_arith);
    lemma_vault_after_two(expected_vault_balance(pre), arbitration_payouts(pre.payment_amount,
        pre.buyer_collateral, pre.seller_collateral, ruling));
}

/// A settled record is final: no operation's success condition holds of a
/// record in a terminal state, so every later call fails closed and — by
/// the transitions' own contracts — leaves record and vault untouched.
pub proof fn law_terminal_records_admit_no_transition(
    v: EscrowView,
    escrow_id: u64,
    caller: PartyId,
    now: i64,
)
    requires
        v.is_terminal(),
    ensures
        !accept_ok(v, escrow_id),
        !deliver_ok(v, caller),
        !approve_ok(v, escrow_id, caller),
        !auto_approve_ok(v, escrow_id, now),
        !dispute_ok(v, caller),
        !arbitrate_ok(v, escrow_id, caller),
{
}

/// No transition can be replayed: the state each one leaves behind refuses
/// that same transition, so a second call with the same effect fails
/// closed with `InvalidState` and changes nothing.
pub proof fn law_repeat_transition_rejected(
    pre: EscrowView,
    caller: PartyId,
    delivery_hash: Seq<u8>,
    now: i64,
    ruling: Ruling,
    escrow_id: u64,
    later_caller: PartyId,
    later_now: i64,
)
    ensures
        !accept_ok(accept_post(pre, caller), escrow_id),
        !deliver_ok(deliver_post(pre, delivery_hash, now), later_caller),
        !dispute_ok(dispute_post(pre), later_caller),
        !approve_ok(approve_post(pre), escrow_id, later_caller),
        !auto_approve_ok(approve_post(pre), escrow_id, later_now),
        !arbitrate_ok(arbitrate_post(pre, ruling), escrow_id, later_caller),
{
}

/// One operation of the protocol after creation, at the model level: the
/// arguments a caller supplies, as the state machine sees them.
pub ghost enum Step {
    Accept { escrow_id: u64, caller: PartyId },
    Deliver { caller: PartyId, delivery_hash: Seq<u8>, now: i64 },
    Approve { escrow_id: u64, caller: PartyId },
    AutoApprove { escrow_id: u64, now: i64 },
    Dispute { caller: PartyId },
    Arbitrate { escrow_id: u64, caller: PartyId, ruling: Ruling },
}

/// When a step goes through: the operation's own success condition,
/// together with what the host collaborators guarantee — the identity
/// source never presents the sentinel identity, and the clock never runs
/// backward.
pub open spec fn step_allowed(pre: EscrowView, s: Step) -> bool {
    match s {
        Step::Accept { escrow_id, caller } => accept_ok(pre, escrow_id) && caller.is_set(),
        Step::Deliver { caller, delivery_hash, now } => deliver_ok(pre, caller)
            && delivery_hash.len() == 32 && now >= pre.created_at,
        Step::Approve { escrow_id, caller } => approve_ok(pre, escrow_id, caller),
        Step::AutoApprove { escrow_id, now } => auto_approve_ok(pre, escrow_id, now),
        Step::Dispute { caller } => dispute_ok(pre, caller),
        Step::Arbitrate { escrow_id, caller, ruling: _ } => arbitrate_ok(pre, escrow_id, caller),
    }
}

/// The record a step leaves behind.
pub open spec fn step_post(pre: EscrowView, s: Step) -> EscrowView {
    match s {
        Step::Accept { escrow_id: _, caller } => accept_post(pre, caller),
        Step::Deliver { caller: _, delivery_hash, now } => deliver_post(pre, delivery_hash, now),
        Step::Approve { escrow_id: _, caller: _ } => approve_post(pre),
        Step::AutoApprove { escrow_id: _, now: _ } => approve_post(pre),
        Step::Dispute { caller: _ } => dispute_post(pre),
        Step::Arbitrate { escrow_id: _, caller: _, ruling } => arbitrate_post(pre, ruling),
    }
}

/// The vault movements a step directs.
pub open spec fn step_transfers(pre: EscrowView, s: Step) -> Seq<Transfer> {
    match s {
        Step::Accept { escrow_id: _, caller: _ } => collateral_deposit(pre.seller_collateral),
        Step::Deliver { caller: _, delivery_hash: _, now: _ } => Seq::empty(),
        Step::Approve { escrow_id: _, caller: _ } => approval_payouts(pre.payment_amount,
            pre.seller_collateral, pre.buyer_collateral),
        Step::AutoApprove { escrow_id: _, now: _ } => approval_payouts(pre.payment_amount,
            pre.seller_collateral, pre.buyer_collateral),
        Step::Dispute { caller: _ } => Seq::empty(),
        Step::Arbitrate { escrow_id: _, caller: _, ruling } => arbitration_payouts(
            pre.payment_amount, pre.buyer_collateral, pre.seller_collateral, ruling),
    }
}

/// Every allowed step keeps the record well-formed, and its transfers move
/// the vault from the balance the old state owed to the balance the new
/// state owes.
pub proof fn law_step_preserves_invariants(pre: EscrowView, s: Step)
    requires
        pre.wf(),
        step_allowed(pre, s),
    ensures
        step_post(pre, s).wf(),
        vault_after(expected_vault_balance(pre), step_transfers(pre, s))
            == expected_vault_balance(step_post(pre, s)),
{
    match s {
        Step::Accept { escrow_id, caller } => {
            law_accept_preserves_invariants(pre, escrow_id, caller);
        },
        Step::Deliver { caller: _, delivery_hash: _, now: _ } => {
        },
        Step::Approve { escrow_id: _, caller: _ } => {
            law_approval_drains_vault(pre);
        },
        Step::AutoApprove { escrow_id: _, now: _ } => {
            law_approval_drains_vault(pre);
        },
        Step::Dispute { caller: _ } => {
        },
        Step::Arbitrate { escrow_id: _, caller: _, ruling } => {
            law_arbitration_drains_vault(pre, ruling);
        },
    }
}

/// True when every step of `steps` is allowed in turn, starting from
/// `start`.
pub open spec fn trace_allowed(start: EscrowView, steps: Seq<Step>) -> bool
    decreases steps.len(),
{
    if steps.len() == 0 {
        true
    } else {
        &&& step_allowed(start, steps[0])
        &&& trace_allowed(step_post(start, steps[0]), steps.drop_first())
    }
}

/// The record the whole trace leaves behind.
pub open spec fn trace_post(start: EscrowView, steps: Seq<Step>) -> EscrowView
    decreases steps.len(),
{
    if steps.len() == 0 {
        start
    } else {
        trace_post(step_post(start, steps[0]), steps.drop_first())
    }
}

/// The vault balance after every step's transfers have been applied in
/// order, starting from `balance`.
pub open spec fn trace_vault(balance: int, start: EscrowView, steps: Seq<Step>) -> int
    decreases steps.len(),
{
    if steps.len() == 0 {
        balance
    } else {
        trace_vault(vault_after(balance, step_transfers(start, steps[0])),
            step_post(start, steps[0]), steps.drop_first())
    }
}

/// Every reachable record is well-formed and its vault holds exactly what
/// its state owes: starting from any well-formed record whose vault is
/// accounted for — creation gives one — any allowed run of transitions
/// preserves both.
pub proof fn law_reachable_records_keep_vault_accounted(start: EscrowView, steps: Seq<Step>)
    requires
        start.wf(),
        trace_allowed(start, steps),
    ensures
        trace_post(start, steps).wf(),
        trace_vault(expected_vault_balance(start), start, steps)
            == expected_vault_balance(trace_post(start, steps)),
    decreases steps.len(),
{
    if steps.len() > 0 {
        law_step_preserves_invariants(start, steps[0]);
        law_reachable_records_keep_vault_accounted(step_post(start, steps[0]),
            steps.drop_first());
    }
}

/// No reachable terminal record strands funds: whenever an allowed run
/// ends in a terminal state, the vault it leaves behind holds exactly
/// zero.
pub proof fn law_terminal_vault_empty(start: EscrowView, steps: Seq<Step>)
    requires
        start.wf(),
        trace_allowed(start, steps),
        trace_post(start, steps).is_terminal(),
    ensures
        trace_vault(expected_vault_balance(start), start, steps) == 0,
{
    law_reachable_records_keep_vault_accounted(start, steps);
}

/// The review period gates auto-approval sharply: one second before
/// `delivered_at + REVIEW_PERIOD_SECS` the call is rejected as premature,
/// and at exactly that moment it is allowed.
pub proof fn law_review_period_boundary(pre: EscrowView, escrow_id: u64, on_time: i64, early: i64)
    requires
        pre.state is Delivered,
        pre.escrow_id == escrow_id,
        pre.payment_amount + pre.seller_collateral <= u64::MAX,
        on_time == pre.delivered_at + REVIEW_PERIOD_SECS,
        early == on_time - 1,
    ensures
        auto_approve_ok(pre, escrow_id, on_time),
        !auto_approve_ok(pre, escrow_id, early),
        auto_approve_error(pre, escrow_id, early) == ClawscrowError::ReviewPeriodActive,
{
}

} // verus!
