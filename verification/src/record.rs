use vstd::prelude::*;

use crate::identity::PartyId;

verus! {

/// Longest job description the record will store, in bytes.
pub const MAX_DESCRIPTION_LEN: usize = 500;

/// How long after delivery the buyer may still approve or dispute before
/// anyone may trigger auto-approval, in seconds.
pub const REVIEW_PERIOD_SECS: i64 = 3 * 24 * 60 * 60;

/// Lifecycle state of one escrow record.
///
/// `Created` is initial; `Approved`, `ResolvedBuyer` and `ResolvedSeller`
/// are terminal. No transition skips a state or moves backward. `Cancelled`
/// is declared for the storage layout but no transition produces it.
#[derive(Clone, Copy, Debug, PartialEq, Eq, Structural)]
pub enum EscrowState {
    Created,
    Accepted,
    Delivered,
    Approved,
    Disputed,
    ResolvedBuyer,
    ResolvedSeller,
    Cancelled,
}

/// The arbitrator's decision on a disputed escrow.
#[derive(Clone, Copy, Debug, PartialEq, Eq, Structural)]
pub enum Ruling {
    BuyerWins,
    SellerWins,
}

/// The durable state of one job: parties, amounts, lifecycle state,
/// timestamps and content fingerprints. Created once, mutated in place by
/// the transitions, never deleted by the core.
#[derive(Clone, Debug, PartialEq, Eq)]
pub struct Escrow {
    /// Caller-supplied unique identifier; immutable.
    pub escrow_id: u64,
    /// The party that funded the job; fixed at creation.
    pub buyer: PartyId,
    /// Unset (the sentinel identity) until acceptance, then fixed.
    pub seller: PartyId,
    /// The party that may resolve a dispute; fixed at creation.
    pub arbitrator: PartyId,
    /// Amount owed to the seller on success; positive, fixed at creation.
    pub payment_amount: u64,
    /// Stake the buyer posted at creation.
    pub buyer_collateral: u64,
    /// Stake the seller must post to accept.
    pub seller_collateral: u64,
    /// Deadline supplied at creation; stored metadata only — no later
    /// transition reads it.
    pub deadline_ts: i64,
    /// The job description, bounded by [`MAX_DESCRIPTION_LEN`].
    pub description: Vec<u8>,
    /// Current lifecycle state.
    pub state: EscrowState,
    /// Fingerprint of the delivered work; all zero until delivery.
    pub delivery_hash: [u8; 32],
    /// Time of creation, from the host's clock.
    pub created_at: i64,
    /// Time of delivery; zero until the work is delivered.
    pub delivered_at: i64,
    /// Host-chosen locator byte tying this record to its storage slot.
    pub bump: u8,
    /// Host-chosen locator byte tying this record to its vault.
    pub vault_bump: u8,
}

/// The mathematical value of an [`Escrow`] record: the same fields, with
/// the byte containers abstracted to sequences.
#[verifier::ext_equal]
pub ghost struct EscrowView {
    pub escrow_id: u64,
    pub buyer: PartyId,
    pub seller: PartyId,
    pub arbitrator: PartyId,
    pub payment_amount: u64,
    pub buyer_collateral: u64,
    pub seller_collateral: u64,
    pub deadline_ts: i64,
    pub description: Seq<u8>,
    pub state: EscrowState,
    pub delivery_hash: Seq<u8>,
    pub created_at: i64,
    pub delivered_at: i64,
    pub bump: u8,
    pub vault_bump: u8,
}

impl View for Escrow {
    type V = EscrowView;

    open spec fn view(&self) -> EscrowView {
        EscrowView {
            escrow_id: self.escrow_id,
            buyer: self.buyer,
            seller: self.seller,
            arbitrator: self.arbitrator,
            payment_amount: self.payment_amount,
            buyer_collateral: self.buyer_collateral,
            seller_collateral: self.seller_collateral,
            deadline_ts: self.deadline_ts,
            description: self.description@,
            state: self.state,
            delivery_hash: self.delivery_hash@,
            created_at: self.created_at,
            delivered_at: self.delivered_at,
            bump: self.bump,
            vault_bump: self.vault_bump,
        }
    }
}

impl EscrowView {
    /// Everything the vault holds while the job is active: the payment plus
    /// both stakes.
    pub open spec fn pool(self) -> int {
        self.payment_amount + self.buyer_collateral + self.seller_collateral
    }

    /// True once the record admits no further transition.
    pub open spec fn is_terminal(self) -> bool {
        self.state is Approved || self.state is ResolvedBuyer || self.state is ResolvedSeller
    }

    /// True from delivery onward: states whose `delivered_at` is meaningful.
    pub open spec fn is_delivered_phase(self) -> bool {
        self.state is Delivered || self.state is Disputed || self.is_terminal()
    }

    /// Well-formedness of every reachable record: creation establishes it
    /// and each transition preserves it.
    pub open spec fn wf(self) -> bool {
        &&& self.payment_amount > 0
        &&& self.description.len() <= MAX_DESCRIPTION_LEN
        &&& self.delivery_hash.len() == 32
        &&& !(self.state is Cancelled)
        &&& (self.state is Created ==> !self.seller.is_set())
        &&& (!(self.state is Created) ==> self.seller.is_set())
        &&& (!self.is_delivered_phase() ==> self.delivered_at == 0)
        &&& (self.is_delivered_phase() ==> self.delivered_at >= self.created_at)
    }
}

} // verus!
