use vstd::prelude::*;

use crate::identity::PartyId;
use crate::record::Ruling;

verus! {

/// Notification that `create_escrow` succeeded.
///
/// Each transition returns exactly one such structured notification on
/// success; handing it to the event sink — and any delivery or ordering
/// guarantee — is the host's business.
#[derive(Clone, Copy, Debug, PartialEq, Eq, Structural)]
pub struct EscrowCreated {
    pub escrow_id: u64,
    pub buyer: PartyId,
    pub payment_amount: u64,
    pub buyer_collateral: u64,
    pub seller_collateral: u64,
}

/// Notification that a seller accepted the job.
#[derive(Clone, Copy, Debug, PartialEq, Eq, Structural)]
pub struct EscrowAccepted {
    pub escrow_id: u64,
    pub seller: PartyId,
}

/// Notification that the seller delivered, with the work's fingerprint.
#[derive(Clone, Copy, Debug, PartialEq, Eq)]
pub struct WorkDelivered {
    pub escrow_id: u64,
    pub delivery_hash: [u8; 32],
}

/// Notification that the escrow settled in the seller's favour, whether by
/// the buyer's approval or by timeout.
#[derive(Clone, Copy, Debug, PartialEq, Eq, Structural)]
pub struct EscrowApproved {
    pub escrow_id: u64,
}

/// Notification that the buyer disputed the delivery.
#[derive(Clone, Copy, Debug, PartialEq, Eq, Structural)]
pub struct EscrowDisputed {
    pub escrow_id: u64,
}

/// Notification that the arbitrator resolved the dispute.
#[derive(Clone, Copy, Debug, PartialEq, Eq, Structural)]
pub struct DisputeResolved {
    pub escrow_id: u64,
    pub ruling: Ruling,
}

} // verus!
