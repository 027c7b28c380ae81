use vstd::prelude::*;

verus! {

/// Why an operation was rejected. Every failure aborts the whole operation:
/// no partial record mutation, no partial vault transfer.
#[derive(Clone, Copy, Debug, PartialEq, Eq, Structural)]
pub enum ClawscrowError {
    /// The operation is not permitted from the record's current state,
    /// including an id mismatch between the call and the stored record.
    InvalidState,
    /// The caller is not the role the operation requires.
    Unauthorized,
    /// The payment amount is not positive.
    InvalidAmount,
    /// The job description exceeds the size bound.
    DescriptionTooLong,
    /// The creation deadline is not strictly in the future.
    InvalidDeadline,
    /// Checked arithmetic would wrap.
    Overflow,
    /// Auto-approval was requested before the review period elapsed.
    ReviewPeriodActive,
}

impl ClawscrowError {
    /// A short human-readable description of the failure.
    pub fn message(&self) -> &'static str {
        match self {
            ClawscrowError::InvalidState => "Invalid escrow state for this operation",
            ClawscrowError::Unauthorized => "Unauthorized",
            ClawscrowError::InvalidAmount => "Invalid amount",
            ClawscrowError::DescriptionTooLong => "Description too long",
            ClawscrowError::InvalidDeadline => "Invalid deadline",
            ClawscrowError::Overflow => "Arithmetic overflow",
            ClawscrowError::ReviewPeriodActive => "Review period still active",
        }
    }
}

} // verus!
