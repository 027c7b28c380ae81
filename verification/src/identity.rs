use vstd::prelude::*;

verus! {

/// The identity of one party, as handed in by the host's identity source.
///
/// The core never inspects an identity beyond comparing it for equality
/// against the roles stored in the escrow record, so it carries the
/// host-verified identity as a single opaque token. The zero token is the
/// sentinel that fills the seller's slot before any seller has accepted.
#[derive(Clone, Copy, Debug, PartialEq, Eq, Hash, Structural)]
pub struct PartyId(pub u64);

impl PartyId {
    /// True of every identity a real caller can present: the sentinel is
    /// reserved for the unfilled seller slot.
    pub open spec fn is_set(self) -> bool {
        self != PartyId(0)
    }
}

} // verus!
