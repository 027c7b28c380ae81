use vstd::prelude::*;

use crate::record::{EscrowState, EscrowView};

verus! {

/// A role whose funding account a transfer touches. The core never names
/// concrete accounts: the host resolves each role to the account stored for
/// the record, so no movement can reach a destination unrelated to the
/// record's parties.
#[derive(Clone, Copy, Debug, PartialEq, Eq, Structural)]
pub enum Party {
    Buyer,
    Seller,
    Arbitrator,
}

/// One value movement between a party's funding account and the record's
/// custodial vault. Transfers only ever flow funding account to vault
/// (funding phase) or vault to funding account (settlement phase); the
/// vault never pays itself.
#[derive(Clone, Copy, Debug, PartialEq, Eq, Structural)]
pub enum Transfer {
    /// Funding account of `from` pays `amount` into the vault.
    Deposit { from: Party, amount: u64 },
    /// The vault pays `amount` out to the funding account of `to`.
    Payout { to: Party, amount: u64 },
}

/// How one transfer changes the vault balance.
pub open spec fn transfer_delta(t: Transfer) -> int {
    match t {
        Transfer::Deposit { from: _, amount } => amount as int,
        Transfer::Payout { to: _, amount } => -(amount as int),
    }
}

/// The vault balance after applying `ts` in order, starting from `balance`.
pub open spec fn vault_after(balance: int, ts: Seq<Transfer>) -> int
    decreases ts.len(),
{
    if ts.len() == 0 {
        balance
    } else {
        vault_after(balance + transfer_delta(ts[0]), ts.drop_first())
    }
}

/// True when applying `ts` in order from `balance` keeps every intermediate
/// balance representable: never negative, never above `u64::MAX`.
pub open spec fn transfers_fit(balance: int, ts: Seq<Transfer>) -> bool
    decreases ts.len(),
{
    if ts.len() == 0 {
        true
    } else {
        &&& 0 <= balance + transfer_delta(ts[0]) <= u64::MAX
        &&& transfers_fit(balance + transfer_delta(ts[0]), ts.drop_first())
    }
}

/// The balance the vault must hold for a record in each lifecycle state:
/// payment plus buyer stake once created, the whole pool once accepted,
/// and nothing once settled. No transition ever leaves a resolved record
/// with funds stranded.
pub open spec fn expected_vault_balance(e: EscrowView) -> int {
    match e.state {
        EscrowState::Created => e.payment_amount + e.buyer_collateral,
        EscrowState::Accepted => e.pool(),
        EscrowState::Delivered => e.pool(),
        EscrowState::Disputed => e.pool(),
        EscrowState::Approved => 0,
        EscrowState::ResolvedBuyer => 0,
        EscrowState::ResolvedSeller => 0,
        EscrowState::Cancelled => 0,
    }
}

/// The custodial balance held for one escrow record. Only the record's own
/// transition logic produces the transfers that move it; the host's
/// value-transfer primitive merely executes them.
#[derive(Clone, Copy, Debug, PartialEq, Eq, Structural)]
pub struct Vault {
    pub balance: u64,
}

impl Vault {
    /// An empty vault, as allocated at creation time.
    pub fn new() -> (v: Vault)
        ensures
            v.balance == 0,
    {
        Vault { balance: 0 }
    }

    /// Applies one transfer. Fails — leaving the balance untouched — when
    /// the movement would overdraw the vault or overflow its balance.
    pub fn apply(&mut self, t: &Transfer) -> (ok: bool)
        ensures
            ok == (0 <= old(self).balance + transfer_delta(*t) <= u64::MAX),
            ok ==> final(self).balance == old(self).balance + transfer_delta(*t),
            !ok ==> *final(self) == *old(self),
    {
        match t {
            Transfer::Deposit { from: _, amount } => {
                if self.balance <= u64::MAX - *amount {
                    self.balance = self.balance + *amount;
                    true
                } else {
                    false
                }
            },
            Transfer::Payout { to: _, amount } => {
                if self.balance >= *amount {
                    self.balance = self.balance - *amount;
                    true
                } else {
                    false
                }
            },
        }
    }

    /// Applies a whole transition's transfers atomically: either every
    /// movement applies and the balance ends at `vault_after`, or none
    /// applies and the vault is untouched.
    pub fn apply_all(&mut self, ts: &Vec<Transfer>) -> (ok: bool)
        ensures
            ok == transfers_fit(old(self).balance as int, ts@),
            ok ==> final(self).balance == vault_after(old(self).balance as int, ts@),
            !ok ==> *final(self) == *old(self),
    {
        let mut trial = Vault { balance: self.balance };
        let mut i: usize = 0;
        while i < ts.len()
            invariant
                i <= ts.len(),
                transfers_fit(old(self).balance as int, ts@.take(i as int)),
                trial.balance == vault_after(old(self).balance as int, ts@.take(i as int)),
                *self == *old(self),
            decreases ts.len() - i,
        {
            let t = ts[i];
            proof {
                lemma_step_decomposition(old(self).balance as int, ts@, i as int);
            }
            if !trial.apply(&t) {
                proof {
                    lemma_unfit_prefix(old(self).balance as int, ts@, i as int);
                }
                return false;
            }
            i = i + 1;
        }
        proof {
            assert(ts@.take(ts@.len() as int) =~= ts@);
        }
        self.balance = trial.balance;
        true
    }
}

/// Taking one more transfer into a prefix extends the running balance and
/// feasibility by exactly that transfer's step.
proof fn lemma_step_decomposition(balance: int, ts: Seq<Transfer>, i: int)
    requires
        0 <= i < ts.len(),
    ensures
        vault_after(balance, ts.take(i + 1)) == vault_after(balance, ts.take(i))
            + transfer_delta(ts[i]),
        transfers_fit(balance, ts.take(i + 1)) == (transfers_fit(balance, ts.take(i))
            && 0 <= vault_after(balance, ts.take(i)) + transfer_delta(ts[i]) <= u64::MAX),
    decreases i,
{
    if i == 0 {
        let b2: int = balance + transfer_delta(ts[0]);
        assert(ts.take(1).len() == 1);
        assert(ts.take(1)[0] == ts[0]);
        assert(ts.take(1).drop_first() =~= ts.take(0));
        assert(vault_after(b2, ts.take(0)) == b2);
        assert(transfers_fit(b2, ts.take(0)));
        assert(vault_after(balance, ts.take(1)) == balance + transfer_delta(ts[0]));
        assert(transfers_fit(balance, ts.take(1)) == (0 <= balance + transfer_delta(ts[0])
            <= u64::MAX));
    } else {
        let sub = ts.drop_first();
        let b2: int = balance + transfer_delta(ts[0]);
        assert(ts.take(i + 1)[0] == ts[0]);
        assert(ts.take(i)[0] == ts[0]);
        assert(ts.take(i + 1).drop_first() =~= sub.take(i));
        assert(ts.take(i).drop_first() =~= sub.take(i - 1));
        assert(sub[i - 1] == ts[i]);
        lemma_step_decomposition(b2, sub, i - 1);
        assert(vault_after(balance, ts.take(i + 1)) == vault_after(b2, sub.take(i)));
        assert(vault_after(balance, ts.take(i)) == vault_after(b2, sub.take(i - 1)));
        assert(transfers_fit(balance, ts.take(i + 1)) == ((0 <= b2 <= u64::MAX)
            && transfers_fit(b2, sub.take(i))));
        assert(transfers_fit(balance, ts.take(i)) == ((0 <= b2 <= u64::MAX)
            && transfers_fit(b2, sub.take(i - 1))));
    }
}

/// A sequence whose prefix already fails to fit does not fit as a whole.
proof fn lemma_unfit_prefix(balance: int, ts: Seq<Transfer>, i: int)
    requires
        0 <= i < ts.len(),
        transfers_fit(balance, ts.take(i)),
        !(0 <= vault_after(balance, ts.take(i)) + transfer_delta(ts[i]) <= u64::MAX),
    ensures
        !transfers_fit(balance, ts),
    decreases i,
{
    if i == 0 {
        assert(vault_after(balance, ts.take(0)) == balance);
        assert(!transfers_fit(balance, ts));
    } else {
        let sub = ts.drop_first();
        let b2: int = balance + transfer_delta(ts[0]);
        assert(ts.take(i)[0] == ts[0]);
        assert(ts.take(i).drop_first() =~= sub.take(i - 1));
        assert(transfers_fit(b2, sub.take(i - 1)));
        assert(vault_after(balance, ts.take(i)) == vault_after(b2, sub.take(i - 1)));
        assert(sub[i - 1] == ts[i]);
        lemma_unfit_prefix(b2, sub, i - 1);
    }
}

} // verus!
