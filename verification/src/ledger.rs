//! The custody balance and the movements that change it.
//!
//! Deposits credit the custody balance, reverts debit it, and a request to
//! withdraw leaves it alone: the release happens on the remote side. The
//! operations state their effect with [`Operation::custody_after`], and the
//! laws at the end of the file say what follows for any sequence of them.

use crate::error::LedgerError;
use vstd::prelude::*;

verus! {

/// A successful operation, as far as the custody balance is concerned.
pub ghost enum Operation {
    /// Funds moved from a depositor into custody.
    Deposit { amount: nat },
    /// Funds moved from custody back to the depositor.
    Revert { amount: nat },
    /// A release of funds was requested from the remote side.
    WithdrawRequest { amount: nat },
}

impl Operation {
    /// What the operation adds to the custody balance.
    pub open spec fn credit(self) -> nat {
        match self {
            Operation::Deposit { amount } => amount,
            _ => 0,
        }
    }

    /// What the operation takes from the custody balance.
    pub open spec fn debit(self) -> nat {
        match self {
            Operation::Revert { amount } => amount,
            _ => 0,
        }
    }

    /// The custody balance after the operation, given the one before it.
    pub open spec fn custody_after(self, custody: int) -> int {
        custody + self.credit() - self.debit()
    }

    /// The balance of the user after the operation, given the one before it:
    /// what custody gains the user pays, and what custody loses the user gets.
    pub open spec fn user_after(self, user: int) -> int {
        user - self.credit() + self.debit()
    }
}

/// The sum of what the operations add to the custody balance.
pub open spec fn credits(ops: Seq<Operation>) -> int
    decreases ops.len(),
{
    if ops.len() == 0 {
        0
    } else {
        credits(ops.drop_last()) + ops.last().credit()
    }
}

/// The sum of what the operations take from the custody balance.
pub open spec fn debits(ops: Seq<Operation>) -> int
    decreases ops.len(),
{
    if ops.len() == 0 {
        0
    } else {
        debits(ops.drop_last()) + ops.last().debit()
    }
}

/// The custody balance after the operations have run one after another.
pub open spec fn custody_after_all(start: int, ops: Seq<Operation>) -> int
    decreases ops.len(),
{
    if ops.len() == 0 {
        start
    } else {
        ops.last().custody_after(custody_after_all(start, ops.drop_last()))
    }
}

/// The balance of the user after the operations have run one after another.
pub open spec fn user_after_all(start: int, ops: Seq<Operation>) -> int
    decreases ops.len(),
{
    if ops.len() == 0 {
        start
    } else {
        ops.last().user_after(user_after_all(start, ops.drop_last()))
    }
}

/// Whether `amount` can move from a balance of `from` to a balance of `to`.
pub open spec fn transfer_refusal(from: u64, to: u64, amount: u64) -> Option<LedgerError> {
    if from < amount {
        Some(LedgerError::InsufficientFunds)
    } else if to + amount > u64::MAX {
        Some(LedgerError::BalanceOverflow)
    } else {
        None
    }
}

/// Moves `amount` from one balance to another, or changes neither.
pub fn transfer(from: &mut u64, to: &mut u64, amount: u64) -> (r: Result<(), LedgerError>)
    ensures
        match r {
            Ok(()) => {
                &&& transfer_refusal(*old(from), *old(to), amount) is None
                &&& *final(from) == *old(from) - amount
                &&& *final(to) == *old(to) + amount
            },
            Err(e) => {
                &&& transfer_refusal(*old(from), *old(to), amount) == Some(e)
                &&& *final(from) == *old(from)
                &&& *final(to) == *old(to)
            },
        },
{
    if *from < amount {
        return Err(LedgerError::InsufficientFunds);
    }
    if amount > u64::MAX - *to {
        return Err(LedgerError::BalanceOverflow);
    }
    *from = *from - amount;
    *to = *to + amount;
    Ok(())
}

/// Fund conservation for custody: after any sequence of successful
/// operations, and at every point on the way, the custody balance is what
/// it was at the start, plus all credits, minus all debits.
pub proof fn lemma_custody_is_credits_minus_debits(start: int, ops: Seq<Operation>)
    ensures
        forall|k: int|
            0 <= k <= ops.len() ==> #[trigger] custody_after_all(start, ops.take(k)) == start
                + credits(ops.take(k)) - debits(ops.take(k)),
        custody_after_all(start, ops) == start + credits(ops) - debits(ops),
    decreases ops.len(),
{
    if ops.len() > 0 {
        let init = ops.drop_last();
        lemma_custody_is_credits_minus_debits(start, init);
        assert forall|k: int| 0 <= k <= ops.len() implies #[trigger] custody_after_all(
            start,
            ops.take(k),
        ) == start + credits(ops.take(k)) - debits(ops.take(k)) by {
            if k < ops.len() {
                assert(ops.take(k) =~= init.take(k));
            } else {
                assert(ops.take(k) =~= ops);
            }
        }
    } else {
        assert forall|k: int| 0 <= k <= ops.len() implies #[trigger] custody_after_all(
            start,
            ops.take(k),
        ) == start + credits(ops.take(k)) - debits(ops.take(k)) by {
            assert(ops.take(k) =~= ops);
        }
    }
}

/// No value is created or destroyed: after any sequence of successful
/// operations, and at every point on the way, the user and custody together
/// hold what they held at the start.
pub proof fn lemma_value_is_conserved(user: int, custody: int, ops: Seq<Operation>)
    ensures
        forall|k: int|
            0 <= k <= ops.len() ==> #[trigger] user_after_all(user, ops.take(k))
                + custody_after_all(custody, ops.take(k)) == user + custody,
        user_after_all(user, ops) + custody_after_all(custody, ops) == user + custody,
    decreases ops.len(),
{
    if ops.len() > 0 {
        let init = ops.drop_last();
        lemma_value_is_conserved(user, custody, init);
        assert forall|k: int| 0 <= k <= ops.len() implies #[trigger] user_after_all(
            user,
            ops.take(k),
        ) + custody_after_all(custody, ops.take(k)) == user + custody by {
            if k < ops.len() {
                assert(ops.take(k) =~= init.take(k));
            } else {
                assert(ops.take(k) =~= ops);
            }
        }
    } else {
        assert forall|k: int| 0 <= k <= ops.len() implies #[trigger] user_after_all(
            user,
            ops.take(k),
        ) + custody_after_all(custody, ops.take(k)) == user + custody by {
            assert(ops.take(k) =~= ops);
        }
    }
}

} // verus!
