//! Lamport balances that the escrow program changes directly.
use vstd::prelude::*;

use crate::errors::{EscrowError, FulfillTradeErrors};
use crate::transfers::{AccountRole, LamportMove};

verus! {

/// The balance of an account after `amount` lamports are added to it, or
/// `ArithmeticOverflow` where the sum leaves the range of `u64`.
pub open spec fn added(balance: u64, amount: u64) -> Result<u64, EscrowError> {
    if balance + amount <= u64::MAX {
        Ok((balance + amount) as u64)
    } else {
        Err(EscrowError::ArithmeticOverflow)
    }
}

/// The balance of an account after `amount` lamports are taken from it, or
/// `ArithmeticOverflow` where it holds fewer.
pub open spec fn subtracted(balance: u64, amount: u64) -> Result<u64, EscrowError> {
    if amount <= balance {
        Ok((balance - amount) as u64)
    } else {
        Err(EscrowError::ArithmeticOverflow)
    }
}

/// Adds `amount` lamports to an account whose balance is `balance`, as
/// Anchor's `Lamports::add_lamports` does.
pub fn add_lamports(balance: u64, amount: u64) -> (result: Result<u64, EscrowError>)
    ensures
        result == added(balance, amount),
{
    match balance.checked_add(amount) {
        Some(sum) => Ok(sum),
        None => Err(EscrowError::ArithmeticOverflow),
    }
}

/// Takes `amount` lamports from an account whose balance is `balance`, as
/// Anchor's `Lamports::sub_lamports` does.
pub fn sub_lamports(balance: u64, amount: u64) -> (result: Result<u64, EscrowError>)
    ensures
        result == subtracted(balance, amount),
{
    match balance.checked_sub(amount) {
        Some(difference) => Ok(difference),
        None => Err(EscrowError::ArithmeticOverflow),
    }
}

impl LamportMove {
    /// The account that the lamports leave.
    pub open spec fn source(self) -> AccountRole {
        match self {
            LamportMove::Guarded { from, .. } => from,
            LamportMove::Checked { from, .. } => from,
        }
    }

    /// The account that the lamports reach.
    pub open spec fn destination(self) -> AccountRole {
        match self {
            LamportMove::Guarded { to, .. } => to,
            LamportMove::Checked { to, .. } => to,
        }
    }

    /// The number of lamports moved.
    pub open spec fn lamports(self) -> u64 {
        match self {
            LamportMove::Guarded { amount, .. } => amount,
            LamportMove::Checked { amount, .. } => amount,
        }
    }

    /// Whether the move can be made without a panic: a guarded move adds to
    /// its destination without a check, once the source has been found to
    /// hold enough.
    pub open spec fn can_apply(self, from_balance: u64, to_balance: u64) -> bool {
        match self {
            LamportMove::Guarded { amount, .. } => amount <= from_balance ==> to_balance + amount
                <= u64::MAX,
            LamportMove::Checked { .. } => true,
        }
    }

    /// The balances of the source and the destination after the move, or the
    /// error that it ends with.
    pub open spec fn outcome(self, from_balance: u64, to_balance: u64) -> Result<
        (u64, u64),
        EscrowError,
    > {
        match self {
            LamportMove::Guarded { amount, .. } => if amount <= from_balance {
                Ok(((from_balance - amount) as u64, (to_balance + amount) as u64))
            } else {
                Err(EscrowError::FulfillTrade(FulfillTradeErrors::InsufficientLamports))
            },
            LamportMove::Checked { amount, .. } => if amount <= from_balance && to_balance
                + amount <= u64::MAX {
                Ok(((from_balance - amount) as u64, (to_balance + amount) as u64))
            } else {
                Err(EscrowError::ArithmeticOverflow)
            },
        }
    }

    /// Makes the move between a source that holds `from_balance` lamports and
    /// a destination that holds `to_balance`, and gives their new balances.
    pub fn apply(&self, from_balance: u64, to_balance: u64) -> (result: Result<(u64, u64), EscrowError>)
        requires
            self.can_apply(from_balance, to_balance),
        ensures
            result == self.outcome(from_balance, to_balance),
    {
        match self {
            LamportMove::Guarded { amount, .. } => {
                if from_balance < *amount {
                    return Err(EscrowError::FulfillTrade(FulfillTradeErrors::InsufficientLamports));
                }
                Ok((from_balance - *amount, to_balance + *amount))
            },
            LamportMove::Checked { amount, .. } => {
                let from_after = sub_lamports(from_balance, *amount)?;
                let to_after = add_lamports(to_balance, *amount)?;
                Ok((from_after, to_after))
            },
        }
    }
}

/// A move of lamports that succeeds takes its amount from the source, gives
/// it to the destination, and keeps the sum of the two balances.
pub proof fn lemma_move_conserves_lamports(mv: LamportMove, from_balance: u64, to_balance: u64)
    requires
        mv.can_apply(from_balance, to_balance),
        mv.outcome(from_balance, to_balance) is Ok,
    ensures
        ({
            let (from_after, to_after) = mv.outcome(from_balance, to_balance)->Ok_0;
            &&& from_after + to_after == from_balance + to_balance
            &&& from_after == from_balance - mv.lamports()
            &&& to_after == to_balance + mv.lamports()
        }),
{
}

} // verus!
