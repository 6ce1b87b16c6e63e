use vstd::prelude::*;

use crate::errors::ErrorCode;

verus! {

/// The bank's pooled liquidity: a single shared record whose balance backs
/// all user balances and loans.
///
/// The balance is unsigned, and both `credit` and `debit` reject any change
/// that would leave the 64-bit range instead of wrapping, so the pool can
/// never go negative and never silently loses or invents money.
#[derive(Clone, Copy, PartialEq, Eq, Structural, Debug)]
pub struct SupplyAccount {
    pub total_balance: u64,
}

impl SupplyAccount {
    /// Sets the pool to `amount`, overwriting whatever it held.
    ///
    /// Re-invocation simply overwrites: the pool itself does not guard
    /// against a second initialization; callers must invoke it once.
    pub fn initialize(&mut self, amount: u64)
        ensures
            final(self).total_balance == amount,
    {
        self.total_balance = amount;
    }

    /// Adds `amount` to the pool; fails, changing nothing, if the addition
    /// would overflow the 64-bit range.
    pub fn credit(&mut self, amount: u64) -> (result: Result<(), ErrorCode>)
        ensures
            (match result {
                Ok(()) => {
                    &&& old(self).total_balance + amount <= u64::MAX
                    &&& final(self).total_balance == old(self).total_balance + amount
                }
                Err(e) => {
                    &&& e == ErrorCode::ArithmeticOverflow
                    &&& old(self).total_balance + amount > u64::MAX
                    &&& *final(self) == *old(self)
                }
            }),
    {
        if amount <= u64::MAX - self.total_balance {
            self.total_balance = self.total_balance + amount;
            Ok(())
        } else {
            Err(ErrorCode::ArithmeticOverflow)
        }
    }

    /// Removes `amount` from the pool; fails, changing nothing, if the pool
    /// holds less than `amount`.
    pub fn debit(&mut self, amount: u64) -> (result: Result<(), ErrorCode>)
        ensures
            (match result {
                Ok(()) => {
                    &&& amount <= old(self).total_balance
                    &&& final(self).total_balance == old(self).total_balance - amount
                }
                Err(e) => {
                    &&& e == ErrorCode::InsufficientReserve
                    &&& amount > old(self).total_balance
                    &&& *final(self) == *old(self)
                }
            }),
    {
        if amount <= self.total_balance {
            self.total_balance = self.total_balance - amount;
            Ok(())
        } else {
            Err(ErrorCode::InsufficientReserve)
        }
    }
}

} // verus!
