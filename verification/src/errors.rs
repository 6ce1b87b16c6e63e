use vstd::prelude::*;

verus! {

/// Every way a bank operation can fail.
///
/// The taxonomy is flat: no error wraps another, and every guard violation
/// aborts the whole operation before any record mutation is committed.
#[derive(Clone, Copy, PartialEq, Eq, Structural, Debug)]
pub enum ErrorCode {
    /// A withdrawal asked for more than the user's balance, or a loan
    /// request asked for more than the supply pool holds.
    InsufficientFunds,
    /// A debit asked for more than the supply pool holds.
    InsufficientReserve,
    /// A loan was requested while the identity's loan slot is still active.
    ActiveLoanExists,
    /// A loan was requested with a zero amount.
    InvalidLoanAmount,
    /// A repayment was attempted while the loan slot is available:
    /// there is nothing to repay.
    LoanAlreadyRepaid,
    /// A repayment named a zero amount or one below the amount due.
    InvalidRepaymentAmount,
    /// The transaction history already holds its maximum number of entries.
    HistoryFull,
    /// An addition would exceed the 64-bit range.
    ArithmeticOverflow,
}

} // verus!
