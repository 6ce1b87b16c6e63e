use vstd::prelude::*;

verus! {

/// The state of one identity's loan slot.
///
/// The slot is a tagged two-state value rather than a flat record with a
/// `repaid` flag, so that an illegal combination (a repaid loan that still
/// carries a principal, or an active loan without one) cannot be written.
#[derive(Clone, Copy, PartialEq, Eq, Structural, Debug)]
pub enum LoanState {
    /// The slot is free: either never borrowed, or the last loan was repaid.
    Available,
    /// An outstanding loan. `end_time` is informational metadata: nothing
    /// checks it against the current time, and no penalty accrues past it.
    Active { principal: u64, interest_rate_percent: u64, start_time: i64, end_time: i64 },
}

/// One identity's loan slot. The slot is reused across successive loans:
/// repayment returns it to [`LoanState::Available`], and no history of
/// prior loans is retained.
#[derive(Clone, Copy, PartialEq, Eq, Debug)]
pub struct LoanAccount {
    /// The identity key of the account holder the slot belongs to.
    pub borrower: [u8; 32],
    pub state: LoanState,
}

/// The minimum acceptable repayment of a loan: the principal plus interest
/// of `interest_rate_percent` percent of it, rounded down.
pub open spec fn total_repayment_due(principal: int, interest_rate_percent: int) -> int {
    principal + (principal * interest_rate_percent) / 100
}

/// Computes [`total_repayment_due`] exactly. The result is returned as a
/// 128-bit value because principal and rate are arbitrary 64-bit values, so
/// the amount due can exceed the 64-bit range; a repayment, which is 64-bit,
/// can then never cover it.
pub fn repayment_due(principal: u64, interest_rate_percent: u64) -> (r: u128)
    ensures
        r as int == total_repayment_due(principal as int, interest_rate_percent as int),
{
    let p = principal as u128;
    let rt = interest_rate_percent as u128;
    proof {
        let m = u64::MAX as u128;
        assert(p * rt <= m * m) by (nonlinear_arith)
            requires
                0 <= p <= m,
                0 <= rt <= m,
        ;
        assert((p * rt) / 100 <= p * rt) by (nonlinear_arith)
            requires
                0 <= p * rt,
        ;
    }
    let interest = (p * rt) / 100;
    p + interest
}

impl LoanAccount {
    /// A fresh loan slot for `borrower`, in the available state.
    pub fn new(borrower: [u8; 32]) -> (r: LoanAccount)
        ensures
            r == (LoanAccount { borrower, state: LoanState::Available }),
    {
        LoanAccount { borrower, state: LoanState::Available }
    }
}

/// Creates an identity's loan slot on first contact, idempotently: an
/// existing slot is returned unchanged, whatever its state, and only an
/// absent one is replaced by a fresh available slot for `borrower`.
pub fn initialize_loan_account(existing: Option<LoanAccount>, borrower: [u8; 32]) -> (r: LoanAccount)
    ensures
        (match existing {
            Some(l) => r == l,
            None => r == (LoanAccount { borrower, state: LoanState::Available }),
        }),
{
    match existing {
        Some(l) => l,
        None => LoanAccount::new(borrower),
    }
}

} // verus!
