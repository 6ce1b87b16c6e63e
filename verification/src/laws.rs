use vstd::prelude::*;

use crate::errors::ErrorCode;
use crate::handlers::{spec_deposit, spec_repay_loan, spec_request_loan, spec_withdraw};
use crate::loan::LoanAccount;
use crate::supply::SupplyAccount;
use crate::user::{MAX_HISTORY, UserView, lemma_signed_sum_push, signed_sum};

verus! {

/// The redundant loan flag on the user record agrees with the state of the
/// identity's loan slot.
pub open spec fn loan_link_ok(user: UserView, loan: LoanAccount) -> bool {
    user.has_loan_account <==> loan.state is Active
}

/// A well-formed user record's balance is exactly the signed sum of its
/// transaction history replayed in order, and is never negative.
pub proof fn lemma_balance_matches_history(user: UserView)
    requires
        user.wf(),
    ensures
        user.balance == signed_sum(user.history),
        user.balance >= 0,
{
}

/// A deposit keeps the user record well formed: the balance still equals
/// the replayed signed sum of the history afterwards, whether the deposit
/// succeeded or failed.
pub proof fn lemma_deposit_preserves_wf(
    supply: SupplyAccount,
    user: UserView,
    amount: u64,
    now: i64,
)
    requires
        user.wf(),
    ensures
        spec_deposit(supply, user, amount, now).1.wf(),
{
    let after = spec_deposit(supply, user, amount, now).1;
    if after != user {
        lemma_signed_sum_push(user.history, after.history.last());
    }
}

/// A withdrawal keeps the user record well formed: the balance still equals
/// the replayed signed sum of the history afterwards, whether the
/// withdrawal succeeded or failed.
pub proof fn lemma_withdraw_preserves_wf(
    supply: SupplyAccount,
    user: UserView,
    amount: u64,
    now: i64,
)
    requires
        user.wf(),
    ensures
        spec_withdraw(supply, user, amount, now).1.wf(),
{
    let after = spec_withdraw(supply, user, amount, now).1;
    if after != user {
        lemma_signed_sum_push(user.history, after.history.last());
    }
}

/// One ledger operation on an identity: what `deposit` or `withdraw` is
/// asked to do.
pub enum LedgerOp {
    Deposit { amount: u64, now: i64 },
    Withdraw { amount: u64, now: i64 },
}

/// The state after a whole sequence of ledger operations, applied in order;
/// an operation that fails leaves the state as it was.
pub open spec fn apply_ledger_ops(
    supply: SupplyAccount,
    user: UserView,
    ops: Seq<LedgerOp>,
) -> (SupplyAccount, UserView)
    decreases ops.len(),
{
    if ops.len() == 0 {
        (supply, user)
    } else {
        let (s1, u1) = apply_ledger_ops(supply, user, ops.drop_last());
        match ops.last() {
            LedgerOp::Deposit { amount, now } => {
                let (s2, u2, r) = spec_deposit(s1, u1, amount, now);
                (s2, u2)
            }
            LedgerOp::Withdraw { amount, now } => {
                let (s2, u2, r) = spec_withdraw(s1, u1, amount, now);
                (s2, u2)
            }
        }
    }
}

/// After every sequence of deposits and withdrawals on one identity, the
/// balance is exactly the signed sum of the transaction history replayed in
/// order, and is never negative.
pub proof fn lemma_ledger_ops_preserve_wf(
    supply: SupplyAccount,
    user: UserView,
    ops: Seq<LedgerOp>,
)
    requires
        user.wf(),
    ensures
        apply_ledger_ops(supply, user, ops).1.wf(),
    decreases ops.len(),
{
    if ops.len() > 0 {
        lemma_ledger_ops_preserve_wf(supply, user, ops.drop_last());
        let (s1, u1) = apply_ledger_ops(supply, user, ops.drop_last());
        match ops.last() {
            LedgerOp::Deposit { amount, now } => {
                lemma_deposit_preserves_wf(s1, u1, amount, now);
            }
            LedgerOp::Withdraw { amount, now } => {
                lemma_withdraw_preserves_wf(s1, u1, amount, now);
            }
        }
    }
}

/// A withdrawal exceeding the user's balance fails with
/// `InsufficientFunds` and leaves both the user record and the supply pool
/// unchanged.
pub proof fn lemma_overdraw_rejected(supply: SupplyAccount, user: UserView, amount: u64, now: i64)
    requires
        amount > user.balance,
    ensures
        spec_withdraw(supply, user, amount, now)
            == (supply, user, Err::<(), ErrorCode>(ErrorCode::InsufficientFunds)),
{
}

/// A withdrawal that the user's balance covers but the supply pool cannot
/// pay fails with `InsufficientReserve` and changes nothing.
pub proof fn lemma_withdraw_protects_supply(
    supply: SupplyAccount,
    user: UserView,
    amount: u64,
    now: i64,
)
    requires
        amount <= user.balance,
        amount > supply.total_balance,
    ensures
        spec_withdraw(supply, user, amount, now)
            == (supply, user, Err::<(), ErrorCode>(ErrorCode::InsufficientReserve)),
{
}

/// A loan request exceeding the supply pool fails with `InsufficientFunds`
/// and changes nothing.
pub proof fn lemma_request_loan_protects_supply(
    supply: SupplyAccount,
    user: UserView,
    loan: LoanAccount,
    amount: u64,
    interest_rate: u64,
    loan_term: i64,
    now: i64,
)
    requires
        amount > 0,
        amount > supply.total_balance,
    ensures
        spec_request_loan(supply, user, loan, amount, interest_rate, loan_term, now)
            == (supply, user, loan, Err::<(), ErrorCode>(ErrorCode::InsufficientFunds)),
{
}

/// A deposit is fail-atomic, and on success credits the supply pool by
/// exactly the deposited amount.
pub proof fn lemma_deposit_supply_change(
    supply: SupplyAccount,
    user: UserView,
    amount: u64,
    now: i64,
)
    ensures
        ({
            let (s2, u2, r) = spec_deposit(supply, user, amount, now);
            &&& r is Ok ==> s2.total_balance == supply.total_balance + amount
            &&& r is Err ==> s2 == supply && u2 == user
        }),
{
}

/// A withdrawal is fail-atomic, and on success debits the supply pool by
/// exactly the withdrawn amount.
pub proof fn lemma_withdraw_supply_change(
    supply: SupplyAccount,
    user: UserView,
    amount: u64,
    now: i64,
)
    ensures
        ({
            let (s2, u2, r) = spec_withdraw(supply, user, amount, now);
            &&& r is Ok ==> s2.total_balance == supply.total_balance - amount
            &&& r is Err ==> s2 == supply && u2 == user
        }),
{
}

/// A loan request is fail-atomic, and on success debits the supply pool by
/// exactly the borrowed amount.
pub proof fn lemma_request_loan_supply_change(
    supply: SupplyAccount,
    user: UserView,
    loan: LoanAccount,
    amount: u64,
    interest_rate: u64,
    loan_term: i64,
    now: i64,
)
    ensures
        ({
            let (s2, u2, l2, r) = spec_request_loan(
                supply, user, loan, amount, interest_rate, loan_term, now,
            );
            &&& r is Ok ==> s2.total_balance == supply.total_balance - amount
            &&& r is Err ==> s2 == supply && u2 == user && l2 == loan
        }),
{
}

/// A repayment is fail-atomic, and on success credits the supply pool by
/// exactly the full repayment amount, overpayment included.
pub proof fn lemma_repay_loan_supply_change(
    supply: SupplyAccount,
    user: UserView,
    loan: LoanAccount,
    repayment_amount: u64,
)
    ensures
        ({
            let (s2, u2, l2, r) = spec_repay_loan(supply, user, loan, repayment_amount);
            &&& r is Ok ==> s2.total_balance == supply.total_balance + repayment_amount
            &&& r is Err ==> s2 == supply && u2 == user && l2 == loan
        }),
{
}

/// After a successful repayment, a second repayment of the same slot fails
/// with `LoanAlreadyRepaid` and changes nothing, whatever amount it names.
pub proof fn lemma_second_repay_fails(
    supply: SupplyAccount,
    user: UserView,
    loan: LoanAccount,
    first_amount: u64,
    second_amount: u64,
)
    requires
        spec_repay_loan(supply, user, loan, first_amount).3 is Ok,
    ensures
        ({
            let (s1, u1, l1, _) = spec_repay_loan(supply, user, loan, first_amount);
            spec_repay_loan(s1, u1, l1, second_amount)
                == (s1, u1, l1, Err::<(), ErrorCode>(ErrorCode::LoanAlreadyRepaid))
        }),
{
}

/// While a loan is active, no further loan is issued: the slot and every
/// other record stay unchanged and the request fails.
pub proof fn lemma_no_loan_issued_while_active(
    supply: SupplyAccount,
    user: UserView,
    loan: LoanAccount,
    amount: u64,
    interest_rate: u64,
    loan_term: i64,
    now: i64,
)
    requires
        loan.state is Active,
    ensures
        ({
            let (s2, u2, l2, r) = spec_request_loan(
                supply, user, loan, amount, interest_rate, loan_term, now,
            );
            &&& r is Err
            &&& s2 == supply
            &&& u2 == user
            &&& l2 == loan
        }),
{
}

/// A loan request that passes the amount and supply guards while a loan is
/// already active fails with exactly `ActiveLoanExists`.
pub proof fn lemma_active_loan_reported(
    supply: SupplyAccount,
    user: UserView,
    loan: LoanAccount,
    amount: u64,
    interest_rate: u64,
    loan_term: i64,
    now: i64,
)
    requires
        loan.state is Active,
        amount > 0,
        amount <= supply.total_balance,
    ensures
        spec_request_loan(supply, user, loan, amount, interest_rate, loan_term, now)
            == (supply, user, loan, Err::<(), ErrorCode>(ErrorCode::ActiveLoanExists)),
{
}

/// A deposit into a full history fails with `HistoryFull` and leaves the
/// existing entries, the balance and the supply pool untouched.
pub proof fn lemma_full_history_blocks_deposit(
    supply: SupplyAccount,
    user: UserView,
    amount: u64,
    now: i64,
)
    requires
        user.history.len() >= MAX_HISTORY,
    ensures
        spec_deposit(supply, user, amount, now)
            == (supply, user, Err::<(), ErrorCode>(ErrorCode::HistoryFull)),
{
}

/// A withdrawal from a full history, when funds and supply would otherwise
/// allow it, fails with `HistoryFull` and leaves everything untouched.
pub proof fn lemma_full_history_blocks_withdraw(
    supply: SupplyAccount,
    user: UserView,
    amount: u64,
    now: i64,
)
    requires
        user.history.len() >= MAX_HISTORY,
        amount <= user.balance,
        amount <= supply.total_balance,
    ensures
        spec_withdraw(supply, user, amount, now)
            == (supply, user, Err::<(), ErrorCode>(ErrorCode::HistoryFull)),
{
}

/// A loan request keeps the user's loan flag in lockstep with the slot:
/// if they agreed before the call, they agree after it.
pub proof fn lemma_request_loan_keeps_link(
    supply: SupplyAccount,
    user: UserView,
    loan: LoanAccount,
    amount: u64,
    interest_rate: u64,
    loan_term: i64,
    now: i64,
)
    requires
        loan_link_ok(user, loan),
    ensures
        ({
            let (s2, u2, l2, r) = spec_request_loan(
                supply, user, loan, amount, interest_rate, loan_term, now,
            );
            loan_link_ok(u2, l2)
        }),
{
}

/// A repayment keeps the user's loan flag in lockstep with the slot:
/// if they agreed before the call, they agree after it.
pub proof fn lemma_repay_loan_keeps_link(
    supply: SupplyAccount,
    user: UserView,
    loan: LoanAccount,
    repayment_amount: u64,
)
    requires
        loan_link_ok(user, loan),
    ensures
        ({
            let (s2, u2, l2, r) = spec_repay_loan(supply, user, loan, repayment_amount);
            loan_link_ok(u2, l2)
        }),
{
}

} // verus!
