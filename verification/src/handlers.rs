use vstd::prelude::*;

use crate::errors::ErrorCode;
use crate::loan::{LoanAccount, LoanState, repayment_due, total_repayment_due};
use crate::supply::SupplyAccount;
use crate::user::{
    MAX_HISTORY, Transaction, TransactionType, UserAccount, UserView, fresh_user_view,
    lemma_signed_sum_push,
};

verus! {

/// The exact outcome of a deposit: either every listed guard holds and the
/// supply and the balance both grow by `amount` with one deposit transaction
/// appended, or the first failing guard's error is returned and nothing
/// changes.
///
/// Guard order: the history cap first, then the two overflow guards
/// (supply side, then balance side).
pub open spec fn spec_deposit(supply: SupplyAccount, user: UserView, amount: u64, now: i64)
    -> (SupplyAccount, UserView, Result<(), ErrorCode>)
{
    if user.history.len() >= MAX_HISTORY {
        (supply, user, Err(ErrorCode::HistoryFull))
    } else if supply.total_balance + amount > u64::MAX {
        (supply, user, Err(ErrorCode::ArithmeticOverflow))
    } else if user.balance + amount > u64::MAX {
        (supply, user, Err(ErrorCode::ArithmeticOverflow))
    } else {
        (
            SupplyAccount { total_balance: (supply.total_balance + amount) as u64 },
            UserView {
                balance: user.balance + amount,
                history: user.history.push(
                    Transaction { txn_type: TransactionType::Deposit, amount, timestamp: now },
                ),
                has_loan_account: user.has_loan_account,
            },
            Ok(()),
        )
    }
}

/// The exact outcome of a withdrawal: either every listed guard holds and
/// the supply and the balance both shrink by `amount` with one withdrawal
/// transaction appended, or the first failing guard's error is returned and
/// nothing changes.
///
/// Guard order: the user's balance first, then the supply pool, then the
/// history cap.
pub open spec fn spec_withdraw(supply: SupplyAccount, user: UserView, amount: u64, now: i64)
    -> (SupplyAccount, UserView, Result<(), ErrorCode>)
{
    if amount > user.balance {
        (supply, user, Err(ErrorCode::InsufficientFunds))
    } else if amount > supply.total_balance {
        (supply, user, Err(ErrorCode::InsufficientReserve))
    } else if user.history.len() >= MAX_HISTORY {
        (supply, user, Err(ErrorCode::HistoryFull))
    } else {
        (
            SupplyAccount { total_balance: (supply.total_balance - amount) as u64 },
            UserView {
                balance: user.balance - amount,
                history: user.history.push(
                    Transaction { txn_type: TransactionType::Withdraw, amount, timestamp: now },
                ),
                has_loan_account: user.has_loan_account,
            },
            Ok(()),
        )
    }
}

/// The exact outcome of a loan request: either every listed guard holds and
/// the supply is debited by `amount` while the slot becomes active with the
/// requested terms and the user's loan flag is raised, or the first failing
/// guard's error is returned and nothing changes.
///
/// Guard order: a zero amount first, then the supply pool, then the state
/// of the loan slot.
pub open spec fn spec_request_loan(
    supply: SupplyAccount,
    user: UserView,
    loan: LoanAccount,
    amount: u64,
    interest_rate: u64,
    loan_term: i64,
    now: i64,
) -> (SupplyAccount, UserView, LoanAccount, Result<(), ErrorCode>)
{
    if amount == 0 {
        (supply, user, loan, Err(ErrorCode::InvalidLoanAmount))
    } else if amount > supply.total_balance {
        (supply, user, loan, Err(ErrorCode::InsufficientFunds))
    } else if loan.state is Active {
        (supply, user, loan, Err(ErrorCode::ActiveLoanExists))
    } else {
        (
            SupplyAccount { total_balance: (supply.total_balance - amount) as u64 },
            UserView { balance: user.balance, history: user.history, has_loan_account: true },
            LoanAccount {
                borrower: loan.borrower,
                state: LoanState::Active {
                    principal: amount,
                    interest_rate_percent: interest_rate,
                    start_time: now,
                    end_time: (now + loan_term) as i64,
                },
            },
            Ok(()),
        )
    }
}

/// The exact outcome of a repayment: either every listed guard holds and the
/// full repayment (overpayment included) is credited to the supply while the
/// slot returns to available and the user's loan flag is lowered, or the
/// first failing guard's error is returned and nothing changes.
///
/// Guard order: the slot must be active first, then the amount must be
/// nonzero and cover the amount due, then the supply-side overflow guard.
pub open spec fn spec_repay_loan(
    supply: SupplyAccount,
    user: UserView,
    loan: LoanAccount,
    repayment_amount: u64,
) -> (SupplyAccount, UserView, LoanAccount, Result<(), ErrorCode>)
{
    match loan.state {
        LoanState::Available => (supply, user, loan, Err(ErrorCode::LoanAlreadyRepaid)),
        LoanState::Active { principal, interest_rate_percent, .. } => {
            if repayment_amount == 0 {
                (supply, user, loan, Err(ErrorCode::InvalidRepaymentAmount))
            } else if (repayment_amount as int)
                < total_repayment_due(principal as int, interest_rate_percent as int) {
                (supply, user, loan, Err(ErrorCode::InvalidRepaymentAmount))
            } else if supply.total_balance + repayment_amount > u64::MAX {
                (supply, user, loan, Err(ErrorCode::ArithmeticOverflow))
            } else {
                (
                    SupplyAccount {
                        total_balance: (supply.total_balance + repayment_amount) as u64,
                    },
                    UserView {
                        balance: user.balance,
                        history: user.history,
                        has_loan_account: false,
                    },
                    LoanAccount { borrower: loan.borrower, state: LoanState::Available },
                    Ok(()),
                )
            }
        }
    }
}

/// Sets the supply pool to `amount` and creates the caller's user record on
/// first contact: an existing record comes back unchanged, an absent one as
/// a fresh zero-balance record.
pub fn initialize_supply(
    supply: &mut SupplyAccount,
    user_account: Option<UserAccount>,
    amount: u64,
) -> (r: UserAccount)
    ensures
        final(supply).total_balance == amount,
        (match user_account {
            Some(u) => r@ == u@,
            None => r@ == fresh_user_view(),
        }),
{
    supply.initialize(amount);
    crate::user::ensure_user(user_account)
}

/// Moves `amount` from the user's wallet into the bank: credits the supply
/// pool and the user's balance and appends a deposit transaction stamped
/// `now`, or fails without changing either record.
pub fn deposit(
    supply: &mut SupplyAccount,
    user_account: &mut UserAccount,
    amount: u64,
    now: i64,
) -> (result: Result<(), ErrorCode>)
    requires
        amount > 0,
        old(user_account).wf(),
    ensures
        final(user_account).wf(),
        (*final(supply), final(user_account)@, result)
            == spec_deposit(*old(supply), old(user_account)@, amount, now),
{
    if user_account.transaction_history.len() >= MAX_HISTORY {
        return Err(ErrorCode::HistoryFull);
    }
    if amount > u64::MAX - user_account.balance {
        // The user-side overflow guard must run before the supply is
        // credited: failing afterwards would leave a half-applied deposit.
        return Err(ErrorCode::ArithmeticOverflow);
    }
    match supply.credit(amount) {
        Ok(()) => {}
        Err(e) => {
            return Err(e);
        }
    }
    user_account.balance = user_account.balance + amount;
    let txn = Transaction { txn_type: TransactionType::Deposit, amount, timestamp: now };
    user_account.transaction_history.push(txn);
    proof {
        lemma_signed_sum_push(old(user_account)@.history, txn);
    }
    Ok(())
}

/// Moves `amount` from the bank back to the user's wallet: debits the supply
/// pool and the user's balance and appends a withdrawal transaction stamped
/// `now`, or fails without changing either record.
pub fn withdraw(
    supply: &mut SupplyAccount,
    user_account: &mut UserAccount,
    amount: u64,
    now: i64,
) -> (result: Result<(), ErrorCode>)
    requires
        amount > 0,
        old(user_account).wf(),
    ensures
        final(user_account).wf(),
        (*final(supply), final(user_account)@, result)
            == spec_withdraw(*old(supply), old(user_account)@, amount, now),
{
    if amount > user_account.balance {
        return Err(ErrorCode::InsufficientFunds);
    }
    if user_account.transaction_history.len() >= MAX_HISTORY {
        // The cap is tested before the supply is debited so that a full
        // history aborts the operation with no record touched; the supply
        // guard still reports first when both would fail.
        if amount > supply.total_balance {
            return Err(ErrorCode::InsufficientReserve);
        }
        return Err(ErrorCode::HistoryFull);
    }
    match supply.debit(amount) {
        Ok(()) => {}
        Err(e) => {
            return Err(e);
        }
    }
    user_account.balance = user_account.balance - amount;
    let txn = Transaction { txn_type: TransactionType::Withdraw, amount, timestamp: now };
    user_account.transaction_history.push(txn);
    proof {
        lemma_signed_sum_push(old(user_account)@.history, txn);
    }
    Ok(())
}

/// Issues a loan: debits the supply pool by `amount`, puts the slot into the
/// active state with the requested terms (`end_time` is `now + loan_term`),
/// and raises the user's loan flag — or fails without changing any record.
pub fn request_loan(
    supply: &mut SupplyAccount,
    user_account: &mut UserAccount,
    loan_account: &mut LoanAccount,
    amount: u64,
    interest_rate: u64,
    loan_term: i64,
    now: i64,
) -> (result: Result<(), ErrorCode>)
    requires
        old(user_account).wf(),
        0 <= now,
        0 <= loan_term,
        now + loan_term <= i64::MAX,
    ensures
        final(user_account).wf(),
        (*final(supply), final(user_account)@, *final(loan_account), result)
            == spec_request_loan(
                *old(supply), old(user_account)@, *old(loan_account),
                amount, interest_rate, loan_term, now,
            ),
{
    if amount == 0 {
        return Err(ErrorCode::InvalidLoanAmount);
    }
    if amount > supply.total_balance {
        return Err(ErrorCode::InsufficientFunds);
    }
    match loan_account.state {
        LoanState::Active { .. } => {
            return Err(ErrorCode::ActiveLoanExists);
        }
        LoanState::Available => {}
    }
    match supply.debit(amount) {
        Ok(()) => {}
        Err(_) => {
            proof {
                // The supply guard above makes the debit infallible here.
                assert(false);
            }
            return Err(ErrorCode::InsufficientReserve);
        }
    }
    let start_time = now;
    let end_time = now + loan_term;
    loan_account.state = LoanState::Active {
        principal: amount,
        interest_rate_percent: interest_rate,
        start_time,
        end_time,
    };
    user_account.has_loan_account = true;
    Ok(())
}

/// Settles a loan: checks that the slot is active and that the repayment
/// covers the amount due (principal plus interest, overpayment accepted),
/// credits the full repayment to the supply pool, returns the slot to
/// available, and lowers the user's loan flag — or fails without changing
/// any record.
pub fn repay_loan(
    supply: &mut SupplyAccount,
    user_account: &mut UserAccount,
    loan_account: &mut LoanAccount,
    repayment_amount: u64,
) -> (result: Result<(), ErrorCode>)
    requires
        old(user_account).wf(),
    ensures
        final(user_account).wf(),
        (*final(supply), final(user_account)@, *final(loan_account), result)
            == spec_repay_loan(
                *old(supply), old(user_account)@, *old(loan_account), repayment_amount,
            ),
{
    let (principal, interest_rate_percent) = match loan_account.state {
        LoanState::Available => {
            return Err(ErrorCode::LoanAlreadyRepaid);
        }
        LoanState::Active { principal, interest_rate_percent, .. } => {
            (principal, interest_rate_percent)
        }
    };
    if repayment_amount == 0 {
        return Err(ErrorCode::InvalidRepaymentAmount);
    }
    let due = repayment_due(principal, interest_rate_percent);
    if (repayment_amount as u128) < due {
        return Err(ErrorCode::InvalidRepaymentAmount);
    }
    match supply.credit(repayment_amount) {
        Ok(()) => {}
        Err(e) => {
            return Err(e);
        }
    }
    loan_account.state = LoanState::Available;
    user_account.has_loan_account = false;
    Ok(())
}

} // verus!
