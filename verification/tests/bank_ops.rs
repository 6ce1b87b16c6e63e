use bank::errors::ErrorCode;
use bank::handlers::{deposit, initialize_supply, repay_loan, request_loan, withdraw};
use bank::loan::{initialize_loan_account, repayment_due, LoanAccount, LoanState};
use bank::supply::SupplyAccount;
use bank::user::{
    balance_matches_history, ensure_user, Transaction, TransactionType, UserAccount, MAX_HISTORY,
};

fn fresh_bank() -> (SupplyAccount, UserAccount, LoanAccount) {
    let mut supply = SupplyAccount { total_balance: 0 };
    let user = initialize_supply(&mut supply, None, 0);
    let loan = initialize_loan_account(None, [7u8; 32]);
    (supply, user, loan)
}

#[test]
fn end_to_end_scenario() {
    let (mut supply, mut user, mut loan) = fresh_bank();
    assert_eq!(supply.total_balance, 0);

    assert_eq!(deposit(&mut supply, &mut user, 1000, 100), Ok(()));
    assert_eq!(user.balance, 1000);
    assert_eq!(supply.total_balance, 1000);
    assert_eq!(user.transaction_history.len(), 1);
    assert_eq!(
        user.transaction_history[0],
        Transaction { txn_type: TransactionType::Deposit, amount: 1000, timestamp: 100 }
    );

    assert_eq!(withdraw(&mut supply, &mut user, 400, 200), Ok(()));
    assert_eq!(user.balance, 600);
    assert_eq!(supply.total_balance, 600);
    assert_eq!(
        user.transaction_history[1],
        Transaction { txn_type: TransactionType::Withdraw, amount: 400, timestamp: 200 }
    );

    assert_eq!(request_loan(&mut supply, &mut user, &mut loan, 500, 10, 86400, 300), Ok(()));
    assert_eq!(supply.total_balance, 100);
    assert!(user.has_loan_account);
    assert_eq!(
        loan.state,
        LoanState::Active {
            principal: 500,
            interest_rate_percent: 10,
            start_time: 300,
            end_time: 300 + 86400,
        }
    );

    assert_eq!(repay_loan(&mut supply, &mut user, &mut loan, 550), Ok(()));
    assert_eq!(supply.total_balance, 650);
    assert_eq!(loan.state, LoanState::Available);
    assert!(!user.has_loan_account);
    assert_eq!(user.balance, 600);
}

#[test]
fn repayment_math() {
    let (mut supply, mut user, mut loan) = fresh_bank();
    supply.total_balance = 500;
    assert_eq!(request_loan(&mut supply, &mut user, &mut loan, 500, 10, 3600, 0), Ok(()));

    assert_eq!(
        repay_loan(&mut supply, &mut user, &mut loan, 549),
        Err(ErrorCode::InvalidRepaymentAmount)
    );
    assert!(matches!(loan.state, LoanState::Active { .. }));
    assert_eq!(supply.total_balance, 0);

    assert_eq!(repay_loan(&mut supply, &mut user, &mut loan, 550), Ok(()));
    assert_eq!(loan.state, LoanState::Available);
    assert_eq!(supply.total_balance, 550);
}

#[test]
fn repayment_due_exact_values() {
    assert_eq!(repayment_due(500, 10), 550);
    assert_eq!(repayment_due(0, 75), 0);
    // interest below one unit is rounded down to nothing
    assert_eq!(repayment_due(7, 3), 7);
    assert_eq!(repayment_due(99, 1), 99);
    assert_eq!(repayment_due(100, 1), 101);
    assert_eq!(
        repayment_due(1_000_000_000_000_000_000, 250),
        3_500_000_000_000_000_000
    );
}

#[test]
fn second_repay_fails() {
    let (mut supply, mut user, mut loan) = fresh_bank();
    supply.total_balance = 100;
    assert_eq!(request_loan(&mut supply, &mut user, &mut loan, 100, 0, 60, 0), Ok(()));
    assert_eq!(repay_loan(&mut supply, &mut user, &mut loan, 100), Ok(()));

    let supply_before = supply;
    let user_before = user.clone();
    let loan_before = loan;
    assert_eq!(
        repay_loan(&mut supply, &mut user, &mut loan, 100),
        Err(ErrorCode::LoanAlreadyRepaid)
    );
    assert_eq!(supply, supply_before);
    assert_eq!(user, user_before);
    assert_eq!(loan, loan_before);
}

#[test]
fn second_request_while_active_fails() {
    let (mut supply, mut user, mut loan) = fresh_bank();
    supply.total_balance = 1000;
    assert_eq!(request_loan(&mut supply, &mut user, &mut loan, 400, 5, 60, 0), Ok(()));

    let supply_before = supply;
    let user_before = user.clone();
    let loan_before = loan;
    assert_eq!(
        request_loan(&mut supply, &mut user, &mut loan, 100, 5, 60, 1),
        Err(ErrorCode::ActiveLoanExists)
    );
    assert_eq!(supply, supply_before);
    assert_eq!(user, user_before);
    assert_eq!(loan, loan_before);
}

#[test]
fn history_cap_reached() {
    let (mut supply, mut user, _) = fresh_bank();
    for i in 0..MAX_HISTORY {
        assert_eq!(deposit(&mut supply, &mut user, 10, i as i64), Ok(()));
    }
    assert_eq!(user.transaction_history.len(), MAX_HISTORY);
    assert_eq!(user.balance, 10 * MAX_HISTORY as u64);

    let history_before = user.transaction_history.clone();
    let balance_before = user.balance;
    let supply_before = supply;

    assert_eq!(deposit(&mut supply, &mut user, 10, 555), Err(ErrorCode::HistoryFull));
    assert_eq!(withdraw(&mut supply, &mut user, 10, 556), Err(ErrorCode::HistoryFull));

    assert_eq!(user.transaction_history, history_before);
    assert_eq!(user.balance, balance_before);
    assert_eq!(supply, supply_before);
}

#[test]
fn withdraw_over_balance_fails() {
    let (mut supply, mut user, _) = fresh_bank();
    assert_eq!(deposit(&mut supply, &mut user, 300, 1), Ok(()));
    assert_eq!(
        withdraw(&mut supply, &mut user, 301, 2),
        Err(ErrorCode::InsufficientFunds)
    );
    assert_eq!(user.balance, 300);
    assert_eq!(supply.total_balance, 300);
    assert_eq!(user.transaction_history.len(), 1);
}

#[test]
fn withdraw_over_supply_fails() {
    // a granted loan drains the shared pool below one depositor's balance
    let (mut supply, mut depositor, mut loan) = fresh_bank();
    let mut borrower = ensure_user(None);
    assert_eq!(deposit(&mut supply, &mut depositor, 1000, 1), Ok(()));
    assert_eq!(
        request_loan(&mut supply, &mut borrower, &mut loan, 900, 10, 60, 2),
        Ok(())
    );
    assert_eq!(supply.total_balance, 100);

    assert_eq!(
        withdraw(&mut supply, &mut depositor, 500, 3),
        Err(ErrorCode::InsufficientReserve)
    );
    assert_eq!(depositor.balance, 1000);
    assert_eq!(supply.total_balance, 100);
}

#[test]
fn deposit_overflowing_supply_fails() {
    let mut supply = SupplyAccount { total_balance: u64::MAX };
    let mut user = ensure_user(None);
    assert_eq!(deposit(&mut supply, &mut user, 1, 0), Err(ErrorCode::ArithmeticOverflow));
    assert_eq!(supply.total_balance, u64::MAX);
    assert_eq!(user.balance, 0);
    assert!(user.transaction_history.is_empty());
}

#[test]
fn deposit_overflowing_balance_fails() {
    let mut supply = SupplyAccount { total_balance: 0 };
    // a ledger whose one recorded deposit already holds the largest balance
    let mut user = UserAccount {
        balance: u64::MAX,
        transaction_history: vec![Transaction {
            txn_type: TransactionType::Deposit,
            amount: u64::MAX,
            timestamp: 0,
        }],
        has_loan_account: false,
    };
    assert_eq!(deposit(&mut supply, &mut user, 1, 1), Err(ErrorCode::ArithmeticOverflow));
    assert_eq!(user.balance, u64::MAX);
    assert_eq!(user.transaction_history.len(), 1);
    assert_eq!(supply.total_balance, 0);
}

#[test]
fn repay_overflowing_supply_fails() {
    let mut supply = SupplyAccount { total_balance: u64::MAX };
    let mut user = ensure_user(None);
    user.has_loan_account = true;
    let mut loan = LoanAccount {
        borrower: [1u8; 32],
        state: LoanState::Active {
            principal: 1,
            interest_rate_percent: 0,
            start_time: 0,
            end_time: 9,
        },
    };
    assert_eq!(
        repay_loan(&mut supply, &mut user, &mut loan, 1),
        Err(ErrorCode::ArithmeticOverflow)
    );
    assert_eq!(supply.total_balance, u64::MAX);
    assert!(matches!(loan.state, LoanState::Active { .. }));
    assert!(user.has_loan_account);
}

#[test]
fn request_loan_zero_amount_fails() {
    let (mut supply, mut user, mut loan) = fresh_bank();
    supply.total_balance = 100;
    assert_eq!(
        request_loan(&mut supply, &mut user, &mut loan, 0, 10, 60, 0),
        Err(ErrorCode::InvalidLoanAmount)
    );
    assert_eq!(supply.total_balance, 100);
    assert_eq!(loan.state, LoanState::Available);
    assert!(!user.has_loan_account);
}

#[test]
fn request_loan_over_supply_fails() {
    let (mut supply, mut user, mut loan) = fresh_bank();
    supply.total_balance = 99;
    assert_eq!(
        request_loan(&mut supply, &mut user, &mut loan, 100, 10, 60, 0),
        Err(ErrorCode::InsufficientFunds)
    );
    assert_eq!(supply.total_balance, 99);
    assert_eq!(loan.state, LoanState::Available);
}

#[test]
fn repay_zero_amount_fails() {
    let (mut supply, mut user, mut loan) = fresh_bank();
    supply.total_balance = 50;
    assert_eq!(request_loan(&mut supply, &mut user, &mut loan, 50, 10, 60, 0), Ok(()));
    assert_eq!(
        repay_loan(&mut supply, &mut user, &mut loan, 0),
        Err(ErrorCode::InvalidRepaymentAmount)
    );
    assert!(matches!(loan.state, LoanState::Active { .. }));
}

#[test]
fn repay_without_loan_fails() {
    let (mut supply, mut user, mut loan) = fresh_bank();
    assert_eq!(
        repay_loan(&mut supply, &mut user, &mut loan, 10),
        Err(ErrorCode::LoanAlreadyRepaid)
    );
    assert_eq!(loan.state, LoanState::Available);
}

#[test]
fn ensure_user_is_idempotent() {
    let fresh = ensure_user(None);
    assert_eq!(fresh.balance, 0);
    assert!(fresh.transaction_history.is_empty());
    assert!(!fresh.has_loan_account);

    let mut supply = SupplyAccount { total_balance: 0 };
    let mut existing = fresh;
    assert_eq!(deposit(&mut supply, &mut existing, 42, 9), Ok(()));
    let kept = ensure_user(Some(existing.clone()));
    assert_eq!(kept, existing);
}

#[test]
fn initialize_loan_account_is_idempotent() {
    let fresh = initialize_loan_account(None, [3u8; 32]);
    assert_eq!(fresh.borrower, [3u8; 32]);
    assert_eq!(fresh.state, LoanState::Available);

    let active = LoanAccount {
        borrower: [3u8; 32],
        state: LoanState::Active {
            principal: 10,
            interest_rate_percent: 5,
            start_time: 1,
            end_time: 2,
        },
    };
    let kept = initialize_loan_account(Some(active), [9u8; 32]);
    assert_eq!(kept, active);
}

#[test]
fn history_replay_validates_ledger() {
    let (mut supply, mut user, _) = fresh_bank();
    assert!(balance_matches_history(&user));

    assert_eq!(deposit(&mut supply, &mut user, 100, 1), Ok(()));
    assert_eq!(withdraw(&mut supply, &mut user, 40, 2), Ok(()));
    assert!(balance_matches_history(&user));

    let mut corrupted = user.clone();
    corrupted.balance = 61;
    assert!(!balance_matches_history(&corrupted));

    let mut padded = user.clone();
    padded.transaction_history.push(Transaction {
        txn_type: TransactionType::Withdraw,
        amount: 60,
        timestamp: 3,
    });
    assert!(!balance_matches_history(&padded));
}

#[test]
fn initialize_supply_overwrites() {
    let mut supply = SupplyAccount { total_balance: 0 };
    let user = initialize_supply(&mut supply, None, 777);
    assert_eq!(supply.total_balance, 777);
    assert_eq!(user.balance, 0);

    // re-invocation simply overwrites the pool and keeps the record
    let mut funded = user;
    assert_eq!(deposit(&mut supply, &mut funded, 60, 4), Ok(()));
    let kept = initialize_supply(&mut supply, Some(funded.clone()), 5);
    assert_eq!(supply.total_balance, 5);
    assert_eq!(kept, funded);
}
