use vstd::prelude::*;

verus! {

/// The most transactions one user's history can hold: the record's storage
/// is sized for exactly this many entries and cannot grow further, so the
/// cap is surfaced as an explicit `HistoryFull` error, never by truncation.
pub const MAX_HISTORY: usize = 100;

/// Whether a transaction moved money into or out of a user's balance.
#[derive(Clone, Copy, PartialEq, Eq, Structural, Debug)]
pub enum TransactionType {
    Deposit,
    Withdraw,
}

/// One entry of a user's transaction history, immutable once appended.
#[derive(Clone, Copy, PartialEq, Eq, Structural, Debug)]
pub struct Transaction {
    pub txn_type: TransactionType,
    pub amount: u64,
    pub timestamp: i64,
}

/// The signed contribution of one transaction to a balance:
/// a deposit adds its amount, a withdrawal subtracts it.
pub open spec fn signed_amount(t: Transaction) -> int {
    match t.txn_type {
        TransactionType::Deposit => t.amount as int,
        TransactionType::Withdraw => -(t.amount as int),
    }
}

/// The balance a history replays to: the sum of the signed amounts of its
/// transactions, in order.
pub open spec fn signed_sum(h: Seq<Transaction>) -> int
    decreases h.len(),
{
    if h.len() == 0 {
        0
    } else {
        signed_sum(h.drop_last()) + signed_amount(h.last())
    }
}

/// Appending one transaction moves the replayed sum by exactly that
/// transaction's signed amount.
pub proof fn lemma_signed_sum_push(h: Seq<Transaction>, t: Transaction)
    ensures
        signed_sum(h.push(t)) == signed_sum(h) + signed_amount(t),
{
    let hp = h.push(t);
    assert(hp.drop_last() =~= h);
    assert(hp.last() == t);
}

/// One user's ledger: a balance, the ordered append-only history that
/// explains it, and a flag mirroring whether the user's loan slot is active.
#[derive(Clone, PartialEq, Eq, Debug)]
pub struct UserAccount {
    pub balance: u64,
    pub transaction_history: Vec<Transaction>,
    pub has_loan_account: bool,
}

/// The mathematical model of a [`UserAccount`].
pub struct UserView {
    pub balance: int,
    pub history: Seq<Transaction>,
    pub has_loan_account: bool,
}

impl View for UserAccount {
    type V = UserView;

    open spec fn view(&self) -> UserView {
        UserView {
            balance: self.balance as int,
            history: self.transaction_history@,
            has_loan_account: self.has_loan_account,
        }
    }
}

impl UserView {
    /// Well-formedness of a user record: the balance is exactly the signed
    /// sum of the history replayed in order (so it is never negative), the
    /// balance fits the 64-bit range, and the history respects its cap.
    pub open spec fn wf(self) -> bool {
        &&& self.balance == signed_sum(self.history)
        &&& 0 <= self.balance <= u64::MAX
        &&& self.history.len() <= MAX_HISTORY
    }
}

/// The model of a freshly created user record: zero balance, empty history,
/// no active loan.
pub open spec fn fresh_user_view() -> UserView {
    UserView { balance: 0, history: Seq::<Transaction>::empty(), has_loan_account: false }
}

impl UserAccount {
    /// Shorthand for well-formedness of this record's model.
    pub open spec fn wf(&self) -> bool {
        self@.wf()
    }

    /// A freshly created user record.
    pub fn new() -> (r: UserAccount)
        ensures
            r@ == fresh_user_view(),
            r.wf(),
    {
        let r = UserAccount { balance: 0, transaction_history: Vec::new(), has_loan_account: false };
        proof {
            assert(r@.history =~= fresh_user_view().history);
            assert(r@ == fresh_user_view());
        }
        r
    }
}

/// Decides well-formedness of a user record by replaying its history: true
/// exactly when the history respects its cap and the recorded balance is
/// the signed sum of the transactions in order.
///
/// Callers that receive a record from storage can use this to test the
/// handlers' well-formedness precondition before trusting the record.
pub fn balance_matches_history(user: &UserAccount) -> (r: bool)
    ensures
        r == user.wf(),
{
    let n = user.transaction_history.len();
    if n > MAX_HISTORY {
        return false;
    }
    let mut sum: i128 = 0;
    let mut i: usize = 0;
    while i < n
        invariant
            n == user.transaction_history@.len() <= MAX_HISTORY,
            i <= n,
            sum == signed_sum(user.transaction_history@.subrange(0, i as int)),
            -(i as int) * (u64::MAX as int) <= sum <= (i as int) * (u64::MAX as int),
        decreases n - i,
    {
        let t = user.transaction_history[i];
        proof {
            let h = user.transaction_history@;
            assert(h.subrange(0, i + 1).drop_last() =~= h.subrange(0, i as int));
            assert(h.subrange(0, i + 1).last() == h[i as int]);
        }
        match t.txn_type {
            TransactionType::Deposit => {
                sum = sum + t.amount as i128;
            }
            TransactionType::Withdraw => {
                sum = sum - t.amount as i128;
            }
        }
        i = i + 1;
    }
    proof {
        assert(user.transaction_history@.subrange(0, n as int) =~= user.transaction_history@);
    }
    sum == user.balance as i128
}

/// Creates a user record on first contact, idempotently: an existing record
/// is returned unchanged, and only an absent one is replaced by a fresh
/// zero-balance record.
pub fn ensure_user(existing: Option<UserAccount>) -> (r: UserAccount)
    ensures
        (match existing {
            Some(u) => r@ == u@,
            None => r@ == fresh_user_view(),
        }),
{
    match existing {
        Some(u) => u,
        None => UserAccount::new(),
    }
}

} // verus!
