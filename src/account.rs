use std::collections::HashMap;

use crate::amount::{checked_add, checked_sub, decimal_difference, decimal_sum, Amount};
use crate::model::{ClientId, InputRecord, InputRecordType, OutputRecord, TransactionId};
use vstd::prelude::*;

verus! {

broadcast use vstd::std_specs::hash::group_hash_axioms;

/// Where a deposit or withdrawal stands in its dispute lifecycle.
#[derive(Clone, Copy, Debug, PartialEq, Eq, Structural)]
pub enum TransactionState {
    Valid,
    Dispute,
    Resolved,
    ChargedBack,
}

#[derive(Clone, Copy, Debug, PartialEq, Eq, Structural)]
pub enum TransactionType {
    Deposit,
    Withdrawal,
}

/// A recorded deposit or withdrawal. The amount carries the direction:
/// positive for a deposit, the negated request for a withdrawal.
#[derive(Clone, Copy, Debug, PartialEq, Eq, Structural)]
pub struct Transaction {
    pub state: TransactionState,
    pub amount: Amount,
    pub kind: TransactionType,
}

/// Why an event was not applied to an account.
#[derive(Clone, Copy, Debug, PartialEq, Eq, Structural)]
pub enum ProcessingError {
    AccountIsLocked,
    AmountMissing,
    DecimalOverflow,
    TransactionAlreadyExists(TransactionId),
    TransactionMissing(TransactionId),
    /// The state that was expected, then the state found.
    TransactionWrongState(TransactionState, TransactionState),
    /// The available funds, then the amount requested.
    WithdrawalNotEnoughMoneyAvailable(Amount, Amount),
}

/// One client's balance and the deposits and withdrawals it has recorded.
#[derive(Debug)]
pub struct Account {
    pub client_id: ClientId,
    pub transactions: HashMap<TransactionId, Transaction>,
    pub available: Amount,
    pub held: Amount,
    pub locked: bool,
}

/// The mathematical model of an `Account`.
pub struct AccountView {
    pub client_id: ClientId,
    pub transactions: Map<TransactionId, Transaction>,
    pub available: Amount,
    pub held: Amount,
    pub locked: bool,
}

impl View for Account {
    type V = AccountView;

    open spec fn view(&self) -> AccountView {
        AccountView {
            client_id: self.client_id,
            transactions: self.transactions@,
            available: self.available,
            held: self.held,
            locked: self.locked,
        }
    }
}

impl AccountView {
    /// Every amount in the account is one that a decimal can hold.
    pub open spec fn wf(self) -> bool {
        &&& self.available.wf()
        &&& self.held.wf()
        &&& forall|id: TransactionId| #[trigger]
            self.transactions.contains_key(id) ==> self.transactions[id].amount.wf()
    }

    pub open spec fn with_balance(self, available: Amount, held: Amount) -> AccountView {
        AccountView {
            client_id: self.client_id,
            transactions: self.transactions,
            available,
            held,
            locked: self.locked,
        }
    }

    pub open spec fn with_transaction(self, id: TransactionId, t: Transaction) -> AccountView {
        AccountView {
            client_id: self.client_id,
            transactions: self.transactions.insert(id, t),
            available: self.available,
            held: self.held,
            locked: self.locked,
        }
    }

    pub open spec fn with_lock(self) -> AccountView {
        AccountView {
            client_id: self.client_id,
            transactions: self.transactions,
            available: self.available,
            held: self.held,
            locked: true,
        }
    }
}

impl Account {
    pub open spec fn wf(&self) -> bool {
        self@.wf()
    }
}

/// The snapshot of an account: its total is the decimal sum of its available
/// and held funds. `None` where that sum overflows.
pub open spec fn snapshot(s: AccountView) -> Option<OutputRecord> {
    match decimal_sum(s.available, s.held) {
        Some(total) => Some(
            OutputRecord {
                client_id: s.client_id,
                available: s.available,
                held: s.held,
                total,
                locked: s.locked,
            },
        ),
        None => None,
    }
}

/// The balance after a disputed transaction is settled, whether resolved or
/// charged back: a deposit leaves `held - amount` and `available` as it was; a
/// withdrawal leaves `held - (-amount)` and `available + (-amount)`. `None` where
/// a step overflows.
pub open spec fn revert(t: Transaction, available: Amount, held: Amount) -> Option<(Amount, Amount)> {
    match t.kind {
        TransactionType::Deposit => match decimal_difference(held, t.amount) {
            Some(h) => Some((available, h)),
            None => None,
        },
        TransactionType::Withdrawal => match decimal_difference(held, t.amount.negation()) {
            Some(h) => match decimal_sum(available, t.amount.negation()) {
                Some(a) => Some((a, h)),
                None => None,
            },
            None => None,
        },
    }
}

/// Settles the disputed transaction `id`: it becomes `target`, and the account
/// is locked where `lock` is set.
pub open spec fn settle(s: AccountView, id: TransactionId, target: TransactionState, lock: bool) -> (
    Result<(), ProcessingError>,
    AccountView,
) {
    if !s.transactions.contains_key(id) {
        (Err(ProcessingError::TransactionMissing(id)), s)
    } else {
        let t = s.transactions[id];
        if t.state != TransactionState::Dispute {
            (Err(ProcessingError::TransactionWrongState(TransactionState::Dispute, t.state)), s)
        } else {
            match revert(t, s.available, s.held) {
                None => (Err(ProcessingError::DecimalOverflow), s),
                Some((a, h)) => {
                    let n = s.with_balance(a, h).with_transaction(
                        id,
                        Transaction { state: target, amount: t.amount, kind: t.kind },
                    );
                    (Ok(()), if lock { n.with_lock() } else { n })
                },
            }
        }
    }
}

/// The outcome of one event on an account: the result, and the account after it.
/// On an error the account is returned unchanged.
pub open spec fn apply(s: AccountView, rec: InputRecord) -> (Result<(), ProcessingError>, AccountView) {
    let id = rec.transaction_id;
    if s.locked {
        (Err(ProcessingError::AccountIsLocked), s)
    } else {
        match rec.kind {
            InputRecordType::Deposit => {
                if s.transactions.contains_key(id) {
                    (Err(ProcessingError::TransactionAlreadyExists(id)), s)
                } else {
                    match rec.amount {
                        None => (Err(ProcessingError::AmountMissing), s),
                        Some(a) => match decimal_sum(s.available, a) {
                            None => (Err(ProcessingError::DecimalOverflow), s),
                            Some(na) => (
                                Ok(()),
                                s.with_balance(na, s.held).with_transaction(
                                    id,
                                    Transaction {
                                        state: TransactionState::Valid,
                                        amount: a,
                                        kind: TransactionType::Deposit,
                                    },
                                ),
                            ),
                        },
                    }
                }
            },
            InputRecordType::Withdrawal => {
                if s.transactions.contains_key(id) {
                    (Err(ProcessingError::TransactionAlreadyExists(id)), s)
                } else {
                    match rec.amount {
                        None => (Err(ProcessingError::AmountMissing), s),
                        Some(a) => match decimal_difference(s.available, a) {
                            None => (Err(ProcessingError::DecimalOverflow), s),
                            Some(na) => if na.is_negative() {
                                (
                                    Err(
                                        ProcessingError::WithdrawalNotEnoughMoneyAvailable(
                                            s.available,
                                            a,
                                        ),
                                    ),
                                    s,
                                )
                            } else {
                                (
                                    Ok(()),
                                    s.with_balance(na, s.held).with_transaction(
                                        id,
                                        Transaction {
                                            state: TransactionState::Valid,
                                            amount: a.negation(),
                                            kind: TransactionType::Withdrawal,
                                        },
                                    ),
                                )
                            },
                        },
                    }
                }
            },
            InputRecordType::Dispute => {
                if !s.transactions.contains_key(id) {
                    (Err(ProcessingError::TransactionMissing(id)), s)
                } else {
                    let t = s.transactions[id];
                    if t.state != TransactionState::Valid {
                        (
                            Err(
                                ProcessingError::TransactionWrongState(
                                    TransactionState::Valid,
                                    t.state,
                                ),
                            ),
                            s,
                        )
                    } else {
                        match decimal_difference(s.available, t.amount) {
                            None => (Err(ProcessingError::DecimalOverflow), s),
                            Some(na) => match decimal_sum(s.held, t.amount) {
                                None => (Err(ProcessingError::DecimalOverflow), s),
                                Some(nh) => (
                                    Ok(()),
                                    s.with_balance(na, nh).with_transaction(
                                        id,
                                        Transaction {
                                            state: TransactionState::Dispute,
                                            amount: t.amount,
                                            kind: t.kind,
                                        },
                                    ),
                                ),
                            },
                        }
                    }
                }
            },
            InputRecordType::Resolve => settle(s, id, TransactionState::Resolved, false),
            InputRecordType::Chargeback => settle(s, id, TransactionState::ChargedBack, true),
        }
    }
}

/// The balance after settling `transaction`, as `revert` gives it, or
/// `DecimalOverflow`.
fn calculate_transaction_revert(transaction: &Transaction, available: Amount, held: Amount) -> (r:
    Result<(Amount, Amount), ProcessingError>)
    requires
        transaction.amount.wf(),
        available.wf(),
        held.wf(),
    ensures
        match revert(*transaction, available, held) {
            Some(p) => r == Ok::<(Amount, Amount), ProcessingError>(p) && p.0.wf() && p.1.wf(),
            None => r == Err::<(Amount, Amount), ProcessingError>(ProcessingError::DecimalOverflow),
        },
{
    match transaction.kind {
        TransactionType::Deposit => match checked_sub(held, transaction.amount) {
            Some(new_held) => Ok((available, new_held)),
            None => Err(ProcessingError::DecimalOverflow),
        },
        TransactionType::Withdrawal => {
            let reverted = transaction.amount.negated();
            match checked_sub(held, reverted) {
                Some(new_held) => match checked_add(available, reverted) {
                    Some(new_available) => Ok((new_available, new_held)),
                    None => Err(ProcessingError::DecimalOverflow),
                },
                None => Err(ProcessingError::DecimalOverflow),
            }
        },
    }
}

/// `Ok` where the transaction is in the `expected` state, else the error that
/// names both states.
fn check_if_state_eq(transaction: &Transaction, expected: TransactionState) -> (r: Result<
    (),
    ProcessingError,
>)
    ensures
        r == (if transaction.state == expected {
            Ok::<(), ProcessingError>(())
        } else {
            Err(ProcessingError::TransactionWrongState(expected, transaction.state))
        }),
{
    if transaction.state != expected {
        return Err(ProcessingError::TransactionWrongState(expected, transaction.state));
    }
    Ok(())
}

impl Account {
    /// An empty, unlocked account with zero balances.
    pub fn new(client_id: ClientId) -> (r: Account)
        ensures
            r@.client_id == client_id,
            r@.transactions == Map::<TransactionId, Transaction>::empty(),
            r@.available == Amount::zero_spec(),
            r@.held == Amount::zero_spec(),
            !r@.locked,
            r.wf(),
    {
        Account {
            client_id,
            transactions: HashMap::new(),
            available: Amount::zero(),
            held: Amount::zero(),
            locked: false,
        }
    }

    /// Applies one event. On success the account changes as `apply` says; on
    /// an error it is left exactly as it was.
    pub fn process_record(&mut self, record: &InputRecord) -> (r: Result<(), ProcessingError>)
        requires
            old(self).wf(),
            record.wf(),
        ensures
            (r, final(self)@) == apply(old(self)@, *record),
            final(self).wf(),
    {
        if self.locked {
            return Err(ProcessingError::AccountIsLocked);
        }
        let id = record.transaction_id;
        match record.kind {
            InputRecordType::Deposit => {
                if self.transactions.contains_key(&id) {
                    return Err(ProcessingError::TransactionAlreadyExists(id));
                }
                let amount = match record.amount {
                    Some(a) => a,
                    None => return Err(ProcessingError::AmountMissing),
                };
                let new_available = match checked_add(self.available, amount) {
                    Some(a) => a,
                    None => return Err(ProcessingError::DecimalOverflow),
                };
                self.transactions.insert(
                    id,
                    Transaction {
                        state: TransactionState::Valid,
                        amount,
                        kind: TransactionType::Deposit,
                    },
                );
                self.available = new_available;
            },
            InputRecordType::Withdrawal => {
                if self.transactions.contains_key(&id) {
                    return Err(ProcessingError::TransactionAlreadyExists(id));
                }
                let amount = match record.amount {
                    Some(a) => a,
                    None => return Err(ProcessingError::AmountMissing),
                };
                let new_available = match checked_sub(self.available, amount) {
                    Some(a) => a,
                    None => return Err(ProcessingError::DecimalOverflow),
                };
                if new_available.is_sign_negative() {
                    return Err(
                        ProcessingError::WithdrawalNotEnoughMoneyAvailable(self.available, amount),
                    );
                }
                self.transactions.insert(
                    id,
                    Transaction {
                        state: TransactionState::Valid,
                        amount: amount.negated(),
                        kind: TransactionType::Withdrawal,
                    },
                );
                self.available = new_available;
            },
            InputRecordType::Dispute => {
                let transaction = match self.transactions.get(&id) {
                    Some(t) => *t,
                    None => return Err(ProcessingError::TransactionMissing(id)),
                };
                if let Err(e) = check_if_state_eq(&transaction, TransactionState::Valid) {
                    return Err(e);
                }
                let new_available = match checked_sub(self.available, transaction.amount) {
                    Some(a) => a,
                    None => return Err(ProcessingError::DecimalOverflow),
                };
                let new_held = match checked_add(self.held, transaction.amount) {
                    Some(h) => h,
                    None => return Err(ProcessingError::DecimalOverflow),
                };
                self.transactions.insert(
                    id,
                    Transaction {
                        state: TransactionState::Dispute,
                        amount: transaction.amount,
                        kind: transaction.kind,
                    },
                );
                self.available = new_available;
                self.held = new_held;
            },
            InputRecordType::Resolve => {
                return self.settle(id, TransactionState::Resolved, false);
            },
            InputRecordType::Chargeback => {
                return self.settle(id, TransactionState::ChargedBack, true);
            },
        }
        Ok(())
    }

    /// Resolves or charges back the disputed transaction `id`.
    fn settle(&mut self, id: TransactionId, target: TransactionState, lock: bool) -> (r: Result<
        (),
        ProcessingError,
    >)
        requires
            old(self).wf(),
        ensures
            (r, final(self)@) == settle(old(self)@, id, target, lock),
            final(self).wf(),
    {
        let transaction = match self.transactions.get(&id) {
            Some(t) => *t,
            None => return Err(ProcessingError::TransactionMissing(id)),
        };
        if let Err(e) = check_if_state_eq(&transaction, TransactionState::Dispute) {
            return Err(e);
        }
        let (new_available, new_held) = match calculate_transaction_revert(
            &transaction,
            self.available,
            self.held,
        ) {
            Ok(p) => p,
            Err(e) => return Err(e),
        };
        self.transactions.insert(
            id,
            Transaction { state: target, amount: transaction.amount, kind: transaction.kind },
        );
        self.available = new_available;
        self.held = new_held;
        if lock {
            self.locked = true;
        }
        Ok(())
    }

    /// A snapshot of the account, whose total is the decimal sum of its
    /// available and held funds; `DecimalOverflow` where that sum overflows.
    pub fn to_output(&self) -> (r: Result<OutputRecord, ProcessingError>)
        requires
            self.wf(),
        ensures
            match decimal_sum(self.available, self.held) {
                Some(total) => r == Ok::<OutputRecord, ProcessingError>(
                    OutputRecord {
                        client_id: self.client_id,
                        available: self.available,
                        held: self.held,
                        total,
                        locked: self.locked,
                    },
                ),
                None => r == Err::<OutputRecord, ProcessingError>(ProcessingError::DecimalOverflow),
            },
    {
        match checked_add(self.available, self.held) {
            Some(total) => Ok(
                OutputRecord {
                    client_id: self.client_id,
                    available: self.available,
                    held: self.held,
                    total,
                    locked: self.locked,
                },
            ),
            None => Err(ProcessingError::DecimalOverflow),
        }
    }
}

} // verus!
