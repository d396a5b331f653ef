use crate::account::{apply, snapshot, AccountView, ProcessingError, TransactionState};
use crate::amount::{decimal_difference, decimal_sum, Amount};
use crate::model::{InputRecord, InputRecordType, TransactionId};
use vstd::prelude::*;

verus! {

/// The account after a sequence of events, applied in order.
pub open spec fn apply_all(s: AccountView, recs: Seq<InputRecord>) -> AccountView
    decreases recs.len(),
{
    if recs.len() == 0 {
        s
    } else {
        apply_all(apply(s, recs[0]).1, recs.drop_first())
    }
}

pub open spec fn event(
    s: AccountView,
    kind: InputRecordType,
    id: TransactionId,
    amount: Option<Amount>,
) -> InputRecord {
    InputRecord { kind, client_id: s.client_id, transaction_id: id, amount }
}

/// After any sequence of events, the snapshot's total is the decimal sum of the
/// available and held funds it reports, which are the account's own.
pub proof fn total_is_available_plus_held(s: AccountView, recs: Seq<InputRecord>, k: int)
    requires
        0 <= k <= recs.len(),
    ensures
        snapshot(apply_all(s, recs.take(k))) matches Some(o) ==> {
            &&& o.available == apply_all(s, recs.take(k)).available
            &&& o.held == apply_all(s, recs.take(k)).held
            &&& Some(o.total) == decimal_sum(o.available, o.held)
        },
{
}

/// A locked account rejects every event with `AccountIsLocked` and never
/// changes again, whatever events follow.
pub proof fn locked_account_is_final(s: AccountView, recs: Seq<InputRecord>)
    requires
        s.locked,
    ensures
        apply_all(s, recs) == s,
        forall|i: int|
            0 <= i < recs.len() ==> #[trigger] apply(s, recs[i]) == (
            Err::<(), ProcessingError>(ProcessingError::AccountIsLocked),
            s,
        ),
    decreases recs.len(),
{
    if recs.len() > 0 {
        locked_account_is_final(s, recs.drop_first());
    }
}

/// A deposit that is disputed and then resolved: the dispute moves the amount
/// from available to held, and the resolve takes it off held again while
/// available keeps its disputed value.
pub proof fn deposit_dispute_resolve(s: AccountView, id: TransactionId, amount: Amount)
    requires
        !s.locked,
        !s.transactions.contains_key(id),
    ensures
        ({
            let (r1, s1) = apply(s, event(s, InputRecordType::Deposit, id, Some(amount)));
            let (r2, s2) = apply(s1, event(s, InputRecordType::Dispute, id, None));
            let (r3, s3) = apply(s2, event(s, InputRecordType::Resolve, id, None));
            r1 is Ok && r2 is Ok && r3 is Ok ==> {
                &&& Some(s1.available) == decimal_sum(s.available, amount)
                &&& Some(s2.available) == decimal_difference(s1.available, amount)
                &&& Some(s2.held) == decimal_sum(s.held, amount)
                &&& s3.available == s2.available
                &&& Some(s3.held) == decimal_difference(s2.held, amount)
                &&& s3.transactions[id].state == TransactionState::Resolved
                &&& !s3.locked
            }
        }),
{
}

/// A withdrawal that is disputed and then resolved: the dispute moves the
/// withdrawn amount from held to available, and the resolve moves it once more
/// the same way.
pub proof fn withdrawal_dispute_resolve(s: AccountView, id: TransactionId, amount: Amount)
    requires
        amount.wf(),
        !s.locked,
        !s.transactions.contains_key(id),
    ensures
        ({
            let (r1, s1) = apply(s, event(s, InputRecordType::Withdrawal, id, Some(amount)));
            let (r2, s2) = apply(s1, event(s, InputRecordType::Dispute, id, None));
            let (r3, s3) = apply(s2, event(s, InputRecordType::Resolve, id, None));
            let stored = amount.negation();
            r1 is Ok && r2 is Ok && r3 is Ok ==> {
                &&& Some(s1.available) == decimal_difference(s.available, amount)
                &&& Some(s2.available) == decimal_difference(s1.available, stored)
                &&& Some(s2.held) == decimal_sum(s.held, stored)
                &&& Some(s3.available) == decimal_sum(s2.available, amount)
                &&& Some(s3.held) == decimal_difference(s2.held, amount)
                &&& s3.transactions[id].state == TransactionState::Resolved
                &&& !s3.locked
            }
        }),
{
    assert(amount.negation().negation() == amount);
}

/// A deposit that is disputed and then charged back: held drops by the
/// deposit amount, available keeps its disputed value, and the account is
/// locked.
pub proof fn deposit_dispute_chargeback(s: AccountView, id: TransactionId, amount: Amount)
    requires
        !s.locked,
        !s.transactions.contains_key(id),
    ensures
        ({
            let (r1, s1) = apply(s, event(s, InputRecordType::Deposit, id, Some(amount)));
            let (r2, s2) = apply(s1, event(s, InputRecordType::Dispute, id, None));
            let (r3, s3) = apply(s2, event(s, InputRecordType::Chargeback, id, None));
            r1 is Ok && r2 is Ok && r3 is Ok ==> {
                &&& Some(s3.held) == decimal_difference(s2.held, amount)
                &&& s3.available == s2.available
                &&& s3.locked
                &&& s3.transactions[id].state == TransactionState::ChargedBack
            }
        }),
{
}

/// A second deposit or withdrawal under a used identifier fails with
/// `TransactionAlreadyExists` and changes nothing.
pub proof fn reused_identifier_is_rejected(s: AccountView, rec: InputRecord)
    requires
        !s.locked,
        s.transactions.contains_key(rec.transaction_id),
        rec.kind == InputRecordType::Deposit || rec.kind == InputRecordType::Withdrawal,
    ensures
        apply(s, rec) == (
            Err::<(), ProcessingError>(
                ProcessingError::TransactionAlreadyExists(rec.transaction_id),
            ),
            s,
        ),
{
}

/// Disputing an identifier that was never recorded fails with
/// `TransactionMissing` and changes nothing.
pub proof fn dispute_of_unknown_identifier_is_rejected(s: AccountView, rec: InputRecord)
    requires
        !s.locked,
        !s.transactions.contains_key(rec.transaction_id),
        rec.kind == InputRecordType::Dispute,
    ensures
        apply(s, rec) == (
            Err::<(), ProcessingError>(ProcessingError::TransactionMissing(rec.transaction_id)),
            s,
        ),
{
}

} // verus!
