use crate::account::{apply, snapshot, Account, AccountView, ProcessingError, Transaction};
use crate::amount::Amount;
use crate::model::{ClientId, InputRecord, OutputRecord, TransactionId};
use vstd::prelude::*;

verus! {

/// Why the registry could not apply an event.
#[derive(Clone, Copy, Debug, PartialEq, Eq, Structural)]
pub enum Error {
    /// No account could be found for the client; the registry creates
    /// accounts on demand, so this is never returned.
    CannotRetrieveAccount(ClientId),
    RecordProcessing(ProcessingError),
}

/// The accounts of all clients seen so far, in order of first appearance.
pub struct AccountManager {
    accounts: Vec<Account>,
}

impl View for AccountManager {
    type V = Seq<AccountView>;

    closed spec fn view(&self) -> Seq<AccountView> {
        self.accounts@.map_values(|a: Account| a@)
    }
}

/// A fresh account for `client_id`.
pub open spec fn fresh_account(client_id: ClientId) -> AccountView {
    AccountView {
        client_id,
        transactions: Map::<TransactionId, Transaction>::empty(),
        available: Amount::zero_spec(),
        held: Amount::zero_spec(),
        locked: false,
    }
}

/// Each account is well formed, and no two accounts share a client.
pub open spec fn registry_wf(accounts: Seq<AccountView>) -> bool {
    &&& forall|i: int| 0 <= i < accounts.len() ==> #[trigger] accounts[i].wf()
    &&& forall|i: int, j: int|
        0 <= i < accounts.len() && 0 <= j < accounts.len() && i != j ==> #[trigger] accounts[i].client_id
            != #[trigger] accounts[j].client_id
}

pub open spec fn has_client(accounts: Seq<AccountView>, client_id: ClientId) -> bool {
    exists|i: int| 0 <= i < accounts.len() && #[trigger] accounts[i].client_id == client_id
}

pub open spec fn lift(r: Result<(), ProcessingError>) -> Result<(), Error> {
    match r {
        Ok(()) => Ok(()),
        Err(e) => Err(Error::RecordProcessing(e)),
    }
}

/// The outcome of routing one event: the client's account (created first if the
/// client is new) takes the event as `apply` says, and the others are untouched.
pub open spec fn route(accounts: Seq<AccountView>, rec: InputRecord) -> (
    Result<(), Error>,
    Seq<AccountView>,
) {
    if has_client(accounts, rec.client_id) {
        let i = choose|i: int| 0 <= i < accounts.len() && #[trigger] accounts[i].client_id == rec.client_id;
        let (r, a) = apply(accounts[i], rec);
        (lift(r), accounts.update(i, a))
    } else {
        let (r, a) = apply(fresh_account(rec.client_id), rec);
        (lift(r), accounts.push(a))
    }
}

impl AccountManager {
    pub open spec fn wf(&self) -> bool {
        registry_wf(self@)
    }

    pub fn new() -> (r: AccountManager)
        ensures
            r@ == Seq::<AccountView>::empty(),
            r.wf(),
    {
        let r = AccountManager { accounts: Vec::new() };
        assert(r@ =~= Seq::<AccountView>::empty());
        r
    }

    /// The position of the client's account, if it has one.
    fn find(&self, client_id: ClientId) -> (r: Option<usize>)
        ensures
            match r {
                Some(i) => i < self@.len() && self@[i as int].client_id == client_id,
                None => !has_client(self@, client_id),
            },
    {
        let n = self.accounts.len();
        let mut i: usize = 0;
        while i < n
            invariant
                n == self.accounts@.len(),
                i <= n,
                forall|j: int| 0 <= j < i ==> self@[j].client_id != client_id,
            decreases n - i,
        {
            if self.accounts[i].client_id == client_id {
                return Some(i);
            }
            i += 1;
        }
        None
    }

    /// Routes one event to its client's account, creating the account first if
    /// the client is new. The account's error comes back wrapped.
    pub fn process_record(&mut self, record: &InputRecord) -> (r: Result<(), Error>)
        requires
            old(self).wf(),
            record.wf(),
        ensures
            (r, final(self)@) == route(old(self)@, *record),
            final(self).wf(),
    {
        let ghost before = self@;
        let i = match self.find(record.client_id) {
            Some(i) => i,
            None => {
                let account = Account::new(record.client_id);
                assert(account@ == fresh_account(record.client_id));
                self.accounts.push(account);
                assert(self@ =~= before.push(fresh_account(record.client_id)));
                self.accounts.len() - 1
            },
        };
        let ghost mid = self@;
        assert(mid[i as int].wf());
        let mut account = self.accounts.remove(i);
        assert(account@ == mid[i as int]);
        let result = account.process_record(record);
        let ghost after = account@;
        self.accounts.insert(i, account);
        assert(self@ =~= mid.update(i as int, after));
        proof {
            if has_client(before, record.client_id) {
                let j = choose|j: int|
                    0 <= j < before.len() && #[trigger] before[j].client_id == record.client_id;
                assert(mid == before);
                assert(j == i);
            }
        }
        match result {
            Ok(()) => Ok(()),
            Err(e) => Err(Error::RecordProcessing(e)),
        }
    }

    /// The snapshot of every account, in the registry's order, or
    /// `DecimalOverflow` where some account's total overflows.
    pub fn gather_output(&self) -> (r: Result<Vec<OutputRecord>, ProcessingError>)
        requires
            self.wf(),
        ensures
            (forall|i: int| 0 <= i < self@.len() ==> #[trigger] snapshot(self@[i]) is Some) ==> (
            r matches Ok(v) && v@.len() == self@.len() && forall|i: int|
                0 <= i < self@.len() ==> Some(#[trigger] v@[i]) == snapshot(self@[i])),
            (exists|i: int| 0 <= i < self@.len() && #[trigger] snapshot(self@[i]) is None) ==> r
                == Err::<Vec<OutputRecord>, ProcessingError>(ProcessingError::DecimalOverflow),
    {
        let n = self.accounts.len();
        let mut out: Vec<OutputRecord> = Vec::new();
        let mut i: usize = 0;
        while i < n
            invariant
                n == self@.len(),
                n == self.accounts@.len(),
                i <= n,
                registry_wf(self@),
                out@.len() == i,
                forall|j: int| 0 <= j < i ==> Some(#[trigger] out@[j]) == snapshot(self@[j]),
            decreases n - i,
        {
            assert(self.accounts@[i as int]@ == self@[i as int]);
            match self.accounts[i].to_output() {
                Ok(o) => out.push(o),
                Err(e) => {
                    assert(snapshot(self@[i as int]) is None);
                    return Err(e);
                },
            }
            i += 1;
        }
        assert forall|j: int| 0 <= j < n implies #[trigger] snapshot(self@[j]) is Some by {
            assert(Some(out@[j]) == snapshot(self@[j]));
        }
        Ok(out)
    }
}

} // verus!
