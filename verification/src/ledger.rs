//! The ledger as this library sees it: accounts, the operations that change
//! them, and signed transactions that carry one operation each.
//!
//! The ledger itself is authoritative and lives elsewhere. What is kept here
//! is the bookkeeping copy of an account and the rule by which an operation
//! changes it.

use vstd::prelude::*;

verus! {

/// A copy of a byte string.
pub fn copy_bytes(bytes: &Vec<u8>) -> (copy: Vec<u8>)
    ensures
        copy@ == bytes@,
{
    let mut copy: Vec<u8> = Vec::with_capacity(bytes.len());
    let mut at: usize = 0;
    while at < bytes.len()
        invariant
            at <= bytes.len(),
            copy@ == bytes@.subrange(0, at as int),
        decreases bytes.len() - at,
    {
        copy.push(bytes[at]);
        at = at + 1;
        assert(copy@ =~= bytes@.subrange(0, at as int));
    }
    assert(bytes@.subrange(0, at as int) =~= bytes@);
    copy
}

/// Appends `tail` to `target`.
pub fn append_bytes(target: &mut Vec<u8>, tail: &Vec<u8>)
    ensures
        final(target)@ == old(target)@ + tail@,
{
    let mut at: usize = 0;
    while at < tail.len()
        invariant
            at <= tail.len(),
            target@ == old(target)@ + tail@.subrange(0, at as int),
        decreases tail.len() - at,
    {
        target.push(tail[at]);
        at = at + 1;
        assert(target@ =~= old(target)@ + tail@.subrange(0, at as int));
    }
    assert(tail@.subrange(0, at as int) =~= tail@);
}

/// A signature over a payload together with the key that verifies it.
#[derive(Debug, PartialEq, Eq)]
pub struct SignatureBundle {
    pub verifying_key: Vec<u8>,
    pub signature: Vec<u8>,
}

/// One change to an account.
#[derive(Debug, PartialEq, Eq)]
pub enum Operation {
    /// Establishes a service account. `creation_gate` is the public key
    /// whose signature every account created under the service must
    /// present.
    RegisterService { id: String, creation_gate: Vec<u8>, key: Vec<u8> },
    /// Provisions an account under a service. `challenge` is the service
    /// key's signature over the account id, the service id and `key`.
    CreateAccount { id: String, service_id: String, challenge: Vec<u8>, key: Vec<u8> },
    /// Appends a payload to an account, signed by one of the account's keys.
    AddData { data: Vec<u8>, data_signature: SignatureBundle },
}

/// Mathematical value of an [`Operation`].
pub enum OperationView {
    RegisterService { id: Seq<char>, creation_gate: Seq<u8>, key: Seq<u8> },
    CreateAccount { id: Seq<char>, service_id: Seq<char>, challenge: Seq<u8>, key: Seq<u8> },
    AddData { data: Seq<u8>, verifying_key: Seq<u8>, signature: Seq<u8> },
}

impl View for Operation {
    type V = OperationView;

    open spec fn view(&self) -> OperationView {
        match *self {
            Operation::RegisterService { id, creation_gate, key } => OperationView::RegisterService {
                id: id@,
                creation_gate: creation_gate@,
                key: key@,
            },
            Operation::CreateAccount { id, service_id, challenge, key } => OperationView::CreateAccount {
                id: id@,
                service_id: service_id@,
                challenge: challenge@,
                key: key@,
            },
            Operation::AddData { data, data_signature } => OperationView::AddData {
                data: data@,
                verifying_key: data_signature.verifying_key@,
                signature: data_signature.signature@,
            },
        }
    }
}

impl Operation {
    /// A copy of the operation.
    pub fn duplicate(&self) -> (copy: Operation)
        ensures
            copy@ == self@,
    {
        match self {
            Operation::RegisterService { id, creation_gate, key } => Operation::RegisterService {
                id: id.clone(),
                creation_gate: copy_bytes(creation_gate),
                key: copy_bytes(key),
            },
            Operation::CreateAccount { id, service_id, challenge, key } => Operation::CreateAccount {
                id: id.clone(),
                service_id: service_id.clone(),
                challenge: copy_bytes(challenge),
                key: copy_bytes(key),
            },
            Operation::AddData { data, data_signature } => Operation::AddData {
                data: copy_bytes(data),
                data_signature: SignatureBundle {
                    verifying_key: copy_bytes(&data_signature.verifying_key),
                    signature: copy_bytes(&data_signature.signature),
                },
            },
        }
    }
}

/// A request to apply one operation to one account, signed over the
/// operation and the state of the account it was prepared against.
#[derive(Debug, PartialEq, Eq)]
pub struct Transaction {
    pub id: String,
    pub operation: Operation,
    pub signature: Vec<u8>,
}

/// Mathematical value of a [`Transaction`].
pub struct TransactionView {
    pub id: Seq<char>,
    pub operation: OperationView,
    pub signature: Seq<u8>,
}

impl View for Transaction {
    type V = TransactionView;

    open spec fn view(&self) -> TransactionView {
        TransactionView { id: self.id@, operation: self.operation@, signature: self.signature@ }
    }
}

/// The bookkeeping copy of a ledger account: its identifier, the public
/// keys authorized to act for it, and the operations applied to it, oldest
/// first.
#[derive(Debug, PartialEq, Eq)]
pub struct Account {
    pub id: String,
    pub valid_keys: Vec<Vec<u8>>,
    pub history: Vec<Operation>,
}

/// Mathematical value of an [`Account`].
pub struct AccountView {
    pub id: Seq<char>,
    pub valid_keys: Seq<Seq<u8>>,
    pub history: Seq<OperationView>,
}

impl AccountView {
    /// The account before any operation: no identifier, no key, no history.
    pub open spec fn empty() -> AccountView {
        AccountView { id: Seq::empty(), valid_keys: Seq::empty(), history: Seq::empty() }
    }

    /// The account after `operation`. Registering a service and creating an
    /// account name the account and authorize the key they carry; adding
    /// data changes neither. Every operation is appended to the history.
    pub open spec fn apply(self, operation: OperationView) -> AccountView {
        match operation {
            OperationView::RegisterService { id, creation_gate, key } => AccountView {
                id,
                valid_keys: self.valid_keys.push(key),
                history: self.history.push(operation),
            },
            OperationView::CreateAccount { id, service_id, challenge, key } => AccountView {
                id,
                valid_keys: self.valid_keys.push(key),
                history: self.history.push(operation),
            },
            OperationView::AddData { data, verifying_key, signature } => AccountView {
                id: self.id,
                valid_keys: self.valid_keys,
                history: self.history.push(operation),
            },
        }
    }
}

/// The byte strings that a list of keys holds.
pub open spec fn keys_view(keys: Seq<Vec<u8>>) -> Seq<Seq<u8>> {
    Seq::new(keys.len(), |at: int| keys[at]@)
}

/// The operations that a history holds.
pub open spec fn history_view(history: Seq<Operation>) -> Seq<OperationView> {
    Seq::new(history.len(), |at: int| history[at]@)
}

impl View for Account {
    type V = AccountView;

    open spec fn view(&self) -> AccountView {
        AccountView {
            id: self.id@,
            valid_keys: keys_view(self.valid_keys@),
            history: history_view(self.history@),
        }
    }
}

impl Account {
    /// The account before any operation.
    pub fn new() -> (account: Account)
        ensures
            account@ == AccountView::empty(),
    {
        let account = Account { id: String::new(), valid_keys: Vec::new(), history: Vec::new() };
        assert(account@.valid_keys =~= Seq::empty());
        assert(account@.history =~= Seq::empty());
        account
    }

    /// A copy of the account.
    pub fn duplicate(&self) -> (copy: Account)
        ensures
            copy@ == self@,
    {
        let mut valid_keys: Vec<Vec<u8>> = Vec::with_capacity(self.valid_keys.len());
        let mut at: usize = 0;
        while at < self.valid_keys.len()
            invariant
                at <= self.valid_keys.len(),
                valid_keys.len() == at,
                forall|k: int| 0 <= k < at ==> valid_keys[k]@ == self.valid_keys[k]@,
            decreases self.valid_keys.len() - at,
        {
            valid_keys.push(copy_bytes(&self.valid_keys[at]));
            at = at + 1;
        }
        let mut history: Vec<Operation> = Vec::with_capacity(self.history.len());
        let mut done: usize = 0;
        while done < self.history.len()
            invariant
                done <= self.history.len(),
                history.len() == done,
                forall|k: int| 0 <= k < done ==> history[k]@ == self.history[k]@,
            decreases self.history.len() - done,
        {
            history.push(self.history[done].duplicate());
            done = done + 1;
        }
        let copy = Account { id: self.id.clone(), valid_keys, history };
        assert(copy@.valid_keys =~= self@.valid_keys);
        assert(copy@.history =~= self@.history);
        copy
    }

    /// Applies `operation` to this copy of the account.
    pub fn process_operation(&mut self, operation: Operation)
        ensures
            final(self)@ == old(self)@.apply(operation@),
    {
        match &operation {
            Operation::RegisterService { id, creation_gate, key } => {
                self.id = id.clone();
                self.valid_keys.push(copy_bytes(key));
            },
            Operation::CreateAccount { id, service_id, challenge, key } => {
                self.id = id.clone();
                self.valid_keys.push(copy_bytes(key));
            },
            Operation::AddData { data, data_signature } => {},
        }
        self.history.push(operation);
        assert(self@.history =~= old(self)@.history.push(operation@));
        assert(self@.valid_keys =~= old(self)@.apply(operation@).valid_keys);
    }
}

/// What a read of the ledger shows for one identifier.
#[derive(Debug, PartialEq, Eq)]
pub enum AccountResponse {
    Found(Account),
    NotFound,
}

/// Mathematical value of an [`AccountResponse`].
pub enum AccountResponseView {
    Found(AccountView),
    NotFound,
}

impl View for AccountResponse {
    type V = AccountResponseView;

    open spec fn view(&self) -> AccountResponseView {
        match *self {
            AccountResponse::Found(account) => AccountResponseView::Found(account@),
            AccountResponse::NotFound => AccountResponseView::NotFound,
        }
    }
}

} // verus!
