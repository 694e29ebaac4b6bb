//! The three writes of the pipeline: registering the service, creating an
//! account under it, and appending data to an account.
//!
//! Each follows the same shape: read the account, decide from what the read
//! shows, and only then build, sign and submit a transaction. The bookkeeping
//! copy of the account changes only once the ledger has acknowledged.

use crate::ledger::{
    append_bytes, copy_bytes, Account, AccountResponse, AccountResponseView, AccountView, Operation,
    OperationView, SignatureBundle, Transaction, TransactionView,
};
use crate::protocol::{
    PipelineError, PipelineErrorView, Reply, ReplyView, Request, RequestView, SigningKey,
    SigningKeyView, Step, StepView,
};
use vstd::prelude::*;
use vstd::utf8::encode_utf8;

verus! {

/// How far a registration of the service has come.
#[derive(Debug, PartialEq, Eq)]
pub enum RegisterStage {
    /// The service account is being read.
    Reading,
    /// The registering transaction is being signed.
    Signing { operation: Operation },
    /// The signed transaction is before the ledger.
    Submitting,
}

/// Mathematical value of a [`RegisterStage`].
pub enum RegisterStageView {
    Reading,
    Signing { operation: OperationView },
    Submitting,
}

impl View for RegisterStage {
    type V = RegisterStageView;

    open spec fn view(&self) -> RegisterStageView {
        match *self {
            RegisterStage::Reading => RegisterStageView::Reading,
            RegisterStage::Signing { operation } => RegisterStageView::Signing {
                operation: operation@,
            },
            RegisterStage::Submitting => RegisterStageView::Submitting,
        }
    }
}

/// One run of the registration of the service account.
#[derive(Debug, PartialEq, Eq)]
pub struct RegisterService {
    pub service_id: String,
    pub service_key: SigningKey,
    pub stage: RegisterStage,
}

/// Mathematical value of a [`RegisterService`].
pub struct RegisterServiceView {
    pub service_id: Seq<char>,
    pub service_key: SigningKeyView,
    pub stage: RegisterStageView,
}

impl View for RegisterService {
    type V = RegisterServiceView;

    open spec fn view(&self) -> RegisterServiceView {
        RegisterServiceView {
            service_id: self.service_id@,
            service_key: self.service_key@,
            stage: self.stage@,
        }
    }
}

impl RegisterServiceView {
    /// A run at its beginning, and what it asks first: it reads the service
    /// account.
    pub open spec fn start(service_id: Seq<char>, service_key: SigningKeyView) -> (
        RegisterServiceView,
        RequestView,
    ) {
        (
            RegisterServiceView { service_id, service_key, stage: RegisterStageView::Reading },
            RequestView::GetAccount { id: service_id },
        )
    }

    /// The same run at another stage.
    pub open spec fn at(self, stage: RegisterStageView) -> Self {
        RegisterServiceView { stage, ..self }
    }

    /// The operation that registers the service: its own public key both
    /// authorizes it and gates the creation of accounts under it.
    pub open spec fn operation(self) -> OperationView {
        OperationView::RegisterService {
            id: self.service_id,
            creation_gate: self.service_key.verifying_key,
            key: self.service_key.verifying_key,
        }
    }
}

/// What a registration does with a reply. A service that the read shows is
/// left alone; one that it does not show is registered by a transaction
/// prepared against the empty account and signed with the service key.
pub open spec fn register_service_model(run: RegisterServiceView, reply: ReplyView) -> StepView<
    RegisterServiceView,
    (),
> {
    match (run.stage, reply) {
        (
            RegisterStageView::Reading,
            ReplyView::Account(AccountResponseView::Found(_)),
        ) => StepView::Finished(Ok(())),
        (
            RegisterStageView::Reading,
            ReplyView::Account(AccountResponseView::NotFound),
        ) => StepView::Continue(
            run.at(RegisterStageView::Signing { operation: run.operation() }),
            RequestView::SignTransaction {
                key: run.service_key.name,
                account: AccountView::empty(),
                id: run.service_id,
                operation: run.operation(),
            },
        ),
        (RegisterStageView::Reading, ReplyView::Failed(reason)) => StepView::Finished(
            Err(PipelineErrorView::LedgerReadError(reason)),
        ),
        (
            RegisterStageView::Signing { operation },
            ReplyView::Signature(signature),
        ) => StepView::Continue(
            run.at(RegisterStageView::Submitting),
            RequestView::Submit {
                transaction: TransactionView { id: run.service_id, operation, signature },
            },
        ),
        (RegisterStageView::Signing { operation }, ReplyView::Failed(reason)) => StepView::Finished(
            Err(PipelineErrorView::SigningError(reason)),
        ),
        (RegisterStageView::Submitting, ReplyView::Submitted) => StepView::Finished(Ok(())),
        (RegisterStageView::Submitting, ReplyView::Failed(reason)) => StepView::Finished(
            Err(PipelineErrorView::LedgerSubmissionError(reason)),
        ),
        _ => StepView::Finished(Err(PipelineErrorView::UnexpectedReply)),
    }
}

impl RegisterService {
    /// Begins a registration. The run that comes back is taken further by
    /// [`register_service`], with the reply to the request beside it.
    pub fn start(service_id: String, service_key: SigningKey) -> (begun: (RegisterService, Request))
        ensures
            (begun.0@, begun.1@) == RegisterServiceView::start(service_id@, service_key@),
    {
        let id = service_id.clone();
        (
            RegisterService { service_id, service_key, stage: RegisterStage::Reading },
            Request::GetAccount { id },
        )
    }
}

/// Takes the registration of the service one reply further.
pub fn register_service(run: RegisterService, reply: Reply) -> (step: Step<RegisterService, ()>)
    ensures
        step@ == register_service_model(run@, reply@),
{
    let RegisterService { service_id, service_key, stage } = run;
    match stage {
        RegisterStage::Reading => match reply {
            Reply::Account(AccountResponse::Found(_)) => Step::Finished(Ok(())),
            Reply::Account(AccountResponse::NotFound) => {
                let operation = Operation::RegisterService {
                    id: service_id.clone(),
                    creation_gate: copy_bytes(&service_key.verifying_key),
                    key: copy_bytes(&service_key.verifying_key),
                };
                let request = Request::SignTransaction {
                    key: service_key.name.clone(),
                    account: Account::new(),
                    id: service_id.clone(),
                    operation: operation.duplicate(),
                };
                Step::Continue(
                    RegisterService {
                        service_id,
                        service_key,
                        stage: RegisterStage::Signing { operation },
                    },
                    request,
                )
            },
            Reply::Failed(reason) => Step::Finished(Err(PipelineError::LedgerReadError(reason))),
            _ => Step::Finished(Err(PipelineError::UnexpectedReply)),
        },
        RegisterStage::Signing { operation } => match reply {
            Reply::Signature(signature) => {
                let transaction = Transaction { id: service_id.clone(), operation, signature };
                Step::Continue(
                    RegisterService { service_id, service_key, stage: RegisterStage::Submitting },
                    Request::Submit { transaction },
                )
            },
            Reply::Failed(reason) => Step::Finished(Err(PipelineError::SigningError(reason))),
            _ => Step::Finished(Err(PipelineError::UnexpectedReply)),
        },
        RegisterStage::Submitting => match reply {
            Reply::Submitted => Step::Finished(Ok(())),
            Reply::Failed(reason) => Step::Finished(
                Err(PipelineError::LedgerSubmissionError(reason)),
            ),
            _ => Step::Finished(Err(PipelineError::UnexpectedReply)),
        },
    }
}

/// How far the creation of an account has come.
#[derive(Debug, PartialEq, Eq)]
pub enum CreateStage {
    /// The account is being read.
    Reading,
    /// The keystore is asked for the account's key.
    FetchingKey,
    /// The service key is signing the creation challenge for `key`.
    SigningChallenge { key: Vec<u8> },
    /// The creating transaction is being signed.
    SigningTransaction { operation: Operation },
    /// The signed transaction is before the ledger.
    Submitting { operation: Operation },
}

/// Mathematical value of a [`CreateStage`].
pub enum CreateStageView {
    Reading,
    FetchingKey,
    SigningChallenge { key: Seq<u8> },
    SigningTransaction { operation: OperationView },
    Submitting { operation: OperationView },
}

impl View for CreateStage {
    type V = CreateStageView;

    open spec fn view(&self) -> CreateStageView {
        match *self {
            CreateStage::Reading => CreateStageView::Reading,
            CreateStage::FetchingKey => CreateStageView::FetchingKey,
            CreateStage::SigningChallenge { key } => CreateStageView::SigningChallenge { key: key@ },
            CreateStage::SigningTransaction { operation } => CreateStageView::SigningTransaction {
                operation: operation@,
            },
            CreateStage::Submitting { operation } => CreateStageView::Submitting {
                operation: operation@,
            },
        }
    }
}

/// One run of the creation of the account of one log under the service.
#[derive(Debug, PartialEq, Eq)]
pub struct CreateAccount {
    pub log_id: String,
    pub service_id: String,
    pub service_key: SigningKey,
    pub stage: CreateStage,
}

/// Mathematical value of a [`CreateAccount`].
pub struct CreateAccountView {
    pub log_id: Seq<char>,
    pub service_id: Seq<char>,
    pub service_key: SigningKeyView,
    pub stage: CreateStageView,
}

impl View for CreateAccount {
    type V = CreateAccountView;

    open spec fn view(&self) -> CreateAccountView {
        CreateAccountView {
            log_id: self.log_id@,
            service_id: self.service_id@,
            service_key: self.service_key@,
            stage: self.stage@,
        }
    }
}

/// The name under which the keystore holds the key of an account: the
/// account's identifier, a slash, and the service's identifier.
pub open spec fn account_key_name(account_id: Seq<char>, service_id: Seq<char>) -> Seq<char> {
    account_id + "/"@ + service_id
}

/// What the service key signs the digest of to admit a new account: the
/// account's identifier, the service's identifier and the account's new
/// public key, one after the other.
pub open spec fn creation_challenge(
    account_id: Seq<char>,
    service_id: Seq<char>,
    key: Seq<u8>,
) -> Seq<u8> {
    encode_utf8(account_id) + encode_utf8(service_id) + key
}

impl CreateAccountView {
    /// A run at its beginning, and what it asks first: it reads the account.
    pub open spec fn start(
        log_id: Seq<char>,
        service_id: Seq<char>,
        service_key: SigningKeyView,
    ) -> (CreateAccountView, RequestView) {
        (
            CreateAccountView { log_id, service_id, service_key, stage: CreateStageView::Reading },
            RequestView::GetAccount { id: log_id },
        )
    }

    /// The same run at another stage.
    pub open spec fn at(self, stage: CreateStageView) -> Self {
        CreateAccountView { stage, ..self }
    }

    /// The operation that creates the account with `key`, admitted by the
    /// challenge response `challenge`.
    pub open spec fn operation(self, key: Seq<u8>, challenge: Seq<u8>) -> OperationView {
        OperationView::CreateAccount {
            id: self.log_id,
            service_id: self.service_id,
            challenge,
            key,
        }
    }
}

/// What the creation of an account does with a reply. An account that the
/// read shows is returned as read. One that it does not show gets a key from
/// the keystore, a challenge response from the service key, and a creating
/// transaction prepared against the empty account and signed with the new
/// key; once the ledger has acknowledged it, the result is the empty account
/// with the operation applied.
pub open spec fn create_account_model(run: CreateAccountView, reply: ReplyView) -> StepView<
    CreateAccountView,
    AccountView,
> {
    match (run.stage, reply) {
        (
            CreateStageView::Reading,
            ReplyView::Account(AccountResponseView::Found(account)),
        ) => StepView::Finished(Ok(account)),
        (
            CreateStageView::Reading,
            ReplyView::Account(AccountResponseView::NotFound),
        ) => StepView::Continue(
            run.at(CreateStageView::FetchingKey),
            RequestView::GetOrCreateKey { name: account_key_name(run.log_id, run.service_id) },
        ),
        (CreateStageView::Reading, ReplyView::Failed(reason)) => StepView::Finished(
            Err(PipelineErrorView::LedgerReadError(reason)),
        ),
        (CreateStageView::FetchingKey, ReplyView::Key(key)) => StepView::Continue(
            run.at(CreateStageView::SigningChallenge { key }),
            RequestView::Sign {
                key: run.service_key.name,
                message: creation_challenge(run.log_id, run.service_id, key),
            },
        ),
        (CreateStageView::FetchingKey, ReplyView::Failed(reason)) => StepView::Finished(
            Err(PipelineErrorView::KeystoreError(reason)),
        ),
        (
            CreateStageView::SigningChallenge { key },
            ReplyView::Signature(challenge),
        ) => StepView::Continue(
            run.at(CreateStageView::SigningTransaction { operation: run.operation(key, challenge) }),
            RequestView::SignTransaction {
                key: account_key_name(run.log_id, run.service_id),
                account: AccountView::empty(),
                id: run.log_id,
                operation: run.operation(key, challenge),
            },
        ),
        (CreateStageView::SigningChallenge { key }, ReplyView::Failed(reason)) => StepView::Finished(
            Err(PipelineErrorView::SigningError(reason)),
        ),
        (
            CreateStageView::SigningTransaction { operation },
            ReplyView::Signature(signature),
        ) => StepView::Continue(
            run.at(CreateStageView::Submitting { operation }),
            RequestView::Submit {
                transaction: TransactionView { id: run.log_id, operation, signature },
            },
        ),
        (
            CreateStageView::SigningTransaction { operation },
            ReplyView::Failed(reason),
        ) => StepView::Finished(Err(PipelineErrorView::SigningError(reason))),
        (CreateStageView::Submitting { operation }, ReplyView::Submitted) => StepView::Finished(
            Ok(AccountView::empty().apply(operation)),
        ),
        (CreateStageView::Submitting { operation }, ReplyView::Failed(reason)) => StepView::Finished(
            Err(PipelineErrorView::LedgerSubmissionError(reason)),
        ),
        _ => StepView::Finished(Err(PipelineErrorView::UnexpectedReply)),
    }
}

/// The keystore name of the key of `account_id` under `service_id`.
pub fn key_name(account_id: &String, service_id: &String) -> (name: String)
    ensures
        name@ == account_key_name(account_id@, service_id@),
{
    account_id.clone().concat("/").concat(service_id.as_str())
}

impl CreateAccount {
    /// Begins the creation of the account of `log_id` under `service_id`.
    /// The run that comes back is taken further by [`create_account`], with
    /// the reply to the request beside it.
    pub fn start(log_id: String, service_id: String, service_key: SigningKey) -> (begun: (
        CreateAccount,
        Request,
    ))
        ensures
            (begun.0@, begun.1@) == CreateAccountView::start(log_id@, service_id@, service_key@),
    {
        let id = log_id.clone();
        (
            CreateAccount { log_id, service_id, service_key, stage: CreateStage::Reading },
            Request::GetAccount { id },
        )
    }
}

/// Takes the creation of an account one reply further.
pub fn create_account(run: CreateAccount, reply: Reply) -> (step: Step<CreateAccount, Account>)
    ensures
        step@ == create_account_model(run@, reply@),
{
    let CreateAccount { log_id, service_id, service_key, stage } = run;
    match stage {
        CreateStage::Reading => match reply {
            Reply::Account(AccountResponse::Found(account)) => Step::Finished(Ok(account)),
            Reply::Account(AccountResponse::NotFound) => {
                let name = key_name(&log_id, &service_id);
                Step::Continue(
                    CreateAccount {
                        log_id,
                        service_id,
                        service_key,
                        stage: CreateStage::FetchingKey,
                    },
                    Request::GetOrCreateKey { name },
                )
            },
            Reply::Failed(reason) => Step::Finished(Err(PipelineError::LedgerReadError(reason))),
            _ => Step::Finished(Err(PipelineError::UnexpectedReply)),
        },
        CreateStage::FetchingKey => match reply {
            Reply::Key(key) => {
                let mut message = log_id.as_str().as_bytes_vec();
                let service_bytes = service_id.as_str().as_bytes_vec();
                append_bytes(&mut message, &service_bytes);
                append_bytes(&mut message, &key);
                let request = Request::Sign { key: service_key.name.clone(), message };
                Step::Continue(
                    CreateAccount {
                        log_id,
                        service_id,
                        service_key,
                        stage: CreateStage::SigningChallenge { key },
                    },
                    request,
                )
            },
            Reply::Failed(reason) => Step::Finished(Err(PipelineError::KeystoreError(reason))),
            _ => Step::Finished(Err(PipelineError::UnexpectedReply)),
        },
        CreateStage::SigningChallenge { key } => match reply {
            Reply::Signature(challenge) => {
                let operation = Operation::CreateAccount {
                    id: log_id.clone(),
                    service_id: service_id.clone(),
                    challenge,
                    key,
                };
                let request = Request::SignTransaction {
                    key: key_name(&log_id, &service_id),
                    account: Account::new(),
                    id: log_id.clone(),
                    operation: operation.duplicate(),
                };
                Step::Continue(
                    CreateAccount {
                        log_id,
                        service_id,
                        service_key,
                        stage: CreateStage::SigningTransaction { operation },
                    },
                    request,
                )
            },
            Reply::Failed(reason) => Step::Finished(Err(PipelineError::SigningError(reason))),
            _ => Step::Finished(Err(PipelineError::UnexpectedReply)),
        },
        CreateStage::SigningTransaction { operation } => match reply {
            Reply::Signature(signature) => {
                let transaction = Transaction {
                    id: log_id.clone(),
                    operation: operation.duplicate(),
                    signature,
                };
                Step::Continue(
                    CreateAccount {
                        log_id,
                        service_id,
                        service_key,
                        stage: CreateStage::Submitting { operation },
                    },
                    Request::Submit { transaction },
                )
            },
            Reply::Failed(reason) => Step::Finished(Err(PipelineError::SigningError(reason))),
            _ => Step::Finished(Err(PipelineError::UnexpectedReply)),
        },
        CreateStage::Submitting { operation } => match reply {
            Reply::Submitted => {
                let mut account = Account::new();
                account.process_operation(operation);
                Step::Finished(Ok(account))
            },
            Reply::Failed(reason) => Step::Finished(
                Err(PipelineError::LedgerSubmissionError(reason)),
            ),
            _ => Step::Finished(Err(PipelineError::UnexpectedReply)),
        },
    }
}

/// How far an append of data has come.
#[derive(Debug, PartialEq, Eq)]
pub enum AddDataStage {
    /// The account is being read.
    Reading,
    /// The payload is being signed; `account` is the account as read.
    SigningData { account: Account },
    /// The appending transaction is being signed.
    SigningTransaction { account: Account, operation: Operation },
    /// The signed transaction is before the ledger.
    Submitting { account: Account, operation: Operation },
}

/// Mathematical value of an [`AddDataStage`].
pub enum AddDataStageView {
    Reading,
    SigningData { account: AccountView },
    SigningTransaction { account: AccountView, operation: OperationView },
    Submitting { account: AccountView, operation: OperationView },
}

impl View for AddDataStage {
    type V = AddDataStageView;

    open spec fn view(&self) -> AddDataStageView {
        match *self {
            AddDataStage::Reading => AddDataStageView::Reading,
            AddDataStage::SigningData { account } => AddDataStageView::SigningData {
                account: account@,
            },
            AddDataStage::SigningTransaction { account, operation } => {
                AddDataStageView::SigningTransaction { account: account@, operation: operation@ }
            },
            AddDataStage::Submitting { account, operation } => AddDataStageView::Submitting {
                account: account@,
                operation: operation@,
            },
        }
    }
}

/// One run of the append of a payload to the account `user_id`, signed with
/// `signing_key`.
#[derive(Debug, PartialEq, Eq)]
pub struct AddData {
    pub user_id: String,
    pub signing_key: SigningKey,
    pub data: Vec<u8>,
    pub stage: AddDataStage,
}

/// Mathematical value of an [`AddData`].
pub struct AddDataView {
    pub user_id: Seq<char>,
    pub signing_key: SigningKeyView,
    pub data: Seq<u8>,
    pub stage: AddDataStageView,
}

impl View for AddData {
    type V = AddDataView;

    open spec fn view(&self) -> AddDataView {
        AddDataView {
            user_id: self.user_id@,
            signing_key: self.signing_key@,
            data: self.data@,
            stage: self.stage@,
        }
    }
}

impl AddDataView {
    /// A run at its beginning, and what it asks first: it reads the account.
    pub open spec fn start(user_id: Seq<char>, signing_key: SigningKeyView, data: Seq<u8>) -> (
        AddDataView,
        RequestView,
    ) {
        (
            AddDataView { user_id, signing_key, data, stage: AddDataStageView::Reading },
            RequestView::GetAccount { id: user_id },
        )
    }

    /// The same run at another stage.
    pub open spec fn at(self, stage: AddDataStageView) -> Self {
        AddDataView { stage, ..self }
    }

    /// The operation that appends the payload under `signature`.
    pub open spec fn operation(self, signature: Seq<u8>) -> OperationView {
        OperationView::AddData {
            data: self.data,
            verifying_key: self.signing_key.verifying_key,
            signature,
        }
    }
}

/// What an append of data does with a reply. Without an account that the
/// read shows nothing is signed or submitted: the run ends with
/// `AccountNotFound`. With one, the digest of the payload is signed, the
/// appending transaction is prepared against the account as read, and once
/// the ledger has acknowledged it the result is that account with the
/// operation applied.
pub open spec fn add_data_model(run: AddDataView, reply: ReplyView) -> StepView<
    AddDataView,
    AccountView,
> {
    match (run.stage, reply) {
        (
            AddDataStageView::Reading,
            ReplyView::Account(AccountResponseView::Found(account)),
        ) => StepView::Continue(
            run.at(AddDataStageView::SigningData { account }),
            RequestView::Sign { key: run.signing_key.name, message: run.data },
        ),
        (
            AddDataStageView::Reading,
            ReplyView::Account(AccountResponseView::NotFound),
        ) => StepView::Finished(Err(PipelineErrorView::AccountNotFound(run.user_id))),
        (AddDataStageView::Reading, ReplyView::Failed(reason)) => StepView::Finished(
            Err(PipelineErrorView::LedgerReadError(reason)),
        ),
        (
            AddDataStageView::SigningData { account },
            ReplyView::Signature(signature),
        ) => StepView::Continue(
            run.at(
                AddDataStageView::SigningTransaction {
                    account,
                    operation: run.operation(signature),
                },
            ),
            RequestView::SignTransaction {
                key: run.signing_key.name,
                account,
                id: run.user_id,
                operation: run.operation(signature),
            },
        ),
        (AddDataStageView::SigningData { account }, ReplyView::Failed(reason)) => StepView::Finished(
            Err(PipelineErrorView::SigningError(reason)),
        ),
        (
            AddDataStageView::SigningTransaction { account, operation },
            ReplyView::Signature(signature),
        ) => StepView::Continue(
            run.at(AddDataStageView::Submitting { account, operation }),
            RequestView::Submit {
                transaction: TransactionView { id: run.user_id, operation, signature },
            },
        ),
        (
            AddDataStageView::SigningTransaction { account, operation },
            ReplyView::Failed(reason),
        ) => StepView::Finished(Err(PipelineErrorView::SigningError(reason))),
        (
            AddDataStageView::Submitting { account, operation },
            ReplyView::Submitted,
        ) => StepView::Finished(Ok(account.apply(operation))),
        (
            AddDataStageView::Submitting { account, operation },
            ReplyView::Failed(reason),
        ) => StepView::Finished(Err(PipelineErrorView::LedgerSubmissionError(reason))),
        _ => StepView::Finished(Err(PipelineErrorView::UnexpectedReply)),
    }
}

impl AddData {
    /// Begins the append of `data` to the account `user_id`. The run that
    /// comes back is taken further by [`add_data`], with the reply to the
    /// request beside it.
    pub fn start(user_id: String, signing_key: SigningKey, data: Vec<u8>) -> (begun: (
        AddData,
        Request,
    ))
        ensures
            (begun.0@, begun.1@) == AddDataView::start(user_id@, signing_key@, data@),
    {
        let id = user_id.clone();
        (
            AddData { user_id, signing_key, data, stage: AddDataStage::Reading },
            Request::GetAccount { id },
        )
    }
}

/// Takes an append of data one reply further.
pub fn add_data(run: AddData, reply: Reply) -> (step: Step<AddData, Account>)
    ensures
        step@ == add_data_model(run@, reply@),
{
    let AddData { user_id, signing_key, data, stage } = run;
    match stage {
        AddDataStage::Reading => match reply {
            Reply::Account(AccountResponse::Found(account)) => {
                let request = Request::Sign {
                    key: signing_key.name.clone(),
                    message: copy_bytes(&data),
                };
                Step::Continue(
                    AddData {
                        user_id,
                        signing_key,
                        data,
                        stage: AddDataStage::SigningData { account },
                    },
                    request,
                )
            },
            Reply::Account(AccountResponse::NotFound) => Step::Finished(
                Err(PipelineError::AccountNotFound(user_id)),
            ),
            Reply::Failed(reason) => Step::Finished(Err(PipelineError::LedgerReadError(reason))),
            _ => Step::Finished(Err(PipelineError::UnexpectedReply)),
        },
        AddDataStage::SigningData { account } => match reply {
            Reply::Signature(signature) => {
                let operation = Operation::AddData {
                    data: copy_bytes(&data),
                    data_signature: SignatureBundle {
                        verifying_key: copy_bytes(&signing_key.verifying_key),
                        signature,
                    },
                };
                let request = Request::SignTransaction {
                    key: signing_key.name.clone(),
                    account: account.duplicate(),
                    id: user_id.clone(),
                    operation: operation.duplicate(),
                };
                Step::Continue(
                    AddData {
                        user_id,
                        signing_key,
                        data,
                        stage: AddDataStage::SigningTransaction { account, operation },
                    },
                    request,
                )
            },
            Reply::Failed(reason) => Step::Finished(Err(PipelineError::SigningError(reason))),
            _ => Step::Finished(Err(PipelineError::UnexpectedReply)),
        },
        AddDataStage::SigningTransaction { account, operation } => match reply {
            Reply::Signature(signature) => {
                let transaction = Transaction {
                    id: user_id.clone(),
                    operation: operation.duplicate(),
                    signature,
                };
                Step::Continue(
                    AddData {
                        user_id,
                        signing_key,
                        data,
                        stage: AddDataStage::Submitting { account, operation },
                    },
                    Request::Submit { transaction },
                )
            },
            Reply::Failed(reason) => Step::Finished(Err(PipelineError::SigningError(reason))),
            _ => Step::Finished(Err(PipelineError::UnexpectedReply)),
        },
        AddDataStage::Submitting { account, operation } => match reply {
            Reply::Submitted => {
                let mut account = account;
                account.process_operation(operation);
                Step::Finished(Ok(account))
            },
            Reply::Failed(reason) => Step::Finished(
                Err(PipelineError::LedgerSubmissionError(reason)),
            ),
            _ => Step::Finished(Err(PipelineError::UnexpectedReply)),
        },
    }
}

/// Creating an account that the ledger already shows changes nothing: the
/// run asks for the read, returns the account as the read showed it, and
/// ends there, without a transaction. So of two creations in a row, the
/// second of which sees what the first has written, only the first submits.
pub proof fn lemma_create_account_idempotent(
    log_id: Seq<char>,
    service_id: Seq<char>,
    service_key: SigningKeyView,
    visible: AccountView,
)
    ensures
        ({
            let (run, request) = CreateAccountView::start(log_id, service_id, service_key);
            let step = create_account_model(
                run,
                ReplyView::Account(AccountResponseView::Found(visible)),
            );
            &&& request == RequestView::GetAccount { id: log_id }
            &&& step == StepView::<CreateAccountView, AccountView>::Finished(Ok(visible))
            &&& !step.submits()
        }),
{
}

/// Two creations of one account in a row, the second of which sees what
/// the first has written: the first submits one transaction, the one that
/// creates the account, and returns the empty account with that operation
/// applied; the second ends at its read, returns that same account, and
/// submits nothing.
pub proof fn lemma_create_account_twice(
    log_id: Seq<char>,
    service_id: Seq<char>,
    service_key: SigningKeyView,
    key: Seq<u8>,
    challenge: Seq<u8>,
    signature: Seq<u8>,
)
    ensures
        ({
            let (reading, read) = CreateAccountView::start(log_id, service_id, service_key);
            let operation = reading.operation(key, challenge);
            let created = AccountView::empty().apply(operation);
            let fetching = create_account_model(
                reading,
                ReplyView::Account(AccountResponseView::NotFound),
            );
            let challenging = create_account_model(fetching->Continue_0, ReplyView::Key(key));
            let signing = create_account_model(
                challenging->Continue_0,
                ReplyView::Signature(challenge),
            );
            let submitting = create_account_model(
                signing->Continue_0,
                ReplyView::Signature(signature),
            );
            let first = create_account_model(submitting->Continue_0, ReplyView::Submitted);
            let second = create_account_model(
                reading,
                ReplyView::Account(AccountResponseView::Found(created)),
            );
            &&& !read.is_submission()
            &&& !fetching.submits()
            &&& !challenging.submits()
            &&& !signing.submits()
            &&& submitting matches StepView::Continue(_, request) && request
                == (RequestView::Submit {
                transaction: TransactionView { id: log_id, operation, signature },
            })
            &&& first == StepView::<CreateAccountView, AccountView>::Finished(Ok(created))
            &&& second == StepView::<CreateAccountView, AccountView>::Finished(Ok(created))
            &&& !second.submits()
        }),
{
}

/// Registering a service that the ledger already shows changes nothing:
/// the run ends at the read, without a transaction.
pub proof fn lemma_register_service_idempotent(
    service_id: Seq<char>,
    service_key: SigningKeyView,
    visible: AccountView,
)
    ensures
        ({
            let (run, request) = RegisterServiceView::start(service_id, service_key);
            let step = register_service_model(
                run,
                ReplyView::Account(AccountResponseView::Found(visible)),
            );
            &&& request == RequestView::GetAccount { id: service_id }
            &&& step == StepView::<RegisterServiceView, ()>::Finished(Ok(()))
            &&& !step.submits()
        }),
{
}

/// The requests that a creation makes when it is given `replies` one after
/// the other, up to its end or the end of the replies.
pub open spec fn create_account_requests(
    run: CreateAccountView,
    replies: Seq<ReplyView>,
) -> Seq<RequestView>
    decreases replies.len(),
{
    if replies.len() == 0 {
        Seq::empty()
    } else {
        match create_account_model(run, replies[0]) {
            StepView::Continue(next, request) => seq![request] + create_account_requests(
                next,
                replies.drop_first(),
            ),
            StepView::Finished(_) => Seq::empty(),
        }
    }
}

/// The requests that an append makes when it is given `replies` one after
/// the other, up to its end or the end of the replies.
pub open spec fn add_data_requests(run: AddDataView, replies: Seq<ReplyView>) -> Seq<RequestView>
    decreases replies.len(),
{
    if replies.len() == 0 {
        Seq::empty()
    } else {
        match add_data_model(run, replies[0]) {
            StepView::Continue(next, request) => seq![request] + add_data_requests(
                next,
                replies.drop_first(),
            ),
            StepView::Finished(_) => Seq::empty(),
        }
    }
}

impl CreateAccountView {
    /// Whether `operation` creates this run's account under this run's
    /// service.
    pub open spec fn creates_own(self, operation: OperationView) -> bool {
        match operation {
            OperationView::CreateAccount { id, service_id, challenge, key } => id == self.log_id
                && service_id == self.service_id,
            _ => false,
        }
    }

    /// Whether an operation that the run holds is its own.
    pub open spec fn coherent(self) -> bool {
        match self.stage {
            CreateStageView::SigningTransaction { operation } => self.creates_own(operation),
            CreateStageView::Submitting { operation } => self.creates_own(operation),
            _ => true,
        }
    }

    /// Whether `request`, if it signs or submits a transaction, does so for
    /// the creation of this run's account.
    pub open spec fn asks_own(self, request: RequestView) -> bool {
        match request {
            RequestView::SignTransaction { key, account, id, operation } => id == self.log_id
                && account == AccountView::empty() && self.creates_own(operation),
            RequestView::Submit { transaction } => transaction.id == self.log_id
                && self.creates_own(transaction.operation),
            _ => true,
        }
    }
}

impl AddDataView {
    /// Whether `operation` appends this run's payload under this run's key.
    pub open spec fn appends_own(self, operation: OperationView) -> bool {
        match operation {
            OperationView::AddData { data, verifying_key, signature } => data == self.data
                && verifying_key == self.signing_key.verifying_key,
            _ => false,
        }
    }

    /// Whether the run is past its read, holds `seen` as the account that
    /// the read has shown, and holds no operation but its own.
    pub open spec fn holds(self, seen: AccountView) -> bool {
        match self.stage {
            AddDataStageView::Reading => false,
            AddDataStageView::SigningData { account } => account == seen,
            AddDataStageView::SigningTransaction { account, operation } => account == seen
                && self.appends_own(operation),
            AddDataStageView::Submitting { account, operation } => account == seen
                && self.appends_own(operation),
        }
    }

    /// Whether `request`, if it signs or submits a transaction, does so for
    /// the append of this run's payload to this run's account, prepared
    /// against `seen`.
    pub open spec fn asks_own(self, request: RequestView, seen: AccountView) -> bool {
        match request {
            RequestView::SignTransaction { key, account, id, operation } => id == self.user_id
                && account == seen && self.appends_own(operation),
            RequestView::Submit { transaction } => transaction.id == self.user_id
                && self.appends_own(transaction.operation),
            _ => true,
        }
    }
}

/// A creation that holds no foreign operation never asks for one to be
/// signed or submitted.
proof fn lemma_create_account_asks_own(run: CreateAccountView, replies: Seq<ReplyView>, at: int)
    requires
        run.coherent(),
        0 <= at < create_account_requests(run, replies).len(),
    ensures
        run.asks_own(create_account_requests(run, replies)[at]),
    decreases replies.len(),
{
    match create_account_model(run, replies[0]) {
        StepView::Continue(next, request) => {
            if at > 0 {
                lemma_create_account_asks_own(next, replies.drop_first(), at - 1);
            }
        },
        StepView::Finished(_) => {},
    }
}

/// An append that is past its read never asks for a transaction to be
/// signed or submitted but its own, prepared against the account that the
/// read has shown.
proof fn lemma_add_data_asks_own(
    run: AddDataView,
    seen: AccountView,
    replies: Seq<ReplyView>,
    at: int,
)
    requires
        run.holds(seen),
        0 <= at < add_data_requests(run, replies).len(),
    ensures
        run.asks_own(add_data_requests(run, replies)[at], seen),
    decreases replies.len(),
{
    match add_data_model(run, replies[0]) {
        StepView::Continue(next, request) => {
            if at > 0 {
                lemma_add_data_asks_own(next, seen, replies.drop_first(), at - 1);
            }
        },
        StepView::Finished(_) => {},
    }
}

/// Whatever the replies, a creation signs and submits a transaction only
/// after its read has shown that the account is absent, and then only the
/// one that creates its own account, prepared against the empty account.
pub proof fn lemma_create_account_writes_after_read(
    log_id: Seq<char>,
    service_id: Seq<char>,
    service_key: SigningKeyView,
    replies: Seq<ReplyView>,
    at: int,
)
    requires
        0 <= at < create_account_requests(
            CreateAccountView::start(log_id, service_id, service_key).0,
            replies,
        ).len(),
    ensures
        ({
            let run = CreateAccountView::start(log_id, service_id, service_key).0;
            let request = create_account_requests(run, replies)[at];
            &&& replies[0] == ReplyView::Account(AccountResponseView::NotFound)
            &&& run.asks_own(request)
        }),
{
    let run = CreateAccountView::start(log_id, service_id, service_key).0;
    lemma_create_account_asks_own(run, replies, at);
}

/// Whatever the replies, an append signs and submits only after its read
/// has shown the account, and then only the transaction that appends its
/// own payload to that account, prepared against the account as the read
/// has shown it.
pub proof fn lemma_add_data_writes_after_read(
    user_id: Seq<char>,
    signing_key: SigningKeyView,
    data: Seq<u8>,
    replies: Seq<ReplyView>,
    at: int,
)
    requires
        0 <= at < add_data_requests(AddDataView::start(user_id, signing_key, data).0, replies).len(),
    ensures
        ({
            let run = AddDataView::start(user_id, signing_key, data).0;
            let request = add_data_requests(run, replies)[at];
            &&& replies[0] matches ReplyView::Account(AccountResponseView::Found(seen))
                && run.asks_own(request, seen)
        }),
{
    let run = AddDataView::start(user_id, signing_key, data).0;
    match replies[0] {
        ReplyView::Account(AccountResponseView::Found(seen)) => {
            match add_data_model(run, replies[0]) {
                StepView::Continue(next, request) => {
                    if at > 0 {
                        lemma_add_data_asks_own(next, seen, replies.drop_first(), at - 1);
                    }
                },
                StepView::Finished(_) => {},
            }
        },
        _ => {},
    }
}

/// An append to an account that the ledger does not show ends with
/// `AccountNotFound` at the read: nothing is signed, nothing is submitted.
pub proof fn lemma_add_data_needs_account(
    user_id: Seq<char>,
    signing_key: SigningKeyView,
    data: Seq<u8>,
)
    ensures
        ({
            let (run, request) = AddDataView::start(user_id, signing_key, data);
            let step = add_data_model(run, ReplyView::Account(AccountResponseView::NotFound));
            &&& request == RequestView::GetAccount { id: user_id }
            &&& step == StepView::<AddDataView, AccountView>::Finished(
                Err(PipelineErrorView::AccountNotFound(user_id)),
            )
            &&& !step.submits()
        }),
{
}

} // verus!
