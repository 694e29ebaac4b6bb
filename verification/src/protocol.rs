//! The exchange between a pipeline operation and whoever drives it.
//!
//! An operation never touches the ledger, the keystore or a clock. It hands
//! out one [`Request`] at a time, is given the [`Reply`] to it, and decides
//! from that what to ask next or how it ends.

use crate::ledger::{
    copy_bytes, Account, AccountResponse, AccountResponseView, AccountView, Operation, OperationView,
    Transaction, TransactionView,
};
use vstd::prelude::*;

verus! {

/// A signing key as the pipeline sees it: the name under which the keystore
/// holds it, and its public half. The secret half never enters the library.
#[derive(Debug, PartialEq, Eq)]
pub struct SigningKey {
    pub name: String,
    pub verifying_key: Vec<u8>,
}

/// Mathematical value of a [`SigningKey`].
pub struct SigningKeyView {
    pub name: Seq<char>,
    pub verifying_key: Seq<u8>,
}

impl View for SigningKey {
    type V = SigningKeyView;

    open spec fn view(&self) -> SigningKeyView {
        SigningKeyView { name: self.name@, verifying_key: self.verifying_key@ }
    }
}

impl SigningKey {
    /// A copy of the key's name and public half.
    pub fn duplicate(&self) -> (copy: SigningKey)
        ensures
            copy@ == self@,
    {
        SigningKey { name: self.name.clone(), verifying_key: copy_bytes(&self.verifying_key) }
    }
}

/// What an operation asks its driver to do next.
#[derive(Debug, PartialEq, Eq)]
pub enum Request {
    /// Read the account with this identifier from the ledger.
    GetAccount { id: String },
    /// Fetch the signing key of this name from the keystore, creating it if
    /// it is not there, and answer with its public half.
    GetOrCreateKey { name: String },
    /// Hash `message` and sign the digest with the key named `key`.
    Sign { key: String, message: Vec<u8> },
    /// Sign, with the key named `key`, the transaction that applies
    /// `operation` to the account `id`, prepared against `account`.
    SignTransaction { key: String, account: Account, id: String, operation: Operation },
    /// Submit the signed transaction to the ledger.
    Submit { transaction: Transaction },
    /// Let this many seconds pass.
    Sleep { secs: u64 },
}

/// Mathematical value of a [`Request`].
pub enum RequestView {
    GetAccount { id: Seq<char> },
    GetOrCreateKey { name: Seq<char> },
    Sign { key: Seq<char>, message: Seq<u8> },
    SignTransaction { key: Seq<char>, account: AccountView, id: Seq<char>, operation: OperationView },
    Submit { transaction: TransactionView },
    Sleep { secs: u64 },
}

impl View for Request {
    type V = RequestView;

    open spec fn view(&self) -> RequestView {
        match *self {
            Request::GetAccount { id } => RequestView::GetAccount { id: id@ },
            Request::GetOrCreateKey { name } => RequestView::GetOrCreateKey { name: name@ },
            Request::Sign { key, message } => RequestView::Sign { key: key@, message: message@ },
            Request::SignTransaction { key, account, id, operation } => RequestView::SignTransaction {
                key: key@,
                account: account@,
                id: id@,
                operation: operation@,
            },
            Request::Submit { transaction } => RequestView::Submit { transaction: transaction@ },
            Request::Sleep { secs } => RequestView::Sleep { secs },
        }
    }
}

impl RequestView {
    /// Whether the request puts a transaction before the ledger.
    pub open spec fn is_submission(self) -> bool {
        self is Submit
    }
}

/// What the driver hands back.
#[derive(Debug, PartialEq, Eq)]
pub enum Reply {
    /// The ledger was read.
    Account(AccountResponse),
    /// The keystore holds the key; this is its public half.
    Key(Vec<u8>),
    /// The signature asked for.
    Signature(Vec<u8>),
    /// The ledger acknowledged the transaction.
    Submitted,
    /// The time asked for has passed.
    Woke,
    /// The request failed, for this reason.
    Failed(String),
}

/// Mathematical value of a [`Reply`].
pub enum ReplyView {
    Account(AccountResponseView),
    Key(Seq<u8>),
    Signature(Seq<u8>),
    Submitted,
    Woke,
    Failed(Seq<char>),
}

impl View for Reply {
    type V = ReplyView;

    open spec fn view(&self) -> ReplyView {
        match *self {
            Reply::Account(response) => ReplyView::Account(response@),
            Reply::Key(key) => ReplyView::Key(key@),
            Reply::Signature(signature) => ReplyView::Signature(signature@),
            Reply::Submitted => ReplyView::Submitted,
            Reply::Woke => ReplyView::Woke,
            Reply::Failed(reason) => ReplyView::Failed(reason@),
        }
    }
}

/// Why a pipeline operation ended without its result.
#[derive(Debug, PartialEq, Eq)]
pub enum PipelineError {
    /// The ledger could not be read.
    LedgerReadError(String),
    /// The keystore could not give the key.
    KeystoreError(String),
    /// A signature could not be made.
    SigningError(String),
    /// The ledger rejected the transaction or could not be reached.
    LedgerSubmissionError(String),
    /// The account to append to does not exist.
    AccountNotFound(String),
    /// The account did not become visible in the time allowed.
    Timeout(String),
    /// The driver answered something other than what was asked.
    UnexpectedReply,
}

/// Mathematical value of a [`PipelineError`].
pub enum PipelineErrorView {
    LedgerReadError(Seq<char>),
    KeystoreError(Seq<char>),
    SigningError(Seq<char>),
    LedgerSubmissionError(Seq<char>),
    AccountNotFound(Seq<char>),
    Timeout(Seq<char>),
    UnexpectedReply,
}

impl PipelineErrorView {
    /// The error in words.
    pub open spec fn message(self) -> Seq<char> {
        match self {
            PipelineErrorView::LedgerReadError(reason) => reason,
            PipelineErrorView::KeystoreError(reason) => "Error getting key from store: "@ + reason,
            PipelineErrorView::SigningError(reason) => reason,
            PipelineErrorView::LedgerSubmissionError(reason) => reason,
            PipelineErrorView::AccountNotFound(id) => "Account "@ + id + " not found"@,
            PipelineErrorView::Timeout(id) => "Account "@ + id + " not available after waiting"@,
            PipelineErrorView::UnexpectedReply => "Unexpected reply"@,
        }
    }
}

impl View for PipelineError {
    type V = PipelineErrorView;

    open spec fn view(&self) -> PipelineErrorView {
        match *self {
            PipelineError::LedgerReadError(reason) => PipelineErrorView::LedgerReadError(reason@),
            PipelineError::KeystoreError(reason) => PipelineErrorView::KeystoreError(reason@),
            PipelineError::SigningError(reason) => PipelineErrorView::SigningError(reason@),
            PipelineError::LedgerSubmissionError(reason) => PipelineErrorView::LedgerSubmissionError(
                reason@,
            ),
            PipelineError::AccountNotFound(id) => PipelineErrorView::AccountNotFound(id@),
            PipelineError::Timeout(id) => PipelineErrorView::Timeout(id@),
            PipelineError::UnexpectedReply => PipelineErrorView::UnexpectedReply,
        }
    }
}

impl PipelineError {
    /// The error in words.
    pub fn message(&self) -> (text: String)
        ensures
            text@ == self@.message(),
    {
        match self {
            PipelineError::LedgerReadError(reason) => reason.clone(),
            PipelineError::KeystoreError(reason) => String::from_str(
                "Error getting key from store: ",
            ).concat(reason.as_str()),
            PipelineError::SigningError(reason) => reason.clone(),
            PipelineError::LedgerSubmissionError(reason) => reason.clone(),
            PipelineError::AccountNotFound(id) => String::from_str("Account ").concat(
                id.as_str(),
            ).concat(" not found"),
            PipelineError::Timeout(id) => String::from_str("Account ").concat(id.as_str()).concat(
                " not available after waiting",
            ),
            PipelineError::UnexpectedReply => String::from_str("Unexpected reply"),
        }
    }
}

/// Where an operation stands after a reply: it goes on with a new request,
/// or it has ended.
#[derive(Debug, PartialEq, Eq)]
pub enum Step<M, T> {
    Continue(M, Request),
    Finished(Result<T, PipelineError>),
}

/// Mathematical value of a [`Step`].
pub enum StepView<M, T> {
    Continue(M, RequestView),
    Finished(Result<T, PipelineErrorView>),
}

impl<M: View, T: View> View for Step<M, T> {
    type V = StepView<M::V, T::V>;

    open spec fn view(&self) -> StepView<M::V, T::V> {
        match *self {
            Step::Continue(run, request) => StepView::Continue(run@, request@),
            Step::Finished(Ok(value)) => StepView::Finished(Ok(value@)),
            Step::Finished(Err(error)) => StepView::Finished(Err(error@)),
        }
    }
}

impl<M, T> StepView<M, T> {
    /// Whether this step puts a transaction before the ledger.
    pub open spec fn submits(self) -> bool {
        match self {
            StepView::Continue(_, request) => request.is_submission(),
            StepView::Finished(_) => false,
        }
    }
}

} // verus!
