//! Signed tree heads: what a log publishes about its own state, how one is
//! taken from the log's answer, and how it is passed on to the gateway.

use vstd::prelude::*;

verus! {

/// A log's signed summary of its state at one moment. The root hash and the
/// signature are kept in the base64 text in which the log sent them.
#[derive(Debug, PartialEq, Eq)]
pub struct SignedTreeHead {
    pub tree_size: u64,
    pub timestamp: u64,
    pub sha256_root_hash: String,
    pub tree_head_signature: String,
}

/// Mathematical value of a [`SignedTreeHead`].
pub struct SignedTreeHeadView {
    pub tree_size: u64,
    pub timestamp: u64,
    pub sha256_root_hash: Seq<char>,
    pub tree_head_signature: Seq<char>,
}

impl View for SignedTreeHead {
    type V = SignedTreeHeadView;

    open spec fn view(&self) -> SignedTreeHeadView {
        SignedTreeHeadView {
            tree_size: self.tree_size,
            timestamp: self.timestamp,
            sha256_root_hash: self.sha256_root_hash@,
            tree_head_signature: self.tree_head_signature@,
        }
    }
}

impl SignedTreeHead {
    /// A copy of the tree head.
    pub fn duplicate(&self) -> (copy: SignedTreeHead)
        ensures
            copy@ == self@,
    {
        SignedTreeHead {
            tree_size: self.tree_size,
            timestamp: self.timestamp,
            sha256_root_hash: self.sha256_root_hash.clone(),
            tree_head_signature: self.tree_head_signature.clone(),
        }
    }
}

/// Whether a status code stands for success: 200 to 299.
pub open spec fn status_is_success(status: u16) -> bool {
    200 <= status < 300
}

/// Whether a status code stands for a client or server error: 400 to 599.
pub open spec fn status_is_error(status: u16) -> bool {
    400 <= status < 600
}

/// Whether a status code stands for success.
pub fn is_success(status: u16) -> (yes: bool)
    ensures
        yes == status_is_success(status),
{
    200 <= status && status < 300
}

/// Whether a status code stands for a client or server error.
pub fn is_error(status: u16) -> (yes: bool)
    ensures
        yes == status_is_error(status),
{
    400 <= status && status < 600
}

/// Seconds after which a fetch that has not been answered is given up.
pub const FETCH_TIMEOUT_SECS: u64 = 30;

/// The address at which a log serves its current tree head.
pub open spec fn sth_endpoint(log_url: Seq<char>) -> Seq<char> {
    log_url + "/ct/v1/get-sth"@
}

/// The address at which the log at `log_url` serves its current tree head.
pub fn sth_url(log_url: &str) -> (url: String)
    ensures
        url@ == sth_endpoint(log_url@),
{
    String::from_str(log_url).concat("/ct/v1/get-sth")
}

/// What came of one request to a log.
#[derive(Debug, PartialEq, Eq)]
pub enum FetchReply {
    /// No response arrived: the log could not be reached or did not answer
    /// in time.
    NoResponse { reason: String },
    /// A response arrived. `sth` is the body read as a tree head, where it
    /// has that shape.
    Response { status: u16, body: String, sth: Option<SignedTreeHead> },
}

/// Mathematical value of a [`FetchReply`].
pub enum FetchReplyView {
    NoResponse { reason: Seq<char> },
    Response { status: u16, body: Seq<char>, sth: Option<SignedTreeHeadView> },
}

impl View for FetchReply {
    type V = FetchReplyView;

    open spec fn view(&self) -> FetchReplyView {
        match *self {
            FetchReply::NoResponse { reason } => FetchReplyView::NoResponse { reason: reason@ },
            FetchReply::Response { status, body, sth } => FetchReplyView::Response {
                status,
                body: body@,
                sth: match sth {
                    Some(head) => Some(head@),
                    None => None,
                },
            },
        }
    }
}

/// Why a fetch gave no tree head.
#[derive(Debug, PartialEq, Eq)]
pub enum FetchError {
    /// The log was not reached, or answered with a status outside 200 to
    /// 299. `status` is the status where there was one; `detail` is the
    /// body sent with it, or the reason no response arrived.
    TransportError { status: Option<u16>, detail: String },
    /// The log answered with success, but the body is no tree head.
    FormatError,
}

/// Mathematical value of a [`FetchError`].
pub enum FetchErrorView {
    TransportError { status: Option<u16>, detail: Seq<char> },
    FormatError,
}

impl View for FetchError {
    type V = FetchErrorView;

    open spec fn view(&self) -> FetchErrorView {
        match *self {
            FetchError::TransportError { status, detail } => FetchErrorView::TransportError {
                status,
                detail: detail@,
            },
            FetchError::FormatError => FetchErrorView::FormatError,
        }
    }
}

/// What a reply from a log amounts to: the tree head in a successful
/// response that holds one, a format error for a successful response that
/// holds none, and a transport error for everything else.
pub open spec fn fetch_sth_model(reply: FetchReplyView) -> Result<
    SignedTreeHeadView,
    FetchErrorView,
> {
    match reply {
        FetchReplyView::NoResponse { reason } => Err(
            FetchErrorView::TransportError { status: None, detail: reason },
        ),
        FetchReplyView::Response { status, body, sth } => if !status_is_success(status) {
            Err(FetchErrorView::TransportError { status: Some(status), detail: body })
        } else {
            match sth {
                Some(head) => Ok(head),
                None => Err(FetchErrorView::FormatError),
            }
        },
    }
}

/// The value of a fetch result.
pub open spec fn fetched_view(fetched: Result<SignedTreeHead, FetchError>) -> Result<
    SignedTreeHeadView,
    FetchErrorView,
> {
    match fetched {
        Ok(head) => Ok(head@),
        Err(error) => Err(error@),
    }
}

/// Reads the tree head out of a log's reply.
pub fn fetch_sth(reply: FetchReply) -> (fetched: Result<SignedTreeHead, FetchError>)
    ensures
        fetched_view(fetched) == fetch_sth_model(reply@),
{
    match reply {
        FetchReply::NoResponse { reason } => Err(
            FetchError::TransportError { status: None, detail: reason },
        ),
        FetchReply::Response { status, body, sth } => {
            if !is_success(status) {
                Err(FetchError::TransportError { status: Some(status), detail: body })
            } else {
                match sth {
                    Some(head) => Ok(head),
                    None => Err(FetchError::FormatError),
                }
            }
        },
    }
}

/// The address of the gateway's submission endpoint.
pub const SUBMIT_URL: &'static str = "http://127.0.0.1:50524/v1/submit_sth";

/// The body of a submission to the gateway: a tree head, the log it belongs
/// to, and a Merkle proof.
#[derive(Debug, PartialEq, Eq)]
pub struct SthSubmission {
    pub log_id: String,
    pub tree_size: u64,
    pub timestamp: u64,
    pub root_hash: String,
    pub signature: String,
    pub merkle_proof: Vec<String>,
}

/// Mathematical value of an [`SthSubmission`].
pub struct SthSubmissionView {
    pub log_id: Seq<char>,
    pub tree_size: u64,
    pub timestamp: u64,
    pub root_hash: Seq<char>,
    pub signature: Seq<char>,
    pub merkle_proof: Seq<Seq<char>>,
}

/// The texts that a list of strings holds.
pub open spec fn strings_view(strings: Seq<String>) -> Seq<Seq<char>> {
    Seq::new(strings.len(), |at: int| strings[at]@)
}

impl View for SthSubmission {
    type V = SthSubmissionView;

    open spec fn view(&self) -> SthSubmissionView {
        SthSubmissionView {
            log_id: self.log_id@,
            tree_size: self.tree_size,
            timestamp: self.timestamp,
            root_hash: self.root_hash@,
            signature: self.signature@,
            merkle_proof: strings_view(self.merkle_proof@),
        }
    }
}

impl SthSubmissionView {
    /// The submission of `sth` for the log `log_id` with `proof`.
    pub open spec fn of(
        log_id: Seq<char>,
        sth: SignedTreeHeadView,
        proof: Seq<Seq<char>>,
    ) -> SthSubmissionView {
        SthSubmissionView {
            log_id,
            tree_size: sth.tree_size,
            timestamp: sth.timestamp,
            root_hash: sth.sha256_root_hash,
            signature: sth.tree_head_signature,
            merkle_proof: proof,
        }
    }

    /// The tree head that the submission carries.
    pub open spec fn signed_tree_head(self) -> SignedTreeHeadView {
        SignedTreeHeadView {
            tree_size: self.tree_size,
            timestamp: self.timestamp,
            sha256_root_hash: self.root_hash,
            tree_head_signature: self.signature,
        }
    }
}

/// A tree head put into a submission and taken out again is the same tree
/// head: size, timestamp, root hash and signature are unchanged.
pub proof fn lemma_submission_round_trip(
    log_id: Seq<char>,
    sth: SignedTreeHeadView,
    proof: Seq<Seq<char>>,
)
    ensures
        SthSubmissionView::of(log_id, sth, proof).signed_tree_head() == sth,
        SthSubmissionView::of(log_id, sth, proof).log_id == log_id,
        SthSubmissionView::of(log_id, sth, proof).merkle_proof == proof,
{
}

/// The body with which `sth` is submitted for the log `log_id`.
pub fn submit_sth(log_id: &str, sth: &SignedTreeHead, proof: Vec<String>) -> (payload:
    SthSubmission)
    ensures
        payload@ == SthSubmissionView::of(log_id@, sth@, strings_view(proof@)),
{
    SthSubmission {
        log_id: String::from_str(log_id),
        tree_size: sth.tree_size,
        timestamp: sth.timestamp,
        root_hash: sth.sha256_root_hash.clone(),
        signature: sth.tree_head_signature.clone(),
        merkle_proof: proof,
    }
}

impl SthSubmission {
    /// The tree head that the submission carries.
    pub fn signed_tree_head(&self) -> (sth: SignedTreeHead)
        ensures
            sth@ == self@.signed_tree_head(),
    {
        SignedTreeHead {
            tree_size: self.tree_size,
            timestamp: self.timestamp,
            sha256_root_hash: self.root_hash.clone(),
            tree_head_signature: self.signature.clone(),
        }
    }
}

/// What came of one submission to the gateway.
#[derive(Debug, PartialEq, Eq)]
pub enum SubmitReply {
    /// No response arrived.
    NoResponse { reason: String },
    /// The gateway answered with this status.
    Response { status: u16 },
}

/// Mathematical value of a [`SubmitReply`].
pub enum SubmitReplyView {
    NoResponse { reason: Seq<char> },
    Response { status: u16 },
}

impl View for SubmitReply {
    type V = SubmitReplyView;

    open spec fn view(&self) -> SubmitReplyView {
        match *self {
            SubmitReply::NoResponse { reason } => SubmitReplyView::NoResponse { reason: reason@ },
            SubmitReply::Response { status } => SubmitReplyView::Response { status },
        }
    }
}

/// Why a submission did not go through.
#[derive(Debug, PartialEq, Eq)]
pub enum LedgerSubmissionError {
    /// The gateway could not be reached.
    Unreachable { reason: String },
    /// The gateway answered with a client or server error.
    Rejected { status: u16 },
}

/// Mathematical value of a [`LedgerSubmissionError`].
pub enum LedgerSubmissionErrorView {
    Unreachable { reason: Seq<char> },
    Rejected { status: u16 },
}

impl View for LedgerSubmissionError {
    type V = LedgerSubmissionErrorView;

    open spec fn view(&self) -> LedgerSubmissionErrorView {
        match *self {
            LedgerSubmissionError::Unreachable { reason } => {
                LedgerSubmissionErrorView::Unreachable { reason: reason@ }
            },
            LedgerSubmissionError::Rejected { status } => {
                LedgerSubmissionErrorView::Rejected { status }
            },
        }
    }
}

/// What a reply from the gateway amounts to: a failure where none arrived
/// or where its status is a client or server error, success otherwise.
pub open spec fn submission_model(reply: SubmitReplyView) -> Result<
    (),
    LedgerSubmissionErrorView,
> {
    match reply {
        SubmitReplyView::NoResponse { reason } => Err(
            LedgerSubmissionErrorView::Unreachable { reason },
        ),
        SubmitReplyView::Response { status } => if status_is_error(status) {
            Err(LedgerSubmissionErrorView::Rejected { status })
        } else {
            Ok(())
        },
    }
}

/// The value of a submission result.
pub open spec fn submitted_view(submitted: Result<(), LedgerSubmissionError>) -> Result<
    (),
    LedgerSubmissionErrorView,
> {
    match submitted {
        Ok(_) => Ok(()),
        Err(error) => Err(error@),
    }
}

/// Reads the gateway's reply to a submission.
pub fn submission_outcome(reply: SubmitReply) -> (submitted: Result<(), LedgerSubmissionError>)
    ensures
        submitted_view(submitted) == submission_model(reply@),
{
    match reply {
        SubmitReply::NoResponse { reason } => Err(LedgerSubmissionError::Unreachable { reason }),
        SubmitReply::Response { status } => {
            if is_error(status) {
                Err(LedgerSubmissionError::Rejected { status })
            } else {
                Ok(())
            }
        },
    }
}

} // verus!
