//! The submission gateway: what is done with a tree head that was handed in
//! from outside.
//!
//! One submission runs the whole pipeline, in order: the service is
//! registered unless it is, and given a moment to settle; the log's account
//! is created unless it exists; the account is waited for until the ledger
//! shows it; and the payload is appended to it under the account's own key.
//! The first step that fails ends the run, and every run ends in a response.

use crate::ledger::copy_bytes;
use crate::operations::{
    account_key_name, add_data, add_data_model, create_account, create_account_model, key_name,
    register_service, register_service_model, AddData, AddDataView, CreateAccount,
    CreateAccountView, RegisterService, RegisterServiceView,
};
use crate::protocol::{
    PipelineError, PipelineErrorView, Reply, ReplyView, Request, RequestView, SigningKey,
    SigningKeyView, Step, StepView,
};
use crate::sth::SthSubmission;
use crate::visibility::{
    wait_for_account, wait_for_account_model, WaitForAccount, WaitForAccountView, INTERVAL_SECS,
    MAX_ATTEMPTS,
};
use vstd::prelude::*;

verus! {

/// Seconds given to the registration of the service to settle before the
/// account is turned to.
pub const SETTLE_SECS: u64 = 2;

/// Status of a response that acknowledges a submission.
pub const STATUS_OK: u16 = 200;

/// Status of a response to a submission that failed at one of its steps.
pub const STATUS_BAD_REQUEST: u16 = 400;

/// Status of a response to a failure that no step accounts for.
pub const STATUS_INTERNAL_SERVER_ERROR: u16 = 500;

/// What the gateway answers.
#[derive(Debug, PartialEq, Eq)]
pub enum ResponseBody {
    Acknowledgment { status: String, message: String },
    Failure { error: String },
}

/// Mathematical value of a [`ResponseBody`].
pub enum ResponseBodyView {
    Acknowledgment { status: Seq<char>, message: Seq<char> },
    Failure { error: Seq<char> },
}

impl View for ResponseBody {
    type V = ResponseBodyView;

    open spec fn view(&self) -> ResponseBodyView {
        match *self {
            ResponseBody::Acknowledgment { status, message } => ResponseBodyView::Acknowledgment {
                status: status@,
                message: message@,
            },
            ResponseBody::Failure { error } => ResponseBodyView::Failure { error: error@ },
        }
    }
}

/// A response of the gateway: its status and its body.
#[derive(Debug, PartialEq, Eq)]
pub struct GatewayResponse {
    pub status: u16,
    pub body: ResponseBody,
}

/// Mathematical value of a [`GatewayResponse`].
pub struct GatewayResponseView {
    pub status: u16,
    pub body: ResponseBodyView,
}

impl View for GatewayResponse {
    type V = GatewayResponseView;

    open spec fn view(&self) -> GatewayResponseView {
        GatewayResponseView { status: self.status, body: self.body@ }
    }
}

impl GatewayResponseView {
    /// The response to a submission that went through.
    pub open spec fn accepted() -> GatewayResponseView {
        GatewayResponseView {
            status: STATUS_OK,
            body: ResponseBodyView::Acknowledgment {
                status: "success"@,
                message: "STH submitted successfully"@,
            },
        }
    }

    /// The response to a submission that failed at a step, in the step's
    /// own words.
    pub open spec fn bad_request(error: Seq<char>) -> GatewayResponseView {
        GatewayResponseView {
            status: STATUS_BAD_REQUEST,
            body: ResponseBodyView::Failure { error },
        }
    }

    /// The response to a failure that no step accounts for.
    pub open spec fn internal_error() -> GatewayResponseView {
        GatewayResponseView {
            status: STATUS_INTERNAL_SERVER_ERROR,
            body: ResponseBodyView::Failure { error: "Internal server error"@ },
        }
    }

    /// The response to a submission that ended with `error`: a reply that
    /// answers nothing that was asked is no failure of a step, every other
    /// error is.
    pub open spec fn rejected(error: PipelineErrorView) -> GatewayResponseView {
        if error is UnexpectedReply {
            Self::internal_error()
        } else {
            Self::bad_request(error.message())
        }
    }
}

impl GatewayResponse {
    /// The response to a submission that went through.
    pub fn accepted() -> (response: GatewayResponse)
        ensures
            response@ == GatewayResponseView::accepted(),
    {
        GatewayResponse {
            status: STATUS_OK,
            body: ResponseBody::Acknowledgment {
                status: String::from_str("success"),
                message: String::from_str("STH submitted successfully"),
            },
        }
    }

    /// The response to a submission that failed at a step.
    pub fn bad_request(error: String) -> (response: GatewayResponse)
        ensures
            response@ == GatewayResponseView::bad_request(error@),
    {
        GatewayResponse { status: STATUS_BAD_REQUEST, body: ResponseBody::Failure { error } }
    }

    /// The response to a failure that no step accounts for.
    pub fn internal_error() -> (response: GatewayResponse)
        ensures
            response@ == GatewayResponseView::internal_error(),
    {
        GatewayResponse {
            status: STATUS_INTERNAL_SERVER_ERROR,
            body: ResponseBody::Failure { error: String::from_str("Internal server error") },
        }
    }

    /// The response to a submission that ended with `error`.
    pub fn rejected(error: &PipelineError) -> (response: GatewayResponse)
        ensures
            response@ == GatewayResponseView::rejected(error@),
    {
        match error {
            PipelineError::UnexpectedReply => GatewayResponse::internal_error(),
            _ => GatewayResponse::bad_request(error.message()),
        }
    }
}

/// The step of the pipeline that a submission has reached.
#[derive(Debug, PartialEq, Eq)]
pub enum GatewayStage {
    /// The service is being registered.
    Registering(RegisterService),
    /// The registration is settling.
    Settling,
    /// The log's account is being created.
    Creating(CreateAccount),
    /// The log's account is being waited for.
    Waiting(WaitForAccount),
    /// The keystore is asked for the account's key.
    FetchingKey,
    /// The payload is being appended.
    Adding(AddData),
}

/// Mathematical value of a [`GatewayStage`].
pub enum GatewayStageView {
    Registering(RegisterServiceView),
    Settling,
    Creating(CreateAccountView),
    Waiting(WaitForAccountView),
    FetchingKey,
    Adding(AddDataView),
}

impl View for GatewayStage {
    type V = GatewayStageView;

    open spec fn view(&self) -> GatewayStageView {
        match *self {
            GatewayStage::Registering(run) => GatewayStageView::Registering(run@),
            GatewayStage::Settling => GatewayStageView::Settling,
            GatewayStage::Creating(run) => GatewayStageView::Creating(run@),
            GatewayStage::Waiting(run) => GatewayStageView::Waiting(run@),
            GatewayStage::FetchingKey => GatewayStageView::FetchingKey,
            GatewayStage::Adding(run) => GatewayStageView::Adding(run@),
        }
    }
}

/// One submission on its way through the pipeline. `sth_data` is the
/// payload as it will be appended to the account of `log_id`.
#[derive(Debug, PartialEq, Eq)]
pub struct Gateway {
    pub log_id: String,
    pub sth_data: Vec<u8>,
    pub service_id: String,
    pub service_key: SigningKey,
    pub stage: GatewayStage,
}

/// Mathematical value of a [`Gateway`].
pub struct GatewayView {
    pub log_id: Seq<char>,
    pub sth_data: Seq<u8>,
    pub service_id: Seq<char>,
    pub service_key: SigningKeyView,
    pub stage: GatewayStageView,
}

impl View for Gateway {
    type V = GatewayView;

    open spec fn view(&self) -> GatewayView {
        GatewayView {
            log_id: self.log_id@,
            sth_data: self.sth_data@,
            service_id: self.service_id@,
            service_key: self.service_key@,
            stage: self.stage@,
        }
    }
}

/// Where a submission stands after a reply: it goes on with a new request,
/// or it is answered.
#[derive(Debug, PartialEq, Eq)]
pub enum GatewayStep {
    Continue(Gateway, Request),
    Respond(GatewayResponse),
}

/// Mathematical value of a [`GatewayStep`].
pub enum GatewayStepView {
    Continue(GatewayView, RequestView),
    Respond(GatewayResponseView),
}

impl View for GatewayStep {
    type V = GatewayStepView;

    open spec fn view(&self) -> GatewayStepView {
        match *self {
            GatewayStep::Continue(gateway, request) => GatewayStepView::Continue(
                gateway@,
                request@,
            ),
            GatewayStep::Respond(response) => GatewayStepView::Respond(response@),
        }
    }
}

impl GatewayView {
    /// The same submission at another stage.
    pub open spec fn at(self, stage: GatewayStageView) -> GatewayView {
        GatewayView { stage, ..self }
    }

    /// The key under which the payload is appended: the account's own, of
    /// which `verifying_key` is the public half.
    pub open spec fn account_key(self, verifying_key: Seq<u8>) -> SigningKeyView {
        SigningKeyView { name: account_key_name(self.log_id, self.service_id), verifying_key }
    }

    /// A submission of `sth_data` for the log `log_id` at its beginning, and
    /// what it asks first: the registration of the service begins.
    pub open spec fn start(
        log_id: Seq<char>,
        sth_data: Seq<u8>,
        service_id: Seq<char>,
        service_key: SigningKeyView,
    ) -> (GatewayView, RequestView) {
        let (run, request) = RegisterServiceView::start(service_id, service_key);
        (
            GatewayView {
                log_id,
                sth_data,
                service_id,
                service_key,
                stage: GatewayStageView::Registering(run),
            },
            request,
        )
    }

    /// The submission as the registration settles.
    pub open spec fn settling(self) -> GatewayStepView {
        GatewayStepView::Continue(
            self.at(GatewayStageView::Settling),
            RequestView::Sleep { secs: SETTLE_SECS },
        )
    }

    /// The submission as the creation of the account begins.
    pub open spec fn creating(self) -> GatewayStepView {
        let (run, request) = CreateAccountView::start(
            self.log_id,
            self.service_id,
            self.service_key,
        );
        GatewayStepView::Continue(self.at(GatewayStageView::Creating(run)), request)
    }

    /// The submission as the wait for the account begins.
    pub open spec fn waiting(self) -> GatewayStepView {
        let first = WaitForAccountView::first(self.log_id, MAX_ATTEMPTS, INTERVAL_SECS);
        GatewayStepView::Continue(self.at(GatewayStageView::Waiting(first)), first.read())
    }

    /// The submission as it asks for the account's key.
    pub open spec fn fetching_key(self) -> GatewayStepView {
        GatewayStepView::Continue(
            self.at(GatewayStageView::FetchingKey),
            RequestView::GetOrCreateKey { name: account_key_name(self.log_id, self.service_id) },
        )
    }

    /// The submission as the append begins, under the key whose public half
    /// is `verifying_key`.
    pub open spec fn adding(self, verifying_key: Seq<u8>) -> GatewayStepView {
        let (run, request) = AddDataView::start(
            self.log_id,
            self.account_key(verifying_key),
            self.sth_data,
        );
        GatewayStepView::Continue(self.at(GatewayStageView::Adding(run)), request)
    }
}

/// What the gateway does with a reply. The step that the submission has
/// reached is taken further by it. A step that goes on keeps the submission
/// at that step; one that ends well begins the next, and the last one that
/// does so is answered with the acknowledgment; one that ends badly is
/// answered with the rejection of its error. Between the registration and
/// the creation of the account lies one pause.
pub open spec fn handle_sth_submission_model(
    gateway: GatewayView,
    reply: ReplyView,
) -> GatewayStepView {
    match gateway.stage {
        GatewayStageView::Registering(run) => match register_service_model(run, reply) {
            StepView::Continue(next, request) => GatewayStepView::Continue(
                gateway.at(GatewayStageView::Registering(next)),
                request,
            ),
            StepView::Finished(Ok(_)) => gateway.settling(),
            StepView::Finished(Err(error)) => GatewayStepView::Respond(
                GatewayResponseView::rejected(error),
            ),
        },
        GatewayStageView::Settling => match reply {
            ReplyView::Woke => gateway.creating(),
            _ => GatewayStepView::Respond(
                GatewayResponseView::rejected(PipelineErrorView::UnexpectedReply),
            ),
        },
        GatewayStageView::Creating(run) => match create_account_model(run, reply) {
            StepView::Continue(next, request) => GatewayStepView::Continue(
                gateway.at(GatewayStageView::Creating(next)),
                request,
            ),
            StepView::Finished(Ok(_)) => gateway.waiting(),
            StepView::Finished(Err(error)) => GatewayStepView::Respond(
                GatewayResponseView::rejected(error),
            ),
        },
        GatewayStageView::Waiting(run) => match wait_for_account_model(run, reply) {
            StepView::Continue(next, request) => GatewayStepView::Continue(
                gateway.at(GatewayStageView::Waiting(next)),
                request,
            ),
            StepView::Finished(Ok(_)) => gateway.fetching_key(),
            StepView::Finished(Err(error)) => GatewayStepView::Respond(
                GatewayResponseView::rejected(error),
            ),
        },
        GatewayStageView::FetchingKey => match reply {
            ReplyView::Key(verifying_key) => gateway.adding(verifying_key),
            ReplyView::Failed(reason) => GatewayStepView::Respond(
                GatewayResponseView::rejected(PipelineErrorView::KeystoreError(reason)),
            ),
            _ => GatewayStepView::Respond(
                GatewayResponseView::rejected(PipelineErrorView::UnexpectedReply),
            ),
        },
        GatewayStageView::Adding(run) => match add_data_model(run, reply) {
            StepView::Continue(next, request) => GatewayStepView::Continue(
                gateway.at(GatewayStageView::Adding(next)),
                request,
            ),
            StepView::Finished(Ok(_)) => GatewayStepView::Respond(GatewayResponseView::accepted()),
            StepView::Finished(Err(error)) => GatewayStepView::Respond(
                GatewayResponseView::rejected(error),
            ),
        },
    }
}

impl Gateway {
    /// Begins the handling of `payload`, of which `sth_data` is the form
    /// that will be appended to the log's account. The submission that comes
    /// back is taken further by [`handle_sth_submission`], with the reply to
    /// the request beside it.
    pub fn start(
        payload: &SthSubmission,
        sth_data: Vec<u8>,
        service_id: String,
        service_key: SigningKey,
    ) -> (begun: (Gateway, Request))
        ensures
            (begun.0@, begun.1@) == GatewayView::start(
                payload.log_id@,
                sth_data@,
                service_id@,
                service_key@,
            ),
    {
        let (run, request) = RegisterService::start(service_id.clone(), service_key.duplicate());
        (
            Gateway {
                log_id: payload.log_id.clone(),
                sth_data,
                service_id,
                service_key,
                stage: GatewayStage::Registering(run),
            },
            request,
        )
    }
}

/// Takes a submission one reply further.
pub fn handle_sth_submission(gateway: Gateway, reply: Reply) -> (step: GatewayStep)
    ensures
        step@ == handle_sth_submission_model(gateway@, reply@),
{
    let Gateway { log_id, sth_data, service_id, service_key, stage } = gateway;
    match stage {
        GatewayStage::Registering(run) => match register_service(run, reply) {
            Step::Continue(next, request) => GatewayStep::Continue(
                Gateway {
                    log_id,
                    sth_data,
                    service_id,
                    service_key,
                    stage: GatewayStage::Registering(next),
                },
                request,
            ),
            Step::Finished(Ok(_)) => GatewayStep::Continue(
                Gateway {
                    log_id,
                    sth_data,
                    service_id,
                    service_key,
                    stage: GatewayStage::Settling,
                },
                Request::Sleep { secs: SETTLE_SECS },
            ),
            Step::Finished(Err(error)) => GatewayStep::Respond(GatewayResponse::rejected(&error)),
        },
        GatewayStage::Settling => match reply {
            Reply::Woke => {
                let (run, request) = CreateAccount::start(
                    log_id.clone(),
                    service_id.clone(),
                    service_key.duplicate(),
                );
                GatewayStep::Continue(
                    Gateway {
                        log_id,
                        sth_data,
                        service_id,
                        service_key,
                        stage: GatewayStage::Creating(run),
                    },
                    request,
                )
            },
            _ => GatewayStep::Respond(GatewayResponse::rejected(&PipelineError::UnexpectedReply)),
        },
        GatewayStage::Creating(run) => match create_account(run, reply) {
            Step::Continue(next, request) => GatewayStep::Continue(
                Gateway {
                    log_id,
                    sth_data,
                    service_id,
                    service_key,
                    stage: GatewayStage::Creating(next),
                },
                request,
            ),
            Step::Finished(Ok(_)) => {
                let (run, request) = WaitForAccount::start(log_id.clone());
                GatewayStep::Continue(
                    Gateway {
                        log_id,
                        sth_data,
                        service_id,
                        service_key,
                        stage: GatewayStage::Waiting(run),
                    },
                    request,
                )
            },
            Step::Finished(Err(error)) => GatewayStep::Respond(GatewayResponse::rejected(&error)),
        },
        GatewayStage::Waiting(run) => match wait_for_account(run, reply) {
            Step::Continue(next, request) => GatewayStep::Continue(
                Gateway {
                    log_id,
                    sth_data,
                    service_id,
                    service_key,
                    stage: GatewayStage::Waiting(next),
                },
                request,
            ),
            Step::Finished(Ok(_)) => {
                let name = key_name(&log_id, &service_id);
                GatewayStep::Continue(
                    Gateway {
                        log_id,
                        sth_data,
                        service_id,
                        service_key,
                        stage: GatewayStage::FetchingKey,
                    },
                    Request::GetOrCreateKey { name },
                )
            },
            Step::Finished(Err(error)) => GatewayStep::Respond(GatewayResponse::rejected(&error)),
        },
        GatewayStage::FetchingKey => match reply {
            Reply::Key(verifying_key) => {
                let account_key = SigningKey {
                    name: key_name(&log_id, &service_id),
                    verifying_key,
                };
                let (run, request) = AddData::start(
                    log_id.clone(),
                    account_key,
                    copy_bytes(&sth_data),
                );
                GatewayStep::Continue(
                    Gateway {
                        log_id,
                        sth_data,
                        service_id,
                        service_key,
                        stage: GatewayStage::Adding(run),
                    },
                    request,
                )
            },
            Reply::Failed(reason) => GatewayStep::Respond(
                GatewayResponse::rejected(&PipelineError::KeystoreError(reason)),
            ),
            _ => GatewayStep::Respond(GatewayResponse::rejected(&PipelineError::UnexpectedReply)),
        },
        GatewayStage::Adding(run) => match add_data(run, reply) {
            Step::Continue(next, request) => GatewayStep::Continue(
                Gateway {
                    log_id,
                    sth_data,
                    service_id,
                    service_key,
                    stage: GatewayStage::Adding(next),
                },
                request,
            ),
            Step::Finished(Ok(_)) => GatewayStep::Respond(GatewayResponse::accepted()),
            Step::Finished(Err(error)) => GatewayStep::Respond(GatewayResponse::rejected(&error)),
        },
    }
}

/// The gateway acknowledges a submission only when the ledger has
/// acknowledged the transaction that appends its payload: a response with
/// the status of success follows nothing but that acknowledgment, given to
/// an append that had its transaction before the ledger.
pub proof fn lemma_acknowledged_means_appended(gateway: GatewayView, reply: ReplyView)
    requires
        handle_sth_submission_model(gateway, reply) matches GatewayStepView::Respond(response)
            && response.status == STATUS_OK,
    ensures
        reply == ReplyView::Submitted,
        gateway.stage matches GatewayStageView::Adding(run) && run.stage is Submitting,
        handle_sth_submission_model(gateway, reply) == GatewayStepView::Respond(
            GatewayResponseView::accepted(),
        ),
{
}

/// Every response that is not the acknowledgment tells of a failure, with
/// the status of a bad request or of an internal error.
pub proof fn lemma_failures_are_answered(gateway: GatewayView, reply: ReplyView)
    requires
        handle_sth_submission_model(gateway, reply) matches GatewayStepView::Respond(response)
            && response.status != STATUS_OK,
    ensures
        handle_sth_submission_model(gateway, reply) matches GatewayStepView::Respond(response) && {
            &&& response.body is Failure
            &&& response.status == STATUS_BAD_REQUEST || response.status
                == STATUS_INTERNAL_SERVER_ERROR
        },
{
}

} // verus!
