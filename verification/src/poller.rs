//! The polling of one log: fetch the tree head, pass it on, sleep, again.
//!
//! A poller never ends. Whatever goes wrong is counted, and the count of
//! consecutive failures sets the sleep before the next fetch; a success sets
//! the count back to zero. Each log has a poller of its own, so a log that
//! fails slows down only itself.

use crate::backoff::{
    backoff_nanos, calculate_backoff, lemma_backoff_at_rest, lemma_backoff_bounded,
    lemma_backoff_monotonic, BASE_NANOS, CEILING_NANOS,
};
use crate::sth::{
    fetch_sth, fetch_sth_model, sth_endpoint, sth_url, strings_view, submission_model,
    submission_outcome, submit_sth, FetchError, FetchErrorView, FetchReply, FetchReplyView,
    LedgerSubmissionError, LedgerSubmissionErrorView, SthSubmission, SthSubmissionView,
    SubmitReply, SubmitReplyView, FETCH_TIMEOUT_SECS, SUBMIT_URL,
};
use vstd::prelude::*;

verus! {

/// What a poller is waiting for.
#[derive(Debug, PartialEq, Eq, Clone, Copy, Structural)]
pub enum PollerStage {
    /// The log's answer.
    Fetching,
    /// The gateway's answer.
    Submitting,
    /// The end of the sleep.
    Sleeping,
}

/// The poller of one log.
#[derive(Debug, PartialEq, Eq)]
pub struct Poller {
    pub log_id: String,
    pub log_url: String,
    pub consecutive_failures: u32,
    pub stage: PollerStage,
}

/// Mathematical value of a [`Poller`].
pub struct PollerView {
    pub log_id: Seq<char>,
    pub log_url: Seq<char>,
    pub consecutive_failures: u32,
    pub stage: PollerStage,
}

impl View for Poller {
    type V = PollerView;

    open spec fn view(&self) -> PollerView {
        PollerView {
            log_id: self.log_id@,
            log_url: self.log_url@,
            consecutive_failures: self.consecutive_failures,
            stage: self.stage,
        }
    }
}

/// What has happened since the poller last asked for something.
#[derive(Debug, PartialEq, Eq)]
pub enum PollerEvent {
    /// The fetch has ended.
    Fetched(FetchReply),
    /// The submission has ended.
    Submitted(SubmitReply),
    /// The sleep has ended.
    Woke,
}

/// Mathematical value of a [`PollerEvent`].
pub enum PollerEventView {
    Fetched(FetchReplyView),
    Submitted(SubmitReplyView),
    Woke,
}

impl View for PollerEvent {
    type V = PollerEventView;

    open spec fn view(&self) -> PollerEventView {
        match *self {
            PollerEvent::Fetched(reply) => PollerEventView::Fetched(reply@),
            PollerEvent::Submitted(reply) => PollerEventView::Submitted(reply@),
            PollerEvent::Woke => PollerEventView::Woke,
        }
    }
}

/// What the poller asks for next.
#[derive(Debug, PartialEq, Eq)]
pub enum PollerAction {
    /// Get `url`, giving up after `timeout_secs` seconds.
    Fetch { url: String, timeout_secs: u64 },
    /// Post `payload` to `url`.
    Submit { url: String, payload: SthSubmission },
    /// Sleep for `nanos` nanoseconds.
    Sleep { nanos: u64 },
}

/// Mathematical value of a [`PollerAction`].
pub enum PollerActionView {
    Fetch { url: Seq<char>, timeout_secs: u64 },
    Submit { url: Seq<char>, payload: SthSubmissionView },
    Sleep { nanos: int },
}

impl View for PollerAction {
    type V = PollerActionView;

    open spec fn view(&self) -> PollerActionView {
        match *self {
            PollerAction::Fetch { url, timeout_secs } => PollerActionView::Fetch {
                url: url@,
                timeout_secs,
            },
            PollerAction::Submit { url, payload } => PollerActionView::Submit {
                url: url@,
                payload: payload@,
            },
            PollerAction::Sleep { nanos } => PollerActionView::Sleep { nanos: nanos as int },
        }
    }
}

/// What went wrong in one round of polling.
#[derive(Debug, PartialEq, Eq)]
pub enum PollFailure {
    /// The fetch gave no tree head.
    Fetch(FetchError),
    /// The submission did not go through.
    Submit(LedgerSubmissionError),
    /// The event does not answer what the poller had asked for.
    UnexpectedEvent,
}

/// Mathematical value of a [`PollFailure`].
pub enum PollFailureView {
    Fetch(FetchErrorView),
    Submit(LedgerSubmissionErrorView),
    UnexpectedEvent,
}

impl View for PollFailure {
    type V = PollFailureView;

    open spec fn view(&self) -> PollFailureView {
        match *self {
            PollFailure::Fetch(error) => PollFailureView::Fetch(error@),
            PollFailure::Submit(error) => PollFailureView::Submit(error@),
            PollFailure::UnexpectedEvent => PollFailureView::UnexpectedEvent,
        }
    }
}

/// A poller after an event: its new state, what it asks for, and the
/// failure that the event brought, if any, for the record.
#[derive(Debug, PartialEq, Eq)]
pub struct PollerStep {
    pub poller: Poller,
    pub action: PollerAction,
    pub failure: Option<PollFailure>,
}

/// Mathematical value of a [`PollerStep`].
pub struct PollerStepView {
    pub poller: PollerView,
    pub action: PollerActionView,
    pub failure: Option<PollFailureView>,
}

impl View for PollerStep {
    type V = PollerStepView;

    open spec fn view(&self) -> PollerStepView {
        PollerStepView {
            poller: self.poller@,
            action: self.action@,
            failure: match self.failure {
                Some(failure) => Some(failure@),
                None => None,
            },
        }
    }
}

/// The count of consecutive failures after one more. It stops at the
/// largest count there is, far beyond the count at which the sleep has
/// reached its ceiling.
pub open spec fn one_more_failure(failures: u32) -> u32 {
    if failures < u32::MAX {
        (failures + 1) as u32
    } else {
        failures
    }
}

impl PollerView {
    /// How the poller of the log `log_id` at `log_url` begins: with no
    /// failure behind it, fetching.
    pub open spec fn start(log_url: Seq<char>, log_id: Seq<char>) -> PollerStepView {
        PollerView {
            log_id,
            log_url,
            consecutive_failures: 0,
            stage: PollerStage::Fetching,
        }.fetching()
    }

    /// The poller as it fetches.
    pub open spec fn fetching(self) -> PollerStepView {
        PollerStepView {
            poller: PollerView { stage: PollerStage::Fetching, ..self },
            action: PollerActionView::Fetch {
                url: sth_endpoint(self.log_url),
                timeout_secs: FETCH_TIMEOUT_SECS,
            },
            failure: None,
        }
    }

    /// The poller as it sleeps with `failures` consecutive failures behind
    /// it, the last of them `failure` if there was one.
    pub open spec fn sleeping(
        self,
        failures: u32,
        failure: Option<PollFailureView>,
    ) -> PollerStepView {
        PollerStepView {
            poller: PollerView {
                consecutive_failures: failures,
                stage: PollerStage::Sleeping,
                ..self
            },
            action: PollerActionView::Sleep { nanos: backoff_nanos(failures as nat) },
            failure,
        }
    }

    /// The poller as it sleeps after `failure`.
    pub open spec fn failed(self, failure: PollFailureView) -> PollerStepView {
        self.sleeping(one_more_failure(self.consecutive_failures), Some(failure))
    }
}

/// What a poller does with an event. It fetches after every sleep. A tree
/// head that was fetched is submitted, with an empty proof. A submission
/// that went through sets the count of failures to zero; a fetch or a
/// submission that failed, and an event that does not answer what was asked,
/// add one to it. After either the poller sleeps for the backoff of the new
/// count.
pub open spec fn monitor_log_model(poller: PollerView, event: PollerEventView) -> PollerStepView {
    match (poller.stage, event) {
        (PollerStage::Sleeping, PollerEventView::Woke) => poller.fetching(),
        (PollerStage::Fetching, PollerEventView::Fetched(reply)) => match fetch_sth_model(reply) {
            Ok(sth) => PollerStepView {
                poller: PollerView { stage: PollerStage::Submitting, ..poller },
                action: PollerActionView::Submit {
                    url: SUBMIT_URL@,
                    payload: SthSubmissionView::of(poller.log_id, sth, Seq::empty()),
                },
                failure: None,
            },
            Err(error) => poller.failed(PollFailureView::Fetch(error)),
        },
        (PollerStage::Submitting, PollerEventView::Submitted(reply)) => match submission_model(
            reply,
        ) {
            Ok(_) => poller.sleeping(0, None),
            Err(error) => poller.failed(PollFailureView::Submit(error)),
        },
        _ => poller.failed(PollFailureView::UnexpectedEvent),
    }
}

impl Poller {
    /// Begins the polling of the log `log_id` at `log_url`. The poller that
    /// comes back is taken further by [`monitor_log`], with what came of the
    /// action beside it.
    pub fn start(log_url: &str, log_id: &str) -> (step: PollerStep)
        ensures
            step@ == PollerView::start(log_url@, log_id@),
    {
        Poller {
            log_id: String::from_str(log_id),
            log_url: String::from_str(log_url),
            consecutive_failures: 0,
            stage: PollerStage::Fetching,
        }.fetching()
    }

    /// The poller as it fetches.
    fn fetching(self) -> (step: PollerStep)
        ensures
            step@ == self@.fetching(),
    {
        let url = sth_url(self.log_url.as_str());
        PollerStep {
            poller: Poller {
                log_id: self.log_id,
                log_url: self.log_url,
                consecutive_failures: self.consecutive_failures,
                stage: PollerStage::Fetching,
            },
            action: PollerAction::Fetch { url, timeout_secs: FETCH_TIMEOUT_SECS },
            failure: None,
        }
    }

    /// The poller as it sleeps with `failures` consecutive failures behind
    /// it.
    fn sleeping(self, failures: u32, failure: Option<PollFailure>) -> (step: PollerStep)
        ensures
            step@ == self@.sleeping(
                failures,
                match failure {
                    Some(failure) => Some(failure@),
                    None => None,
                },
            ),
    {
        let nanos = calculate_backoff(failures);
        PollerStep {
            poller: Poller {
                log_id: self.log_id,
                log_url: self.log_url,
                consecutive_failures: failures,
                stage: PollerStage::Sleeping,
            },
            action: PollerAction::Sleep { nanos },
            failure,
        }
    }

    /// The poller as it sleeps after `failure`.
    fn failed(self, failure: PollFailure) -> (step: PollerStep)
        ensures
            step@ == self@.failed(failure@),
    {
        let failures = if self.consecutive_failures < u32::MAX {
            self.consecutive_failures + 1
        } else {
            self.consecutive_failures
        };
        self.sleeping(failures, Some(failure))
    }
}

/// Takes the poller of one log one event further.
pub fn monitor_log(poller: Poller, event: PollerEvent) -> (step: PollerStep)
    ensures
        step@ == monitor_log_model(poller@, event@),
{
    match poller.stage {
        PollerStage::Sleeping => match event {
            PollerEvent::Woke => poller.fetching(),
            _ => poller.failed(PollFailure::UnexpectedEvent),
        },
        PollerStage::Fetching => match event {
            PollerEvent::Fetched(reply) => {
                let fetched = fetch_sth(reply);
                match fetched {
                    Ok(sth) => {
                        let proof: Vec<String> = Vec::new();
                        assert(strings_view(proof@) =~= Seq::empty());
                        let payload = submit_sth(poller.log_id.as_str(), &sth, proof);
                        PollerStep {
                            poller: Poller {
                                log_id: poller.log_id,
                                log_url: poller.log_url,
                                consecutive_failures: poller.consecutive_failures,
                                stage: PollerStage::Submitting,
                            },
                            action: PollerAction::Submit {
                                url: String::from_str(SUBMIT_URL),
                                payload,
                            },
                            failure: None,
                        }
                    },
                    Err(error) => poller.failed(PollFailure::Fetch(error)),
                }
            },
            _ => poller.failed(PollFailure::UnexpectedEvent),
        },
        PollerStage::Submitting => match event {
            PollerEvent::Submitted(reply) => {
                let submitted = submission_outcome(reply);
                match submitted {
                    Ok(_) => poller.sleeping(0, None),
                    Err(error) => poller.failed(PollFailure::Submit(error)),
                }
            },
            _ => poller.failed(PollFailure::UnexpectedEvent),
        },
    }
}

impl PollerStepView {
    /// The nanoseconds for which the step sleeps; zero where it does not.
    pub open spec fn sleep_nanos(self) -> int {
        match self.action {
            PollerActionView::Sleep { nanos } => nanos,
            _ => 0,
        }
    }
}

/// After a success the poller sleeps exactly the base wait, whatever the
/// streak of failures before it.
pub proof fn lemma_success_resets(poller: PollerView, reply: SubmitReplyView)
    requires
        poller.stage == PollerStage::Submitting,
        submission_model(reply) is Ok,
    ensures
        monitor_log_model(poller, PollerEventView::Submitted(reply)).poller.consecutive_failures
            == 0,
        monitor_log_model(poller, PollerEventView::Submitted(reply)).sleep_nanos() == BASE_NANOS,
{
    lemma_backoff_at_rest();
}

/// Of two pollers that differ only in that one has one more failure behind
/// it, and that meet the same event, that one sleeps at least as long as
/// the other; and no sleep exceeds the ceiling.
pub proof fn lemma_sleep_grows_with_failures(
    fewer: PollerView,
    more: PollerView,
    event: PollerEventView,
)
    requires
        more.consecutive_failures == fewer.consecutive_failures + 1,
        more.stage == fewer.stage,
    ensures
        monitor_log_model(fewer, event).sleep_nanos() <= monitor_log_model(
            more,
            event,
        ).sleep_nanos(),
        monitor_log_model(more, event).sleep_nanos() <= CEILING_NANOS,
{
    lemma_backoff_monotonic(
        one_more_failure(fewer.consecutive_failures) as nat,
        one_more_failure(more.consecutive_failures) as nat,
    );
    lemma_backoff_bounded(one_more_failure(more.consecutive_failures) as nat);
    lemma_backoff_bounded(0);
}

} // verus!
