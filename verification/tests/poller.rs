use ct_monitor::backoff::{calculate_backoff, BASE_NANOS, CEILING_NANOS};
use ct_monitor::poller::{
    monitor_log, PollFailure, Poller, PollerAction, PollerEvent, PollerStage, PollerStep,
};
use ct_monitor::sth::{
    FetchError, FetchReply, LedgerSubmissionError, SignedTreeHead, SthSubmission, SubmitReply,
};

fn sample_sth() -> SignedTreeHead {
    SignedTreeHead {
        tree_size: 42,
        timestamp: 1_700_000_000_000,
        sha256_root_hash: String::from("cm9vdA=="),
        tree_head_signature: String::from("c2ln"),
    }
}

fn poller_at(stage: PollerStage, consecutive_failures: u32) -> Poller {
    Poller {
        log_id: String::from("LogX"),
        log_url: String::from("https://log.example"),
        consecutive_failures,
        stage,
    }
}

fn fetch_action() -> PollerAction {
    PollerAction::Fetch {
        url: String::from("https://log.example/ct/v1/get-sth"),
        timeout_secs: 30,
    }
}

fn unavailable() -> PollerEvent {
    PollerEvent::Fetched(FetchReply::Response {
        status: 503,
        body: String::from("unavailable"),
        sth: None,
    })
}

#[test]
fn poller_starts_by_fetching() {
    let step = Poller::start("https://log.example", "LogX");
    assert_eq!(
        step,
        PollerStep {
            poller: poller_at(PollerStage::Fetching, 0),
            action: fetch_action(),
            failure: None,
        }
    );
}

#[test]
fn poller_counts_a_service_unavailable_and_sleeps_seven_and_a_half_minutes() {
    let begun = Poller::start("https://log.example", "LogX");
    let step = monitor_log(begun.poller, unavailable());
    assert_eq!(step.poller.consecutive_failures, 1);
    assert_eq!(step.poller.stage, PollerStage::Sleeping);
    assert_eq!(step.action, PollerAction::Sleep { nanos: 450_000_000_000 });
    assert_eq!(
        step.failure,
        Some(PollFailure::Fetch(FetchError::TransportError {
            status: Some(503),
            detail: String::from("unavailable"),
        }))
    );
}

#[test]
fn poller_counts_a_malformed_body_like_a_transport_error() {
    let event = PollerEvent::Fetched(FetchReply::Response {
        status: 200,
        body: String::from("not json"),
        sth: None,
    });
    let step = monitor_log(poller_at(PollerStage::Fetching, 2), event);
    assert_eq!(step.poller.consecutive_failures, 3);
    assert_eq!(step.action, PollerAction::Sleep { nanos: 1_012_500_000_000 });
    assert_eq!(step.failure, Some(PollFailure::Fetch(FetchError::FormatError)));
}

#[test]
fn poller_submits_what_it_fetched() {
    let event = PollerEvent::Fetched(FetchReply::Response {
        status: 200,
        body: String::new(),
        sth: Some(sample_sth()),
    });
    let step = monitor_log(poller_at(PollerStage::Fetching, 3), event);
    assert_eq!(step.poller, poller_at(PollerStage::Submitting, 3));
    assert_eq!(step.failure, None);
    assert_eq!(
        step.action,
        PollerAction::Submit {
            url: String::from("http://127.0.0.1:50524/v1/submit_sth"),
            payload: SthSubmission {
                log_id: String::from("LogX"),
                tree_size: 42,
                timestamp: 1_700_000_000_000,
                root_hash: String::from("cm9vdA=="),
                signature: String::from("c2ln"),
                merkle_proof: Vec::new(),
            },
        }
    );
}

#[test]
fn poller_resets_the_count_after_a_success() {
    let event = PollerEvent::Submitted(SubmitReply::Response { status: 200 });
    let step = monitor_log(poller_at(PollerStage::Submitting, 9), event);
    assert_eq!(step.poller, poller_at(PollerStage::Sleeping, 0));
    assert_eq!(step.action, PollerAction::Sleep { nanos: BASE_NANOS });
    assert_eq!(step.failure, None);
}

#[test]
fn poller_counts_a_rejected_submission() {
    let event = PollerEvent::Submitted(SubmitReply::Response { status: 400 });
    let step = monitor_log(poller_at(PollerStage::Submitting, 0), event);
    assert_eq!(step.poller, poller_at(PollerStage::Sleeping, 1));
    assert_eq!(step.action, PollerAction::Sleep { nanos: 450_000_000_000 });
    assert_eq!(
        step.failure,
        Some(PollFailure::Submit(LedgerSubmissionError::Rejected { status: 400 }))
    );
}

#[test]
fn poller_counts_an_unreachable_gateway() {
    let event = PollerEvent::Submitted(SubmitReply::NoResponse { reason: String::from("refused") });
    let step = monitor_log(poller_at(PollerStage::Submitting, 6), event);
    assert_eq!(step.poller.consecutive_failures, 7);
    assert_eq!(step.action, PollerAction::Sleep { nanos: CEILING_NANOS });
    assert_eq!(
        step.failure,
        Some(PollFailure::Submit(LedgerSubmissionError::Unreachable {
            reason: String::from("refused"),
        }))
    );
}

#[test]
fn poller_fetches_again_after_the_sleep() {
    let step = monitor_log(poller_at(PollerStage::Sleeping, 4), PollerEvent::Woke);
    assert_eq!(step.poller, poller_at(PollerStage::Fetching, 4));
    assert_eq!(step.action, fetch_action());
    assert_eq!(step.failure, None);
}

#[test]
fn poller_counts_an_event_that_answers_nothing() {
    let step = monitor_log(poller_at(PollerStage::Fetching, 0), PollerEvent::Woke);
    assert_eq!(step.poller, poller_at(PollerStage::Sleeping, 1));
    assert_eq!(step.failure, Some(PollFailure::UnexpectedEvent));
    let step = monitor_log(
        poller_at(PollerStage::Sleeping, 0),
        PollerEvent::Submitted(SubmitReply::Response { status: 200 }),
    );
    assert_eq!(step.poller, poller_at(PollerStage::Sleeping, 1));
    assert_eq!(step.failure, Some(PollFailure::UnexpectedEvent));
    let step = monitor_log(poller_at(PollerStage::Submitting, 0), unavailable());
    assert_eq!(step.poller, poller_at(PollerStage::Sleeping, 1));
    assert_eq!(step.failure, Some(PollFailure::UnexpectedEvent));
}

#[test]
fn poller_sleeps_longer_or_as_long_after_one_more_failure() {
    for failures in 0u32..20 {
        let fewer = monitor_log(poller_at(PollerStage::Fetching, failures), unavailable());
        let more = monitor_log(poller_at(PollerStage::Fetching, failures + 1), unavailable());
        match (fewer.action, more.action) {
            (PollerAction::Sleep { nanos: short }, PollerAction::Sleep { nanos: long }) => {
                assert!(long >= short);
                assert_eq!(short, calculate_backoff(failures + 1));
                assert!(long <= CEILING_NANOS);
            }
            _ => panic!("a failed fetch is followed by a sleep"),
        }
    }
}

#[test]
fn poller_keeps_the_largest_count() {
    let step = monitor_log(poller_at(PollerStage::Fetching, u32::MAX), unavailable());
    assert_eq!(step.poller.consecutive_failures, u32::MAX);
    assert_eq!(step.action, PollerAction::Sleep { nanos: CEILING_NANOS });
}

#[test]
fn poller_runs_a_whole_round() {
    let begun = Poller::start("https://log.example", "LogX");
    let fetched = monitor_log(
        begun.poller,
        PollerEvent::Fetched(FetchReply::Response {
            status: 200,
            body: String::new(),
            sth: Some(sample_sth()),
        }),
    );
    let submitted = monitor_log(
        fetched.poller,
        PollerEvent::Submitted(SubmitReply::Response { status: 200 }),
    );
    assert_eq!(submitted.action, PollerAction::Sleep { nanos: 300_000_000_000 });
    let woke = monitor_log(submitted.poller, PollerEvent::Woke);
    assert_eq!(woke.action, fetch_action());
    assert_eq!(woke.poller.consecutive_failures, 0);
}
