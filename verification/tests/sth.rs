use ct_monitor::sth::{
    fetch_sth, is_error, is_success, sth_url, submission_outcome, submit_sth, FetchError,
    FetchReply, LedgerSubmissionError, SignedTreeHead, SthSubmission, SubmitReply,
    FETCH_TIMEOUT_SECS, SUBMIT_URL,
};

fn sample_sth() -> SignedTreeHead {
    SignedTreeHead {
        tree_size: 1_234_567,
        timestamp: 1_700_000_000_123,
        sha256_root_hash: String::from("q83vEjRWeJCrze8SNFZ4kKvN7xI0VniQq83vEjRWeJA="),
        tree_head_signature: String::from("BAMARzBFAiEA"),
    }
}

#[test]
fn sth_url_appends_the_path() {
    assert_eq!(
        sth_url("https://ct.googleapis.com/logs/us1/argon2025h1/"),
        "https://ct.googleapis.com/logs/us1/argon2025h1//ct/v1/get-sth"
    );
    assert_eq!(sth_url("http://log"), "http://log/ct/v1/get-sth");
    assert_eq!(sth_url(""), "/ct/v1/get-sth");
}

#[test]
fn fetch_times_out_after_thirty_seconds() {
    assert_eq!(FETCH_TIMEOUT_SECS, 30);
}

#[test]
fn success_is_two_hundred_to_two_hundred_ninety_nine() {
    assert!(!is_success(199));
    assert!(is_success(200));
    assert!(is_success(204));
    assert!(is_success(299));
    assert!(!is_success(300));
    assert!(!is_success(0));
    assert!(!is_success(u16::MAX));
}

#[test]
fn error_is_four_hundred_to_five_hundred_ninety_nine() {
    assert!(!is_error(399));
    assert!(is_error(400));
    assert!(is_error(499));
    assert!(is_error(500));
    assert!(is_error(599));
    assert!(!is_error(600));
    assert!(!is_error(200));
}

#[test]
fn fetch_of_a_successful_response_gives_the_tree_head() {
    let reply = FetchReply::Response {
        status: 200,
        body: String::from("{}"),
        sth: Some(sample_sth()),
    };
    assert_eq!(fetch_sth(reply), Ok(sample_sth()));
}

#[test]
fn fetch_of_a_service_unavailable_is_a_transport_error() {
    let reply = FetchReply::Response {
        status: 503,
        body: String::from("try later"),
        sth: None,
    };
    assert_eq!(
        fetch_sth(reply),
        Err(FetchError::TransportError { status: Some(503), detail: String::from("try later") })
    );
}

#[test]
fn fetch_of_a_failed_status_ignores_a_body_that_parses() {
    let reply = FetchReply::Response {
        status: 404,
        body: String::from("{}"),
        sth: Some(sample_sth()),
    };
    assert_eq!(
        fetch_sth(reply),
        Err(FetchError::TransportError { status: Some(404), detail: String::from("{}") })
    );
}

#[test]
fn fetch_of_a_redirect_is_a_transport_error() {
    let reply = FetchReply::Response { status: 300, body: String::new(), sth: Some(sample_sth()) };
    assert_eq!(
        fetch_sth(reply),
        Err(FetchError::TransportError { status: Some(300), detail: String::new() })
    );
}

#[test]
fn fetch_of_a_malformed_body_is_a_format_error() {
    let reply = FetchReply::Response {
        status: 200,
        body: String::from("<html>"),
        sth: None,
    };
    assert_eq!(fetch_sth(reply), Err(FetchError::FormatError));
    let edge = FetchReply::Response { status: 299, body: String::new(), sth: None };
    assert_eq!(fetch_sth(edge), Err(FetchError::FormatError));
}

#[test]
fn fetch_without_a_response_is_a_transport_error() {
    let reply = FetchReply::NoResponse { reason: String::from("operation timed out") };
    assert_eq!(
        fetch_sth(reply),
        Err(FetchError::TransportError {
            status: None,
            detail: String::from("operation timed out"),
        })
    );
}

#[test]
fn submission_carries_the_tree_head() {
    let proof = vec![String::from("aa"), String::from("bb")];
    let payload = submit_sth("Argon2025h1", &sample_sth(), proof);
    assert_eq!(
        payload,
        SthSubmission {
            log_id: String::from("Argon2025h1"),
            tree_size: 1_234_567,
            timestamp: 1_700_000_000_123,
            root_hash: String::from("q83vEjRWeJCrze8SNFZ4kKvN7xI0VniQq83vEjRWeJA="),
            signature: String::from("BAMARzBFAiEA"),
            merkle_proof: vec![String::from("aa"), String::from("bb")],
        }
    );
}

#[test]
fn submission_round_trips_the_tree_head() {
    let sth = sample_sth();
    let back = submit_sth("Nimbus2025", &sth, Vec::new()).signed_tree_head();
    assert_eq!(back, sth);
    assert_eq!(back.tree_size, sth.tree_size);
    assert_eq!(back.timestamp, sth.timestamp);
    assert_eq!(back.sha256_root_hash.as_bytes(), sth.sha256_root_hash.as_bytes());
    assert_eq!(back.tree_head_signature.as_bytes(), sth.tree_head_signature.as_bytes());
}

#[test]
fn submission_round_trips_the_extremes() {
    let sth = SignedTreeHead {
        tree_size: u64::MAX,
        timestamp: 0,
        sha256_root_hash: String::new(),
        tree_head_signature: String::from("\u{00e9}\u{4e2d}"),
    };
    assert_eq!(submit_sth("", &sth, Vec::new()).signed_tree_head(), sth);
}

#[test]
fn duplicate_of_a_tree_head_is_equal() {
    assert_eq!(sample_sth().duplicate(), sample_sth());
}

#[test]
fn submission_goes_to_the_gateway() {
    assert_eq!(SUBMIT_URL, "http://127.0.0.1:50524/v1/submit_sth");
}

#[test]
fn submission_outcome_accepts_all_but_errors() {
    assert_eq!(submission_outcome(SubmitReply::Response { status: 200 }), Ok(()));
    assert_eq!(submission_outcome(SubmitReply::Response { status: 302 }), Ok(()));
    assert_eq!(submission_outcome(SubmitReply::Response { status: 399 }), Ok(()));
    assert_eq!(submission_outcome(SubmitReply::Response { status: 600 }), Ok(()));
}

#[test]
fn submission_outcome_rejects_client_and_server_errors() {
    assert_eq!(
        submission_outcome(SubmitReply::Response { status: 400 }),
        Err(LedgerSubmissionError::Rejected { status: 400 })
    );
    assert_eq!(
        submission_outcome(SubmitReply::Response { status: 500 }),
        Err(LedgerSubmissionError::Rejected { status: 500 })
    );
    assert_eq!(
        submission_outcome(SubmitReply::Response { status: 599 }),
        Err(LedgerSubmissionError::Rejected { status: 599 })
    );
}

#[test]
fn submission_outcome_without_a_response_is_unreachable() {
    assert_eq!(
        submission_outcome(SubmitReply::NoResponse { reason: String::from("connection refused") }),
        Err(LedgerSubmissionError::Unreachable { reason: String::from("connection refused") })
    );
}
