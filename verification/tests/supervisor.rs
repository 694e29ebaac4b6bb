use ct_monitor::config::{
    firefox_ct_logs, CTLogInfo, GATEWAY_LEDGER_PORT, GATEWAY_PORT, GATEWAY_SERVICE_ID,
    LEDGER_HOST, MONITOR_LEDGER_PORT, SERVICE_ID, START_HEIGHT,
};
use ct_monitor::ledger::{Account, AccountResponse};
use ct_monitor::poller::{Poller, PollerAction, PollerStage};
use ct_monitor::protocol::{PipelineError, Reply, Request, SigningKey};
use ct_monitor::supervisor::{supervise, FleetPlan, SupervisorStage, SupervisorStep};

fn plan(logs: Vec<CTLogInfo>) -> FleetPlan {
    FleetPlan {
        service_id: String::from(SERVICE_ID),
        service_key: SigningKey { name: String::from(SERVICE_ID), verifying_key: vec![0xaa] },
        logs,
    }
}

fn two_logs() -> Vec<CTLogInfo> {
    vec![
        CTLogInfo { id: "A", url: "https://a.example" },
        CTLogInfo { id: "B", url: "https://b.example/" },
    ]
}

fn start_fleet(logs: Vec<CTLogInfo>, existing: &[&str], fail_submit_of: Option<&str>) -> (
    SupervisorStep,
    Vec<String>,
) {
    let mut reads = Vec::new();
    let (mut supervisor, mut request) = plan(logs).start();
    loop {
        let reply = match request {
            Request::GetAccount { id } => {
                reads.push(id.clone());
                if existing.contains(&id.as_str()) {
                    Reply::Account(AccountResponse::Found(Account::new()))
                } else {
                    Reply::Account(AccountResponse::NotFound)
                }
            }
            Request::GetOrCreateKey { .. } => Reply::Key(vec![1]),
            Request::Sign { .. } => Reply::Signature(vec![2]),
            Request::SignTransaction { .. } => Reply::Signature(vec![3]),
            Request::Submit { transaction } => {
                if fail_submit_of == Some(transaction.id.as_str()) {
                    Reply::Failed(String::from("rejected"))
                } else {
                    Reply::Submitted
                }
            }
            Request::Sleep { .. } => Reply::Woke,
        };
        match supervise(supervisor, reply) {
            SupervisorStep::Continue(next, asked) => {
                supervisor = next;
                request = asked;
            }
            done => return (done, reads),
        }
    }
}

#[test]
fn configuration_names_the_service_and_the_ledger() {
    assert_eq!(SERVICE_ID, "firefox_ct_monitor_service");
    assert_eq!(GATEWAY_SERVICE_ID, "test_service");
    assert_eq!(LEDGER_HOST, "127.0.0.1");
    assert_eq!(MONITOR_LEDGER_PORT, 50524);
    assert_eq!(GATEWAY_LEDGER_PORT, 50525);
    assert_eq!(GATEWAY_PORT, 50524);
    assert_eq!(START_HEIGHT, 1);
}

#[test]
fn configuration_lists_eleven_logs() {
    let logs = firefox_ct_logs();
    assert_eq!(logs.len(), 11);
    let ids: Vec<&str> = logs.iter().map(|log| log.id).collect();
    assert_eq!(
        ids,
        vec![
            "Argon2025h1", "Argon2025h2", "Argon2026h1", "Argon2026h2", "Xenon2025h1",
            "Xenon2025h2", "Xenon2026h1", "Xenon2026h2", "Nimbus2024", "Nimbus2025",
            "Nimbus2026",
        ]
    );
    assert_eq!(
        logs[0],
        CTLogInfo { id: "Argon2025h1", url: "https://ct.googleapis.com/logs/us1/argon2025h1/" }
    );
    assert_eq!(logs[4].url, "https://ct.googleapis.com/logs/us1/Xenon2025h1/");
    assert_eq!(logs[8].url, "https://ct.cloudflare.com/logs/nimbus2024");
    assert_eq!(logs[10].url, "https://ct.cloudflare.com/logs/nimbus2026/");
    assert_eq!(logs[1].url, "https://ct.googleapis.com/logs/us1/argon2025h2/");
    assert_eq!(logs[2].url, "https://ct.googleapis.com/logs/us1/argon2026h1/");
    assert_eq!(logs[3].url, "https://ct.googleapis.com/logs/us1/argon2026h2/");
    assert_eq!(logs[5].url, "https://ct.googleapis.com/logs/us1/Xenon2025h2/");
    assert_eq!(logs[6].url, "https://ct.googleapis.com/logs/us1/Xenon2026h1/");
    assert_eq!(logs[7].url, "https://ct.googleapis.com/logs/us1/Xenon2026h2/");
    assert_eq!(logs[9].url, "https://ct.cloudflare.com/logs/nimbus2025/");
}

#[test]
fn supervisor_starts_by_registering_the_service() {
    let (supervisor, request) = plan(two_logs()).start();
    assert_eq!(request, Request::GetAccount { id: String::from(SERVICE_ID) });
    assert!(matches!(supervisor.stage, SupervisorStage::Registering(_)));
}

#[test]
fn supervisor_provisions_in_order_and_then_launches() {
    let (step, reads) = start_fleet(two_logs(), &[], None);
    assert_eq!(reads, vec![SERVICE_ID, "A", "B"]);
    match step {
        SupervisorStep::Launch(pollers) => {
            assert_eq!(pollers.len(), 2);
            assert_eq!(pollers[0], Poller::start("https://a.example", "A"));
            assert_eq!(pollers[1], Poller::start("https://b.example/", "B"));
            assert_eq!(pollers[1].poller.stage, PollerStage::Fetching);
            assert_eq!(
                pollers[1].action,
                PollerAction::Fetch {
                    url: String::from("https://b.example//ct/v1/get-sth"),
                    timeout_secs: 30,
                }
            );
        }
        _ => panic!("the fleet is launched"),
    }
}

#[test]
fn supervisor_leaves_what_exists_alone() {
    let (step, reads) = start_fleet(two_logs(), &[SERVICE_ID, "A", "B"], Some("A"));
    assert_eq!(reads, vec![SERVICE_ID, "A", "B"]);
    assert!(matches!(step, SupervisorStep::Launch(_)));
}

#[test]
fn supervisor_launches_every_configured_log() {
    let (step, reads) = start_fleet(firefox_ct_logs(), &[], None);
    assert_eq!(reads.len(), 12);
    match step {
        SupervisorStep::Launch(pollers) => {
            assert_eq!(pollers.len(), 11);
            for (poller, log) in pollers.iter().zip(firefox_ct_logs().iter()) {
                assert_eq!(poller.poller.log_id, log.id);
                assert_eq!(poller.poller.log_url, log.url);
                assert_eq!(poller.poller.consecutive_failures, 0);
            }
        }
        _ => panic!("the fleet is launched"),
    }
}

#[test]
fn supervisor_without_logs_launches_nothing() {
    let (step, reads) = start_fleet(Vec::new(), &[], None);
    assert_eq!(reads, vec![SERVICE_ID]);
    assert_eq!(step, SupervisorStep::Launch(Vec::new()));
}

#[test]
fn supervisor_aborts_when_provisioning_fails() {
    let (step, reads) = start_fleet(two_logs(), &[], Some("A"));
    assert_eq!(reads, vec![SERVICE_ID, "A"]);
    assert_eq!(
        step,
        SupervisorStep::Abort(PipelineError::LedgerSubmissionError(String::from("rejected")))
    );
    let (step, reads) = start_fleet(two_logs(), &[], Some(SERVICE_ID));
    assert_eq!(reads, vec![SERVICE_ID]);
    assert_eq!(
        step,
        SupervisorStep::Abort(PipelineError::LedgerSubmissionError(String::from("rejected")))
    );
}
