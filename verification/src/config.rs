//! What the monitor is told at startup and never changes afterwards: which
//! logs to watch, under which service account, against which ledger.

use vstd::prelude::*;

verus! {

/// One monitored log: its stable identifier and the address it is served
/// at. Logs are named when the program is written and never change.
#[derive(Debug, PartialEq, Eq, Clone, Copy)]
pub struct CTLogInfo {
    pub id: &'static str,
    pub url: &'static str,
}

/// Mathematical value of a [`CTLogInfo`].
pub struct CTLogInfoView {
    pub id: Seq<char>,
    pub url: Seq<char>,
}

impl View for CTLogInfo {
    type V = CTLogInfoView;

    open spec fn view(&self) -> CTLogInfoView {
        CTLogInfoView { id: self.id@, url: self.url@ }
    }
}

/// The logs that a list holds.
pub open spec fn logs_view(logs: Seq<CTLogInfo>) -> Seq<CTLogInfoView> {
    Seq::new(logs.len(), |at: int| logs[at]@)
}

/// The identifier of the monitoring service's own account.
pub const SERVICE_ID: &'static str = "firefox_ct_monitor_service";

/// The identifier of the service account under which the gateway works.
pub const GATEWAY_SERVICE_ID: &'static str = "test_service";

/// The host at which the ledger and the gateway listen.
pub const LEDGER_HOST: &'static str = "127.0.0.1";

/// The port of the ledger's own web server as the monitor sets it up.
pub const MONITOR_LEDGER_PORT: u16 = 50524;

/// The port of the ledger's own web server beside the gateway.
pub const GATEWAY_LEDGER_PORT: u16 = 50525;

/// The port at which the gateway takes submissions.
pub const GATEWAY_PORT: u16 = 50524;

/// The block height at which the ledger starts.
pub const START_HEIGHT: u64 = 1;

/// The logs that are monitored.
pub open spec fn firefox_ct_logs_list() -> Seq<CTLogInfoView> {
    seq![
        CTLogInfoView {
            id: "Argon2025h1"@,
            url: "https://ct.googleapis.com/logs/us1/argon2025h1/"@,
        },
        CTLogInfoView {
            id: "Argon2025h2"@,
            url: "https://ct.googleapis.com/logs/us1/argon2025h2/"@,
        },
        CTLogInfoView {
            id: "Argon2026h1"@,
            url: "https://ct.googleapis.com/logs/us1/argon2026h1/"@,
        },
        CTLogInfoView {
            id: "Argon2026h2"@,
            url: "https://ct.googleapis.com/logs/us1/argon2026h2/"@,
        },
        CTLogInfoView {
            id: "Xenon2025h1"@,
            url: "https://ct.googleapis.com/logs/us1/Xenon2025h1/"@,
        },
        CTLogInfoView {
            id: "Xenon2025h2"@,
            url: "https://ct.googleapis.com/logs/us1/Xenon2025h2/"@,
        },
        CTLogInfoView {
            id: "Xenon2026h1"@,
            url: "https://ct.googleapis.com/logs/us1/Xenon2026h1/"@,
        },
        CTLogInfoView {
            id: "Xenon2026h2"@,
            url: "https://ct.googleapis.com/logs/us1/Xenon2026h2/"@,
        },
        CTLogInfoView { id: "Nimbus2024"@, url: "https://ct.cloudflare.com/logs/nimbus2024"@ },
        CTLogInfoView { id: "Nimbus2025"@, url: "https://ct.cloudflare.com/logs/nimbus2025/"@ },
        CTLogInfoView { id: "Nimbus2026"@, url: "https://ct.cloudflare.com/logs/nimbus2026/"@ },
    ]
}

/// The logs that are monitored, in the order in which their accounts are
/// provisioned.
pub fn firefox_ct_logs() -> (logs: Vec<CTLogInfo>)
    ensures
        logs_view(logs@) == firefox_ct_logs_list(),
{
    let mut logs: Vec<CTLogInfo> = Vec::new();
    logs.push(
        CTLogInfo { id: "Argon2025h1", url: "https://ct.googleapis.com/logs/us1/argon2025h1/" },
    );
    logs.push(
        CTLogInfo { id: "Argon2025h2", url: "https://ct.googleapis.com/logs/us1/argon2025h2/" },
    );
    logs.push(
        CTLogInfo { id: "Argon2026h1", url: "https://ct.googleapis.com/logs/us1/argon2026h1/" },
    );
    logs.push(
        CTLogInfo { id: "Argon2026h2", url: "https://ct.googleapis.com/logs/us1/argon2026h2/" },
    );
    logs.push(
        CTLogInfo { id: "Xenon2025h1", url: "https://ct.googleapis.com/logs/us1/Xenon2025h1/" },
    );
    logs.push(
        CTLogInfo { id: "Xenon2025h2", url: "https://ct.googleapis.com/logs/us1/Xenon2025h2/" },
    );
    logs.push(
        CTLogInfo { id: "Xenon2026h1", url: "https://ct.googleapis.com/logs/us1/Xenon2026h1/" },
    );
    logs.push(
        CTLogInfo { id: "Xenon2026h2", url: "https://ct.googleapis.com/logs/us1/Xenon2026h2/" },
    );
    logs.push(CTLogInfo { id: "Nimbus2024", url: "https://ct.cloudflare.com/logs/nimbus2024" });
    logs.push(CTLogInfo { id: "Nimbus2025", url: "https://ct.cloudflare.com/logs/nimbus2025/" });
    logs.push(CTLogInfo { id: "Nimbus2026", url: "https://ct.cloudflare.com/logs/nimbus2026/" });
    assert(logs_view(logs@) =~= firefox_ct_logs_list());
    logs
}

} // verus!
