//! Core of a Certificate Transparency log monitor: the retry policy, the
//! per-log polling machine and the account-transaction pipeline, as pure
//! decisions over plain values.

pub mod backoff;
pub mod config;
pub mod gateway;
pub mod inclusion;
pub mod ledger;
pub mod operations;
pub mod poller;
pub mod protocol;
pub mod sth;
pub mod supervisor;
pub mod visibility;
