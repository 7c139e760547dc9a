//! Confidential lending health checks.
//!
//! The crate has two parts: a pure, integer-only evaluator that decides
//! whether a lending position is undercollateralized (`health`), and a
//! request/response lifecycle that registers a health-check job, hands it
//! to an external confidential-computation cluster, and accepts the
//! cluster's answer only after verifying that it is bound to the exact
//! job that was submitted (`lifecycle`). The byte layout of requests and
//! responses is fixed by `wire`, and `position` holds the ledger-side
//! record that a health check reads.

pub mod health;
pub mod position;
pub mod wire;
pub mod lifecycle;
