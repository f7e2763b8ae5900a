//! Per-key usage quotas: a pure decision engine over a ledger snapshot and the
//! current date, the conditional writes that realise its decisions, and the
//! bounded retry policy of the ingestion loop.

pub mod dates;
pub mod engine;
pub mod error;
pub mod ingest;
pub mod ledger;
pub mod plans;
