//! Concurrent download orchestration engine: identifier extraction and
//! deduplication, metadata resolution, local-file validation, a retry/backoff
//! state machine for transfers, a bounded-concurrency controller, and result
//! aggregation.

pub mod aggregate;
pub mod collector;
pub mod concurrency;
pub mod filename;
pub mod identifier;
pub mod metadata;
pub mod outcome;
pub mod retry;
pub mod strutil;
pub mod task;
pub mod validator;
