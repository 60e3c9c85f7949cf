//! Scalar control flow for a durable Distinct.
//!
//! PostgreSQL owns typed keys, representative rows, multiplicities, and the
//! set transition. This module owns only the immutable input position, bounded
//! counters, and whether the pinned chunk is data or a frontier.

pub mod columns;
pub mod conduct;
pub mod laws;
pub mod machine;
pub mod matching;
pub mod opening;
pub mod provision;
pub mod provisioning;
pub mod requests;
pub mod running;
pub mod statements;
pub mod step;
pub mod storage;
