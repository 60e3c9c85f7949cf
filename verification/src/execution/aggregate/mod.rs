//! Scalar control flow for a durable Aggregate.
//!
//! Group keys, input rows, transition values, ordering keys, distinct sets,
//! and pending output rows never enter this module. They remain in the
//! operator's typed PostgreSQL relations.

pub mod apply;
pub mod applying;
pub mod columns;
pub mod conduct;
pub mod course;
pub mod emit;
pub mod emitting;
pub mod forwarding;
pub mod laws;
pub mod machine;
pub mod matching;
pub mod opening;
pub mod order;
pub mod outputs;
pub mod pages;
pub mod paging;
pub mod provision;
pub mod provisioning;
pub mod rebuild;
pub mod rebuilding;
pub mod requests;
pub mod step;
pub mod storage;
