//! Scalar control flow for scans, filters and projections.
//!
//! PostgreSQL evaluates predicates and projections and writes typed payload
//! rows. This module owns the bounded statements, the decoding of their row
//! facts, and the cursor that commits with them.

pub mod conduct;
pub mod laws;
pub mod machine;
pub mod opening;
pub mod requests;
pub mod running;
pub mod statements;
pub mod step;
pub mod storage;
