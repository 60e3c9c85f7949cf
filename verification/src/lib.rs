//! Shiba's control plane: the scalar decisions behind bounded, resumable
//! dataflow stages.
//!
//! PostgreSQL owns typed rows, arrangements and pending output. This library
//! owns phases, stable row identifiers, stream positions, budgets, and the
//! statements that carry one bounded transition.

pub mod admission;
pub mod config;
pub mod database;
pub mod ddl;
pub mod execution;
pub mod planner;
pub mod postgres;
pub mod predicate;
pub mod session;
pub mod sql;
pub mod text;
