//! Control flow for bounded dataflow stages.

pub mod abi;
pub mod aggregate;
pub mod bounds;
pub mod btree;
pub mod continuation;
pub mod contract;
pub mod dispatcher;
pub mod distinct;
pub mod join;
pub mod laws;
pub mod linear;
pub mod provision;
pub mod records;
pub mod relations;
pub mod requests;
pub mod stream;
