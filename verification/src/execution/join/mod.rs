//! Control state for a bounded, resumable differential Join.

pub mod columns;
pub mod conduct;
pub mod course;
pub mod input_laws;
pub mod kinds;
pub mod laws;
pub mod layout;
pub mod maintenance;
pub mod matching;
pub mod opening;
pub mod pages;
pub mod paging;
pub mod planner;
pub mod provision;
pub mod provisioning;
pub mod publishing;
pub mod reading;
pub mod requests;
pub mod statements;
pub mod step;
pub mod storage;
pub mod transition;
