//! Framework that iterates a solver over an operation until stop criteria
//! accept the report: staged executors, default reports, and the root-finding
//! and self-consistent-equation front ends.

pub mod criteria;
pub mod error;
pub mod executor;
pub mod find_root;
pub mod self_consistent;
pub mod traits;
