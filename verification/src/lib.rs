//! A physical-memory diagnostic library: runs a battery of verified
//! write/verify test kernels over a word-addressed region, under a time
//! budget, with optional memory pinning and lane partitioning, and reports
//! one outcome per test kind.
pub mod clock;
pub mod kernels;
pub mod locking;
pub mod orchestrator;
pub mod outcome;
pub mod pattern;
pub mod region_view;
pub mod rng;
pub mod working_set;

pub use crate::orchestrator::{MemtestReportList, Memtester, MemtesterError};
pub use crate::outcome::{MemtestError, MemtestOutcome, MemtestReport, MemtestType};
pub use crate::region_view::Region;
