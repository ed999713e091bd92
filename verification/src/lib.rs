//! Benchmarking of zkVM proving backends on Ethereum block-execution workloads:
//! fixture selection and assembly, the run schedule with its result cache, and
//! the metrics records that a run leaves behind.
//!
//! Nothing here touches the file system, a process or a proving backend. A
//! driver does that work and hands over what it observed; the functions of
//! this crate decide what follows from it.

pub mod cli;
pub mod eest;
pub mod filter;
pub mod fixture;
pub mod guest;
pub mod hexparse;
pub mod json_generator;
pub mod metrics;
pub mod precompiles;
pub mod primitives;
pub mod runner;
pub mod state;
pub mod testcase;
pub mod text;
pub mod trace;
