//! Judging a candidate program against input/expected-output pairs.
//!
//! The library holds the decisions of a judging run: how captured output is
//! normalised and compared, how one execution is classified into a verdict,
//! and the order of the steps that one execution goes through. Spawning the
//! process, writing to its pipes and waiting on it are left to the caller,
//! which hands the outcome of each step back as plain values.

pub mod execution;
pub mod output;
pub mod test_result;
pub mod testcase;

pub use execution::{Action, Event, Execution, Phase};
pub use test_result::{CommandExit, TestResult};
pub use testcase::Testcase;
