//! Sandboxed code-execution orchestration: workspace management, container
//! launch planning, timeout and exit classification, output retrieval policy,
//! and batch report assembly.

pub mod batch;
pub mod orchestrator;
pub mod output_prep;
pub mod schedule;
pub mod text;
pub mod workspace;

pub use orchestrator::ExecutorManager;
