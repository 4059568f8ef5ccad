//! Orchestration core of a static-analysis pipeline for application packages:
//! the severity model, the benchmark recorder and ledger, the per-package
//! pipeline and the run controller, each stated over a mathematical model
//! and proved against it.

pub mod text;
pub mod error;
pub mod console;
pub mod criticality;
pub mod benchmark;
pub mod config;
pub mod pipeline;
pub mod run;
