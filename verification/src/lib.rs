//! Drives external symbolic-execution and model-checking backends over a
//! compiled artifact and reduces their free-form textual output to a small
//! set of canonical verification verdicts.
//!
//! The crate holds the logic of the tool: the per-backend log classifiers,
//! the expectation extractor, the suite aggregation, the helper libraries
//! for property-style test strategies, and the SIMD lane-lifting utilities.
//! Process invocation and file handling live outside the library.

pub mod annotations;
pub mod backend;
pub mod classify;
pub mod expect;
pub mod klee;
pub mod proptest;
pub mod replay;
pub mod runtools;
pub mod script;
pub mod seahorn;
pub mod simd;
pub mod smack;
pub mod status;
pub mod strategy;
pub mod suite;
pub mod text;
pub mod traits;
pub mod utils;
