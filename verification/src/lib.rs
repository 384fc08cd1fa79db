//! Crash triage: convert the diagnostic text a crashing program leaves
//! behind into a structured, severity-classified crash report.
//!
//! The taxonomy of execution classes lives in [`execution_class`], with
//! exact lookup and the derivation rules for sanitizer check names. The
//! [`ingest`] module locates a sanitizer report inside captured
//! standard-error text and parses its summary; [`extract`] produces the
//! bounded stack-trace region and the debugger's memory map; [`report`]
//! holds the crash-report aggregate; [`pipeline`] drives the analysis from
//! captured text and termination signal to a finished report; and [`json`]
//! renders the report as stable, pretty-printed text and reads it back.

pub mod error;
pub mod execution_class;
pub mod extract;
pub mod ingest;
pub mod json;
pub mod pipeline;
pub mod report;
pub mod text;
