//! Orchestration core of a rule-based linter: the batch run with its
//! diagnostic aggregation, and the editor session with its per-document
//! diagnostic cache.

pub mod aggregate;
pub mod cache;
pub mod command;
pub mod ignore_set;
pub mod lint;
pub mod options;
pub mod report;
pub mod run;
pub mod session;
pub mod text;
