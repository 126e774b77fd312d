//! Forensic-artifact processing orchestration library.
//!
//! Given a data source (a mounted image or a folder of collected files) and a
//! declarative job description, this library resolves the on-disk location of
//! named artefacts, plans and drives external forensic tools against them
//! under an idempotency discipline, funnels their output into a single
//! append-only log, and validates after the run that every located input
//! produced a plausible output.

pub mod art;
pub mod artmap;
pub mod configs;
pub mod exe_ops;
pub mod file_ops;
pub mod logsink;
pub mod text;
pub mod valid_ops;
pub mod wiskess;

pub use text::replace_all;
