//! Forgen: a two-phase, reachability-filtered extraction pipeline for
//! compile-time type facts, with incremental re-extraction in mind.
//!
//! The pipeline runs over a snapshot of what a semantic-analysis engine
//! answers about a workspace (`model`).  Phase one walks every local
//! crate and records each capitalized identifier seen in imports and
//! type positions (`refs`); phase two walks dependency crates and keeps
//! only items whose name that set holds (`walk`).  Item records
//! (`output`, `extract`), path normalization (`paths`), manifest
//! metadata (`workspace`) and the serialized artifact (`serialize`) are
//! all specified exactly; `laws` states the properties the pipeline
//! guarantees.  Everything that talks to the engine, the file system or
//! the watcher lives outside this crate and hands it plain values.

pub mod extract;
pub mod laws;
pub mod model;
pub mod orchestrate;
pub mod output;
pub mod paths;
pub mod refs;
pub mod serialize;
pub mod text;
pub mod walk;
pub mod workspace;
