//! File-backed structured store for a writing application.
//!
//! The store keeps hierarchical creative-writing projects and multi-document
//! books as directories of JSON and Markdown files, together with a
//! lightweight per-project commit history. This crate holds the verified
//! core: the data model, the policies that decide what each operation reads
//! and writes, and the derivations (counts, statistics, export rendering).
//! Actual disk access, JSON encoding and OS lookups live outside the crate,
//! which hands them exact plans and consumes their results as plain values.
pub mod book;
mod clock;
pub mod export;
mod ids;
pub mod laws;
pub mod project;
pub mod snapshots;
pub mod store;
pub mod text;
pub mod types;
