//! Core logic of a resumable downloader for a paginated remote content
//! service: a pagination cursor that walks listings to a fixed or
//! listing-reported bound, a resumable transfer state machine that survives
//! transient network faults without losing progress, shared batch counters,
//! and the progress-line and path-escaping helpers around them.
//!
//! All network and file I/O lives outside this crate; the library decides,
//! the caller performs.

pub mod batch;
pub mod command;
pub mod console;
pub mod pagination;
pub mod text;
pub mod transfer;
