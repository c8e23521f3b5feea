//! A C-ABI worker that checks the header of an opaque case buffer and answers
//! with a small, status-coded reply buffer.
//!
//! This crate holds the worker's decisions: the status vocabulary, the header
//! check, the reply layout and the call-level outcome. The raw-pointer entry
//! points that hand the reply across the foreign-function boundary sit on top
//! of it.
pub mod status;
pub mod worker;
