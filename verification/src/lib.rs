//! A fault-isolated batch pipeline that turns candidate documents into
//! generated text artifacts: download, validate, sandboxed content
//! extraction, retried summarization, persistence.
//!
//! Everything that decides or computes lives here, verified; the thin
//! executable shell around it performs the network, filesystem and
//! process-level work and feeds the results back in as plain values.

pub mod extract;
pub mod feed;
pub mod keys;
pub mod pipeline;
pub mod summarize;
pub mod text;
pub mod work;
