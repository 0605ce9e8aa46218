//! Notification helper for signalling that an embedding operation finished.
//!
//! The library builds the exact HTTP request that announces a completed
//! embedding run — the webhook URL for a configured host and the JSON body
//! naming the datasource — and classifies the response the caller observed.
//! It performs no I/O itself: a thin shell around it owns the HTTP client
//! and hands the observed outcome back for classification.

pub mod digits;
pub mod notify;
pub mod payload;
pub mod status;
pub mod url;
