//! A minimal mail-to-SMS relay library.
//!
//! The pipeline turns the raw bytes of one inbound connection into either an
//! outbound notification request or a stage error: the bytes are capped,
//! parsed into a message, the sender is checked against a configured
//! allow-list, and the body preview is packaged into an authenticated request
//! for the messaging API. All decisions are made here; the surrounding
//! binary only moves bytes in and out.

pub mod config;
pub mod error;
pub mod extract;
pub mod notify;
pub mod pipeline;
pub mod validate;
