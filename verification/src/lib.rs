//! An on-demand image resizing service, verified.
//!
//! The request-processing pipeline is pure decision logic: a source-host
//! allowlist check, classification of the bounded fetch, the
//! aspect-ratio-preserving resize-dimension calculation, output-format
//! negotiation, cache-header arithmetic, and the request-timing exclusion
//! rules. All of it lives here with proved contracts; the HTTP transport
//! and the pixel codec are external collaborators driven by a thin shell.

pub mod client;
pub mod config;
pub mod error;
pub mod format;
pub mod headers;
pub mod metrics;
pub mod pipeline;
pub mod resize;
pub mod strutil;
