//! Verified core of an on-demand image transformation pipeline.
//!
//! Given raw bytes of an image and a small set of transformation
//! parameters, the library detects the source format, plans an
//! aspect-preserving resize, and re-encodes into a target format,
//! preserving embedded color profiles where possible.

pub mod chunk;
pub mod codec;
pub mod domain;
pub mod pipeline;
pub mod processor;
pub mod resize;
pub mod util;
pub mod webp;
