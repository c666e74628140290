//! A verified core for a minimal Gemini protocol server: request parsing,
//! path resolution with traversal protection, MIME classification, and
//! response serialization.

pub mod config;
pub mod error;
pub mod gemini;
pub mod handler;
pub mod mime;
pub mod paths;
pub mod text;
pub mod urls;
