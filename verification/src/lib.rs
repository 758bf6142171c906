//! A research helper for Rust questions: it resolves a short source name to
//! one of three content providers, builds the provider's search URL for a
//! query (with the docs provider's base64-encoded custom pagination), keeps
//! a per-process history of issued queries, and classifies the outcome of
//! the single HTTP GET that a caller performs with the built URL.

pub mod cli;
pub mod content_source;
pub mod driver;
pub mod logger;
pub mod querys;
pub mod strings;
pub mod style;
pub mod text_padding;
pub mod text_utills;
