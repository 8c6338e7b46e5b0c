//! Query a single field of a package manifest and format it for scripts.
//!
//! The manifest is held in a plain model (see [`manifest`]); the manifest
//! search, the field resolver, the version selector and the output formats
//! are verified against the spec functions that stand beside them, and
//! [`laws`] states the properties that tie them together.
pub mod cli;
pub mod delimiter;
pub mod error;
pub mod laws;
pub mod locate;
pub mod manifest;
pub mod output_format;
pub mod resolve;
pub mod terminator;
pub mod text;
pub mod version;
