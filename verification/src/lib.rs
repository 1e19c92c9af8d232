//! Conversion of structured documents between JSON, YAML and TOML.
//!
//! The library decides which syntax a path names, which pairs of syntaxes can
//! be converted, and which error each refused pair gets; the parsing and
//! printing of documents is done by `serde_json`, `serde_yaml` and `toml`.

pub mod codec;
pub mod convert;
pub mod endpoint;
pub mod error;
pub mod format;
pub mod laws;
pub mod paths;
pub mod pipeline;
