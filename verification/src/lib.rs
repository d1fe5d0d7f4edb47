//! Library behind a small command-line templating tool.
//!
//! A template is rendered against a data source: a structured file read as
//! JSON, YAML or TOML, or the process environment as fallback.  The heart of
//! the library is the data resolver: a bounded cascade of deserialization
//! attempts that turns a possibly absent data file with an unreliable
//! extension into a single well-typed `Data` value.

pub mod config;
pub mod data;
pub mod laws;
pub mod resolver;
pub mod text;

pub use config::Config;
pub use data::{Data, Fmt};
pub use resolver::{resolve, Diag, Hint, Resolution};
