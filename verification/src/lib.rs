//! Loads a single configuration value (an API key) from the text of a
//! TOML document, reporting every syntax error with its line/column
//! location, or the decoded configuration on success.

pub mod config;
pub mod position;
pub mod render;
pub mod scan;
