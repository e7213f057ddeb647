//! Resolution of a build tool's configuration: a partially specified
//! document is merged with the built-in defaults into a fully populated,
//! immutable configuration.

pub mod config;
pub mod document;
pub mod resolve;
pub mod string_map;

pub use config::{Config, ConfigError, Mode, OutputConfig, ResolveConfig, RuntimeConfig};
pub use document::{ConfigDocument, OutputDocument, ResolveDocument, RuntimeDocument};
pub use resolve::resolve;
pub use string_map::StringMap;
