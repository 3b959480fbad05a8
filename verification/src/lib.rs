//! A document-based source-code formatter.
//!
//! The crate turns an already-parsed syntax tree into canonical text. It is
//! organised as a pipeline: a syntax tree with its token trivia
//! ([`syntax`]) is translated, one rule per construct ([`mapping`]) and with
//! comments and blank-line intent attached on the way ([`trivia`]), into a
//! width-agnostic layout tree ([`doc`]); a printer ([`printer`]) then resolves
//! every group of that tree to a flat or a broken rendering under the
//! configured maximum line width ([`config`]).

pub mod config;
pub mod doc;
pub mod syntax;
pub mod trivia;
pub mod mapping;
pub mod printer;
pub mod format;
pub mod laws;

pub use config::Configuration;
pub use config::ConfigurationError;
pub use config::FormatOptions;
pub use format::format_node;
pub use format::format_with_configuration;
