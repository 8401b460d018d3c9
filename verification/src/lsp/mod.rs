//! The language-server session: start-up, queries and shutdown.

pub mod bootstrap;
pub mod rust_analyzer_lsp;
