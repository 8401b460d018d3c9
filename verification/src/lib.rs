//! A bridge between a tool-calling client and a rust-analyzer language server.
//!
//! The crate holds the decisions of the bridge: how a session is brought up,
//! how requests are serialised over the one connection, how callers wait for
//! the index, how a session is shut down, and how tool requests are read and
//! answered. Processes, pipes and the asynchronous runtime are driven by the
//! program around it, which performs each action the library asks for and
//! hands back what happened.

pub mod project;
pub mod lsp;
pub mod mcp;
