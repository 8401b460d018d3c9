//! Reading tool requests and building their answers.

pub mod utils;
pub mod cargo_check;
