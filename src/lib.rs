//! Finds out which version of the Rust toolchain is installed by asking
//! `cargo --version` or `rustc --version` and reading the answer.

pub mod invocation;
pub mod output;
pub mod query;
pub mod text;
pub mod tool;
pub mod version;
