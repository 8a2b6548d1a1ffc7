//! Runs submitted source code in a throwaway container: resolves the
//! language's toolchain, stages the source in a per-request workspace,
//! compiles when needed, runs the program with the given input, and answers
//! with what it printed.

pub mod container;
pub mod execution;
pub mod laws;
pub mod registry;
pub mod request;
pub mod workspace;
