//! Configuration and code generation for an attribute that runs an `async`
//! test body on an async runtime (tokio or monoio).

pub mod attrs;
pub mod codegen;
pub mod config;
pub mod error;
pub mod item;
pub mod laws;
pub mod outside;
pub mod runtime;
