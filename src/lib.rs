//! Signature-based symbol resolution: byte patterns with wildcards, a memory
//! scanner over them, module lookup, and memoized symbolic offsets.

pub mod error;
pub mod loader;
pub mod module;
pub mod offset;
pub mod pattern;
pub mod process;
pub mod protection;
pub mod scanner;
pub mod types;

pub use error::FaitheError;
