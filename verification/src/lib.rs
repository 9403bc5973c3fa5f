//! Error-handling support built around a context-carrying error container.
//!
//! The crate has two halves. The runtime half is [`error::EasyError`], a
//! container that pairs an owned error-like value with a context string and
//! renders as `"{context}: {source's own text}"`. The generation half models
//! the checks behind two code generators: one that declares a catalog of
//! named failure reasons from a list of variant identifiers, and one that
//! rewrites a fallible expression so that a failure is wrapped with context
//! before it propagates.

pub mod attach;
pub mod catalog;
pub mod diagnostics;
pub mod error;
pub mod tokens;

pub use error::EasyError;
pub use error::ErrorValue;
