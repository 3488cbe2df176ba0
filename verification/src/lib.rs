//! Compile a sass/scss style sheet once at startup and serve the result on
//! every request, with a caching directive attached.
//!
//! The crate holds the decisions of that lifecycle: which path and which cache
//! lifetime a configuration yields, how startup proceeds from one outcome of
//! the host's work to the next, when a sheet counts as published, and what
//! the response to a request for it holds. Reading the configuration,
//! touching the file system, running the compiler and speaking HTTP are the
//! host's part.

pub mod config;
pub mod error;
pub mod guarantees;
pub mod ignition;
pub mod sheet;
pub mod text;

pub use crate::ignition::Ignition;
pub use crate::sheet::SassSheet;
