//! A debounced cache of chain state (the head block and the gas price), with the
//! decisions of the single background loop that refreshes it on demand.

pub mod error;
pub mod laws;
pub mod model;
pub mod service;
pub mod types;
