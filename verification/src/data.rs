//! Response shapes and the capabilities by which they combine.

pub mod adapters;
pub mod laws;
pub mod traits;
