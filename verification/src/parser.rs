//! Parsers, and the adapters that build parsers out of parsers.

pub mod adapters;
pub mod laws;
pub mod traits;
pub(crate) mod util;
