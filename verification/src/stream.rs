//! Cursors over an input sequence.

pub mod adapters;
pub mod traits;
