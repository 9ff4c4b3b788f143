//! A parser-combinator core: response shapes and the rules by which they
//! combine, cursors over an input with explicit checkpoints, and the adapters
//! that assemble parsers out of parsers.

pub mod stream;
pub mod data;
pub mod parser;
