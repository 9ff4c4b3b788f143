//! One module for each adapter.

pub mod and;
pub mod attach;
pub mod conversion;
pub mod flat_map;
pub mod ignore;
pub mod map;
pub mod map_err;
pub mod non_terminal;
pub mod opt;
pub mod or;
pub mod try_map;
pub mod repeat;
