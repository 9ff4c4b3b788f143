//! The five concrete response shapes.

pub mod effect;
pub mod option;
pub mod pure;
pub mod result;
pub mod sure;
pub mod unit;
