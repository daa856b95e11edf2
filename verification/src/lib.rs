//! Overflow-free helpers for the primitive integer types: the average of two
//! integers, and logarithms and powers with respect to a base, with a
//! table-driven family for base ten.
pub mod average;
pub mod bits;
pub mod decimal;
pub mod exponent;
pub mod model;
pub mod power;
pub mod power10;

pub use average::{average_ceil, average_floor, Average};
pub use model::Integral;
pub use power::Power;
pub use power10::{
    checked_log10, checked_next_power_of_ten, is_power_of_ten, log10, next_power_of_ten,
    wrapping_next_power_of_ten, Power10,
};
