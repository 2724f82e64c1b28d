//! Data layer: how domain values are laid out in the store's columns.

pub mod codes;
pub mod ids;
pub mod json;
pub mod outcome;
pub mod rows;
