//! A named dense numeric vector built on `nalgebra`'s `DVector`.

pub mod array;
pub mod decimal;
