//! An escape-time engine for the Mandelbrot set.
//!
//! The engine keeps one cell per pixel, advances every cell that has not yet
//! escaped by one step of `z <- z*z + c` per update, and turns cells into
//! packed 8-bit colors. It is generic over the number type it iterates on:
//! the [`ComplexArith`] trait supplies the few complex operations it needs,
//! and the engine never looks inside a value.
pub mod arith;
pub mod cell;
pub mod color;
pub mod control;
pub mod frame;
pub mod palette;
pub mod sim;

pub use arith::ComplexArith;
pub use cell::GridCell;
pub use color::{channels, rgb, Rgb};
pub use frame::{PixelDims, SimConfig};
pub use sim::Sim;
