//! Typed access to memory-mapped hardware locations.
//!
//! The crate has three parts:
//!
//! * [`cell`]: a cell with ordered read / write operations, the primitive
//!   through which every register access goes;
//! * [`bme`] and [`bitband`]: the two address-transformation schemes some
//!   microcontroller families offer for atomic bit-level modification — a
//!   bit-manipulation engine that combines a written value into the target
//!   word, and a bit-band region that maps each bit of a word to a word of
//!   its own;
//! * [`reg`]: traits that a register definition layer implements on top of
//!   the cell.

pub mod bitband;
pub mod bme;
pub mod cell;
pub mod reg;
pub mod word;
