//! A cycle-stepped model of an 8-bit console's picture unit, together with
//! the simplest bank-switching cartridge mapper it is paired with.

pub mod bus;
pub mod mapper3;
pub mod ppu;
pub mod registers;
