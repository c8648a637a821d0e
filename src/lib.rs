//! Emulator core of the Atari 2600 gaming console.
//!
//! The console is modelled as a MOS 6507 processor, the memory-mapped bus it
//! drives (TIA registers, PIA RAM, ports and timer, cartridge ROM) and the
//! TIA beam that composes the picture line by line. Every behaviour is stated
//! as a contract over spec functions and proved.
use vstd::prelude::*;

pub mod location;
pub mod utils;
pub mod bus;
pub mod cartridge;
pub mod cpu;
pub mod console;
pub mod controller;
pub mod lightgun;
pub mod steering;
pub mod emulator;
pub mod addressing_mode;
pub mod instruction;
pub mod color;
pub mod playfield;
pub mod sprite;
pub mod missile;
pub mod video;
pub mod clock;
pub mod laws;

verus! {

} // verus!
