//! A ready-to-use emulator of the Atari 2600 gaming console.
use vstd::prelude::*;

verus! {

/// A ready-to-use emulator of the Atari 2600 gaming console; the program
/// that opens a window around a console lives outside this library.
pub struct Emulator {}

} // verus!
