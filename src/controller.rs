//! Controllers that can be plugged into the two ports of the console.
use vstd::prelude::*;
use crate::console::Player;

verus! {

/// A controller that can be plugged into one of the two ports.
pub trait Controller {
    /// The controller was plugged into port `slot`.
    fn plugged(&mut self, slot: Player);

    /// The controller was taken out of its port.
    fn unplugged(&mut self);
}

} // verus!
