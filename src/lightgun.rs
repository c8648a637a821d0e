//! A light gun controller.
use vstd::prelude::*;
use crate::console::Player;
use crate::controller::Controller;

verus! {

/// A light gun controller.
pub struct Lightgun {
    pub slot: Option<Player>,
}

impl Lightgun {
    /// A controller that is not plugged in yet.
    pub fn new() -> (r: Lightgun)
        ensures
            r.slot is None,
    {
        Lightgun { slot: None }
    }
}

impl Controller for Lightgun {
    fn plugged(&mut self, slot: Player) {
        self.slot = Some(slot);
    }

    fn unplugged(&mut self) {
        self.slot = None;
    }
}

} // verus!
