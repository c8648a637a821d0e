//! A steering (driving) controller.
use vstd::prelude::*;
use crate::console::Player;
use crate::controller::Controller;

verus! {

/// A steering (driving) controller.
pub struct Steering {
    pub slot: Option<Player>,
}

impl Steering {
    /// A controller that is not plugged in yet.
    pub fn new() -> (r: Steering)
        ensures
            r.slot is None,
    {
        Steering { slot: None }
    }
}

impl Controller for Steering {
    fn plugged(&mut self, slot: Player) {
        self.slot = Some(slot);
    }

    fn unplugged(&mut self) {
        self.slot = None;
    }
}

} // verus!
