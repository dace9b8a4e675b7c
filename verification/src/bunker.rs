//! Defense bunkers: fixed destructible slots at the bottom of the
//! play field.

use vstd::prelude::*;
use crate::geom::Vec2Fx;

verus! {

/// A defense structure.  `active` flips to false permanently on a
/// direct hit; `firing` is true while a player missile launched from it
/// is in flight.
#[derive(Clone, Copy, Debug, PartialEq, Eq, Structural)]
pub struct Bunker {
    pub pos: Vec2Fx,
    pub active: bool,
    pub firing: bool,
}

impl Bunker {
    /// A fresh, intact bunker at `pos`.
    pub fn new(pos: Vec2Fx) -> (r: Bunker)
        ensures
            r.pos == pos,
            r.active,
            !r.firing,
    {
        Bunker { pos, active: true, firing: false }
    }

    /// Restore the bunker to its intact, idle state.
    pub fn reset(&mut self)
        ensures
            *final(self) == (Bunker { active: true, firing: false, ..*old(self) }),
    {
        self.active = true;
        self.firing = false;
    }
}

} // verus!
