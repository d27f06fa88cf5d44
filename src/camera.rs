use vstd::prelude::*;

use crate::movement::Character;

verus! {

/// Where the camera looks, in the same fixed-point steps as the character.
/// Its depth and zoom are left to the engine.
#[derive(Clone, Copy, Debug, PartialEq, Eq)]
pub struct CameraFocus {
    pub x: i64,
    pub y: i64,
}

impl CameraFocus {
    pub fn new(x: i64, y: i64) -> (r: CameraFocus)
        ensures
            r.x == x,
            r.y == y,
    {
        CameraFocus { x, y }
    }

    /// Centres the camera on `target`.
    pub fn follow(&mut self, target: &Character)
        ensures
            final(self).x == target.x,
            final(self).y == target.y,
    {
        self.x = target.x;
        self.y = target.y;
    }
}

} // verus!
