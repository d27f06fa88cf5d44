use vstd::prelude::*;

use crate::animation::{Animation, AnimationIndices};
use crate::camera::CameraFocus;
use crate::movement::{stepped, Character, Keys};

verus! {

/// Side of one square frame of the sprite sheet, in pixels.
pub const TILE_SIZE: u32 = 24;

/// Frames across the sprite sheet.
pub const SHEET_COLUMNS: usize = 7;

/// Frames down the sprite sheet.
pub const SHEET_ROWS: usize = 1;

/// First frame of the run cycle; the sheet's frame before it is the idle pose.
pub const RUN_FIRST: usize = 1;

/// Last frame of the run cycle.
pub const RUN_LAST: usize = 6;

/// Time each frame of the run cycle is shown: a tenth of a second.
pub const FRAME_PERIOD_NS: u64 = 100_000_000;

/// How many times larger than the sheet the character is drawn.
pub const CHARACTER_SCALE: u32 = 6;

/// Everything that changes from frame to frame: the character's animation and
/// position, and the camera that keeps it in view.
#[derive(Clone, Copy, Debug, PartialEq, Eq)]
pub struct Scene {
    pub animation: Animation,
    pub character: Character,
    pub camera: CameraFocus,
}

impl Scene {
    pub open spec fn wf(self) -> bool {
        self.animation.wf()
    }

    /// Whether a frame of `delta_ns` stays within the range of every counter.
    pub open spec fn admits(self, delta_ns: u64) -> bool {
        self.animation.timer.admits(delta_ns) && self.character.fits_step(delta_ns)
    }

    /// The scene at start-up: the run cycle on its first frame with a fresh
    /// timer, the character at the origin facing right, the camera on it.
    pub fn new() -> (r: Scene)
        ensures
            r.wf(),
            r.animation.indices == (AnimationIndices { first: RUN_FIRST, last: RUN_LAST }),
            r.animation.index == RUN_FIRST,
            r.animation.timer.period_ns == FRAME_PERIOD_NS,
            r.animation.timer.elapsed_ns == 0,
            r.character == (Character { x: 0, y: 0, z: 0, flip_x: false }),
            r.camera == (CameraFocus { x: 0, y: 0 }),
    {
        let indices = AnimationIndices { first: RUN_FIRST, last: RUN_LAST };
        Scene {
            animation: Animation::new(indices, FRAME_PERIOD_NS),
            character: Character::new(0, 0, 0),
            camera: CameraFocus::new(0, 0),
        }
    }

    pub fn can_update(&self, delta_ns: u64) -> (r: bool)
        requires
            self.wf(),
        ensures
            r == self.admits(delta_ns),
    {
        self.animation.can_advance(delta_ns) && self.character.can_step(delta_ns)
    }

    /// One frame of `delta_ns` nanoseconds with `keys` held: the animation runs,
    /// the character walks, and the camera then moves onto the character.
    pub fn update(&mut self, keys: Keys, delta_ns: u64)
        requires
            old(self).wf(),
            old(self).admits(delta_ns),
        ensures
            final(self).wf(),
            final(self).animation == old(self).animation.advanced(delta_ns),
            final(self).character@ == stepped(old(self).character@, keys, delta_ns),
            final(self).camera.x == final(self).character.x,
            final(self).camera.y == final(self).character.y,
    {
        self.animation.advance(delta_ns);
        self.character.step(keys, delta_ns);
        self.camera.follow(&self.character);
    }
}

} // verus!
