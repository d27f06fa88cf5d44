use vstd::prelude::*;

verus! {

/// Positions are fixed-point: one world unit is this many steps.
pub const STEPS_PER_UNIT: i64 = 1_000_000_000;

/// Walking speed in steps per nanosecond, that is 100 world units per second.
pub const SPEED: i64 = 100;

/// How far one frame with a vertical key held moves the depth, one world unit.
pub const DEPTH_STEP: i64 = 1_000_000_000;

/// Which of the four walking keys are held during a frame.
#[derive(Clone, Copy, Debug, PartialEq, Eq)]
pub struct Keys {
    pub up: bool,
    pub down: bool,
    pub left: bool,
    pub right: bool,
}

/// The controlled character: its position in steps and whether its sprite
/// is mirrored to face left.
#[derive(Clone, Copy, Debug, PartialEq, Eq)]
pub struct Character {
    pub x: i64,
    pub y: i64,
    pub z: i64,
    pub flip_x: bool,
}

/// A character's position over the integers, where no step can overflow.
pub ghost struct Placement {
    pub x: int,
    pub y: int,
    pub z: int,
    pub flip_x: bool,
}

/// The change along an axis when `amount` is added for the positive key and
/// taken away for the negative key: nothing when neither or both are held.
pub open spec fn offset(negative: bool, positive: bool, amount: int) -> int {
    (if positive { amount } else { 0 }) - (if negative { amount } else { 0 })
}

/// Distance in steps covered at walking speed in `delta_ns` nanoseconds.
pub open spec fn distance(delta_ns: u64) -> int {
    SPEED * delta_ns
}

/// The placement after one frame of `delta_ns` nanoseconds with `keys` held.
/// Keys are handled up, down, left, right; the last horizontal one decides
/// the facing, and with none of them held the facing is kept.
pub open spec fn stepped(p: Placement, keys: Keys, delta_ns: u64) -> Placement {
    Placement {
        x: p.x + offset(keys.left, keys.right, distance(delta_ns)),
        y: p.y + offset(keys.down, keys.up, distance(delta_ns)),
        z: p.z + offset(keys.down, keys.up, DEPTH_STEP as int),
        flip_x: if keys.right {
            false
        } else if keys.left {
            true
        } else {
            p.flip_x
        },
    }
}

/// The placement after frames of each duration of `deltas` in turn, `keys` held.
pub open spec fn stepped_through(p: Placement, keys: Keys, deltas: Seq<u64>) -> Placement
    decreases deltas.len(),
{
    if deltas.len() == 0 {
        p
    } else {
        stepped_through(stepped(p, keys, deltas[0]), keys, deltas.drop_first())
    }
}

/// Sum of the durations in `deltas`.
pub open spec fn total(deltas: Seq<u64>) -> int
    decreases deltas.len(),
{
    if deltas.len() == 0 {
        0
    } else {
        deltas[0] + total(deltas.drop_first())
    }
}

impl View for Character {
    type V = Placement;

    open spec fn view(&self) -> Placement {
        Placement { x: self.x as int, y: self.y as int, z: self.z as int, flip_x: self.flip_x }
    }
}

/// Whether a coordinate stays in range when moved by at most `reach` either way.
pub open spec fn room_for(c: i64, reach: int) -> bool {
    i64::MIN + reach <= c <= i64::MAX - reach
}

impl Character {
    /// The furthest any coordinate moves, at any point, in a frame of `delta_ns`.
    pub open spec fn reach(delta_ns: u64) -> int {
        distance(delta_ns) + DEPTH_STEP
    }

    /// Whether a frame of `delta_ns` can be taken without leaving the range of `i64`.
    pub open spec fn fits_step(self, delta_ns: u64) -> bool {
        let reach = Character::reach(delta_ns);
        room_for(self.x, reach) && room_for(self.y, reach) && room_for(self.z, reach)
    }

    /// A character at `(x, y, z)`, facing right.
    pub fn new(x: i64, y: i64, z: i64) -> (r: Character)
        ensures
            r@ == (Placement { x: x as int, y: y as int, z: z as int, flip_x: false }),
    {
        Character { x, y, z, flip_x: false }
    }

    pub fn can_step(&self, delta_ns: u64) -> (r: bool)
        ensures
            r == self.fits_step(delta_ns),
    {
        if delta_ns > ((i64::MAX - DEPTH_STEP) / SPEED) as u64 {
            return false;
        }
        let reach: i64 = SPEED * (delta_ns as i64) + DEPTH_STEP;
        let lo: i64 = i64::MIN + reach;
        let hi: i64 = i64::MAX - reach;
        lo <= self.x && self.x <= hi && lo <= self.y && self.y <= hi && lo <= self.z && self.z
            <= hi
    }

    /// Moves the character for one frame of `delta_ns` nanoseconds with `keys` held.
    pub fn step(&mut self, keys: Keys, delta_ns: u64)
        requires
            old(self).fits_step(delta_ns),
        ensures
            final(self)@ == stepped(old(self)@, keys, delta_ns),
    {
        let d: i64 = SPEED * (delta_ns as i64);
        if keys.up {
            self.y = self.y + d;
            self.z = self.z + DEPTH_STEP;
        }
        if keys.down {
            self.y = self.y - d;
            self.z = self.z - DEPTH_STEP;
        }
        if keys.left {
            self.x = self.x - d;
            self.flip_x = true;
        }
        if keys.right {
            self.x = self.x + d;
            self.flip_x = false;
        }
    }
}

/// Holding keys through frames of any durations moves each axis by the speed
/// times the total time, in whatever frames that time was cut.
pub proof fn lemma_distance_by_total_time(p: Placement, keys: Keys, deltas: Seq<u64>)
    ensures
        stepped_through(p, keys, deltas).x == p.x + offset(keys.left, keys.right, SPEED * total(deltas)),
        stepped_through(p, keys, deltas).y == p.y + offset(keys.down, keys.up, SPEED * total(deltas)),
    decreases deltas.len(),
{
    if deltas.len() > 0 {
        lemma_distance_by_total_time(stepped(p, keys, deltas[0]), keys, deltas.drop_first());
    }
}

/// After a frame in which a horizontal key is held, the sprite faces left
/// exactly when the left key was the last horizontal key handled, which is
/// when left is held and right is not.
pub proof fn lemma_facing_follows_last_horizontal_key(p: Placement, keys: Keys, delta_ns: u64)
    requires
        keys.left || keys.right,
    ensures
        stepped(p, keys, delta_ns).flip_x <==> (keys.left && !keys.right),
{
}

} // verus!
