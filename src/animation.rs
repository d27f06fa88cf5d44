use vstd::prelude::*;

use crate::timer::FrameTimer;

verus! {

/// The range of sprite-sheet frames that make up one animation cycle.
#[derive(Clone, Copy, Debug, PartialEq, Eq)]
pub struct AnimationIndices {
    pub first: usize,
    pub last: usize,
}

/// The frame that follows `index` in the cycle `first..=last`.
pub open spec fn following(first: usize, last: usize, index: usize) -> usize {
    if index == last {
        first
    } else {
        (index + 1) as usize
    }
}

/// Index of the frame that follows `index` in the cycle `first..=last`.
pub fn next_frame(first: usize, last: usize, index: usize) -> (r: usize)
    requires
        first <= index <= last,
    ensures
        r == following(first, last, index),
        first <= r <= last,
{
    if index == last {
        first
    } else {
        index + 1
    }
}

/// A sprite that cycles through its frames on a repeating timer.
#[derive(Clone, Copy, Debug, PartialEq, Eq)]
pub struct Animation {
    pub indices: AnimationIndices,
    pub index: usize,
    pub timer: FrameTimer,
}

impl Animation {
    pub open spec fn wf(self) -> bool {
        &&& self.indices.first <= self.index <= self.indices.last
        &&& self.timer.wf()
    }

    /// The animation after `delta_ns` nanoseconds: the timer is ticked, and
    /// when it expires the frame moves one step along the cycle.
    pub open spec fn advanced(self, delta_ns: u64) -> Animation {
        Animation {
            indices: self.indices,
            index: if self.timer.fires(delta_ns) {
                following(self.indices.first, self.indices.last, self.index)
            } else {
                self.index
            },
            timer: self.timer.ticked(delta_ns),
        }
    }

    /// The animation after each elapsed time of `deltas` in turn.
    pub open spec fn advanced_by_all(self, deltas: Seq<u64>) -> Animation
        decreases deltas.len(),
    {
        if deltas.len() == 0 {
            self
        } else {
            self.advanced(deltas[0]).advanced_by_all(deltas.drop_first())
        }
    }

    /// Starts the cycle at its first frame with a fresh timer.
    pub fn new(indices: AnimationIndices, period_ns: u64) -> (r: Animation)
        requires
            indices.first <= indices.last,
            period_ns > 0,
        ensures
            r.wf(),
            r.indices == indices,
            r.index == indices.first,
            r.timer == FrameTimer::new_spec(period_ns),
    {
        Animation { indices, index: indices.first, timer: FrameTimer::new(period_ns) }
    }

    pub fn can_advance(&self, delta_ns: u64) -> (r: bool)
        requires
            self.wf(),
        ensures
            r == self.timer.admits(delta_ns),
    {
        self.timer.can_tick(delta_ns)
    }

    /// Lets `delta_ns` nanoseconds pass.
    pub fn advance(&mut self, delta_ns: u64)
        requires
            old(self).wf(),
            old(self).timer.admits(delta_ns),
        ensures
            final(self).wf(),
            *final(self) == old(self).advanced(delta_ns),
    {
        let fired = self.timer.tick(delta_ns);
        if fired {
            self.index = next_frame(self.indices.first, self.indices.last, self.index);
        }
    }
}

/// Whatever times pass, the frame index stays within `[first, last]`.
pub proof fn lemma_index_in_range(a: Animation, deltas: Seq<u64>)
    requires
        a.wf(),
    ensures
        a.advanced_by_all(deltas).wf(),
        a.indices.first <= a.advanced_by_all(deltas).index <= a.indices.last,
    decreases deltas.len(),
{
    if deltas.len() > 0 {
        lemma_index_in_range(a.advanced(deltas[0]), deltas.drop_first());
    }
}

/// Once the last frame is shown, the next expiry of the timer brings back the first.
pub proof fn lemma_wraps_to_first(a: Animation, delta_ns: u64)
    requires
        a.wf(),
        a.index == a.indices.last,
        a.timer.fires(delta_ns),
    ensures
        a.advanced(delta_ns).index == a.indices.first,
{
}

} // verus!
