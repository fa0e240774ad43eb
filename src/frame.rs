//! Per-frame decisions of the render loop.
//!
//! The loop keeps one piece of state across frames: the animation angle, in
//! whole degrees, which advances by a fixed step each tick and wraps at a
//! full turn. Each tick the host rebuilds the model matrix from identity at
//! the angle that `begin_frame` hands out, composes it with the camera, and
//! tries to invert it; `finish_frame` then decides whether the frame is drawn.
use vstd::prelude::*;
use vstd::arithmetic::div_mod::{lemma_add_mod_noop, lemma_mod_add_multiples_vanish, lemma_small_mod};

verus! {

/// Degrees in a full turn; the angle wraps back to zero there.
pub const FULL_TURN_DEGREES: u32 = 360;

/// Degrees the animation advances on each tick.
pub const DEGREES_PER_TICK: u32 = 1;

/// The angle one tick after `d`.
pub open spec fn next_angle(d: int) -> int {
    (d + DEGREES_PER_TICK) % (FULL_TURN_DEGREES as int)
}

/// The angle `n` ticks after `d`.
pub open spec fn angle_after(d: int, n: nat) -> int
    decreases n,
{
    if n == 0 {
        d
    } else {
        next_angle(angle_after(d, (n - 1) as nat))
    }
}

/// After `n` ticks the angle has moved `n` degrees, modulo a full turn.
pub proof fn lemma_angle_after(d: int, n: nat)
    requires
        0 <= d < 360,
    ensures
        angle_after(d, n) == (d + n) % 360,
    decreases n,
{
    if n == 0 {
        lemma_small_mod(d as nat, 360);
    } else {
        lemma_angle_after(d, (n - 1) as nat);
        lemma_add_mod_noop(d + n - 1, 1, 360);
        lemma_small_mod(1, 360);
    }
}

/// Advancing the angle through a full turn of ticks, from any frame on,
/// gives back the angle of that frame; the model matrix, built from that
/// angle alone, is then rebuilt as it was.
pub proof fn lemma_full_turn_repeats(start: int, n: nat)
    requires
        0 <= start < 360,
    ensures
        angle_after(start, n + 360) == angle_after(start, n),
        angle_after(start, 360) == start,
{
    lemma_angle_after(start, n);
    lemma_angle_after(start, (n + 360) as nat);
    lemma_mod_add_multiples_vanish(start + n, 360);
    lemma_angle_after(start, 360);
    lemma_mod_add_multiples_vanish(start, 360);
    lemma_small_mod(start as nat, 360);
}

/// What the host does at the end of a frame.
#[derive(Debug, Clone, Copy, PartialEq, Eq, Structural)]
pub enum FrameAction {
    /// Issue the draw call over this many triangle indices.
    Draw(i32),
    /// The model matrix could not be inverted: draw nothing this tick and go
    /// on with the next one.
    Skip,
}

/// The render loop's state across frames.
pub struct FrameComposer {
    angle: u32,
    index_count: i32,
}

impl FrameComposer {
    #[verifier::type_invariant]
    spec fn well_formed(self) -> bool {
        &&& self.angle < FULL_TURN_DEGREES
        &&& self.index_count >= 0
    }

    /// Current animation angle, in degrees.
    pub closed spec fn spec_angle(self) -> int {
        self.angle as int
    }

    /// Number of triangle indices each draw call covers.
    pub closed spec fn spec_index_count(self) -> int {
        self.index_count as int
    }

    /// Starts the loop at angle zero for a mesh with `index_count` triangle
    /// indices; `None` when that count does not fit a draw call.
    pub fn new(index_count: usize) -> (r: Option<FrameComposer>)
        ensures
            r is Some <==> index_count <= i32::MAX,
            r matches Some(c) ==> c.spec_angle() == 0 && c.spec_index_count() == index_count,
    {
        if index_count <= i32::MAX as usize {
            Some(FrameComposer { angle: 0, index_count: index_count as i32 })
        } else {
            None
        }
    }

    /// Current animation angle, in degrees.
    pub fn angle(&self) -> (r: u32)
        ensures
            r == self.spec_angle(),
            r < FULL_TURN_DEGREES,
    {
        proof {
            use_type_invariant(self);
        }
        self.angle
    }

    /// Number of triangle indices each draw call covers.
    pub fn index_count(&self) -> (r: i32)
        ensures
            r == self.spec_index_count(),
            r >= 0,
    {
        proof {
            use_type_invariant(self);
        }
        self.index_count
    }

    /// Advances the animation by one tick and returns the angle, in degrees,
    /// at which the model matrix is rebuilt for this frame.
    pub fn begin_frame(&mut self) -> (r: u32)
        ensures
            r as int == next_angle(old(self).spec_angle()),
            final(self).spec_angle() == r,
            final(self).spec_index_count() == old(self).spec_index_count(),
            r < FULL_TURN_DEGREES,
    {
        proof {
            use_type_invariant(&*self);
        }
        self.angle = (self.angle + DEGREES_PER_TICK) % FULL_TURN_DEGREES;
        self.angle
    }

    /// Decides the end of a frame from whether the model matrix was inverted:
    /// draw the mesh when it was, skip the draw when it was not.
    pub fn finish_frame(&self, model_inverted: bool) -> (r: FrameAction)
        ensures
            model_inverted ==> r == FrameAction::Draw(self.spec_index_count() as i32),
            !model_inverted ==> r == FrameAction::Skip,
    {
        if model_inverted {
            FrameAction::Draw(self.index_count)
        } else {
            FrameAction::Skip
        }
    }
}

} // verus!
