//! Animation identifiers and the small per-tick view decisions: sprite
//! facing and the intangibility flash. Identifiers pass through untouched
//! to whatever draws them.

use vstd::prelude::*;

use crate::math::absi;
use crate::utils::{Facing, FrameNumber, LeftRight};

verus! {

/// The first and last sprite-sheet indices of an animation.
#[derive(Clone, Copy, Debug, PartialEq, Eq, Structural)]
pub struct AnimationIndices {
    pub first: FrameNumber,
    pub last: FrameNumber,
}

/// A change of animation: a single held frame, or a repeating range with a
/// fixed real-time period per frame.
#[derive(Clone, Copy, Debug, PartialEq, Eq, Structural)]
pub enum AnimationUpdate {
    SingleFrame(FrameNumber),
    MultiFrame { indices: AnimationIndices, millis_per_frame: u32 },
}

/// The horizontal scale a sprite should carry so it faces the fighter's
/// way: the magnitude is kept, only the sign follows the facing.
pub open spec fn aligned_scale_x(facing: LeftRight, scale_x: int) -> int {
    facing.sign_spec() * absi(scale_x)
}

/// Flips a sprite's horizontal scale when it disagrees with the facing.
pub fn align_sprite_with_facing(facing: &Facing, scale_x: i64) -> (r: i64)
    requires
        scale_x > i64::MIN,
    ensures
        r == aligned_scale_x(facing.0, scale_x as int),
{
    let positive = scale_x >= 0;
    let flip = match facing.0 {
        LeftRight::Left => positive,
        LeftRight::Right => !positive,
    };
    let r = if flip {
        -scale_x
    } else {
        scale_x
    };
    proof {
        assert(r == facing.0.sign_spec() * absi(scale_x as int)) by (nonlinear_arith)
            requires
                (facing.0.sign_spec() == 1 && r == absi(scale_x as int)) || (facing.0.sign_spec()
                    == -1 && r == -absi(scale_x as int)),
        ;
    }
    r
}

/// Whether the intangibility flash shows the bright phase this tick: an
/// intangible fighter blinks with a six-tick period.
pub fn intangibility_flash_bright(frame: &FrameNumber, intangible: bool) -> (r: bool)
    ensures
        r == (intangible && (frame / 3) % 2 == 0),
{
    intangible && (*frame / 3) % 2 == 0
}

} // verus!
