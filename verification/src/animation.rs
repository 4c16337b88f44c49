//! Animation clip vocabulary: loop modes and easing curves. (Keyframes,
//! tracks and playback are floating-point data and arithmetic.)

use vstd::prelude::*;

verus! {

/// How a clip repeats.
#[derive(Clone, Copy, Debug, PartialEq, Eq)]
pub enum LoopMode {
    /// Play once and stop.
    Once,
    /// Repeat from the start.
    Loop,
    /// Play forwards then backwards.
    PingPong,
}

/// The interpolation curve between two keyframes.
#[derive(Clone, Copy, Debug, PartialEq, Eq)]
pub enum Easing {
    Linear,
    EaseIn,
    EaseOut,
    EaseInOut,
}

/// The easing of a keyframe that names none.
pub fn default_easing() -> (r: Easing)
    ensures
        r == Easing::EaseInOut,
{
    Easing::EaseInOut
}

} // verus!
