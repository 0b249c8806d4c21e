//! Burn-intensity classification.
//!
//! A fire's intensity is a scalar in thousandths of a unit (so `1000` stands
//! for a fully fuelled fire).  Two fixed cutoffs split the scale into three
//! animation stages.  Both comparisons are strict `<`: an intensity exactly at
//! a cutoff falls into the stage above it, so `classify(330)` is `BurnMedium`
//! and `classify(660)` is `BurnHigh`.

use vstd::prelude::*;

use crate::constants::{ANIMATION_LOW_IS_BELOW, ANIMATION_MEDIUM_IS_BELOW};
use crate::resources::AnimationId;

verus! {

/// Which animation stage a given intensity level selects.
pub open spec fn classify_spec(level: int) -> AnimationId {
    if level < ANIMATION_LOW_IS_BELOW {
        AnimationId::BurnLow
    } else if level < ANIMATION_MEDIUM_IS_BELOW {
        AnimationId::BurnMedium
    } else {
        AnimationId::BurnHigh
    }
}

/// Position of a stage in the Low < Medium < High order.
pub open spec fn stage_rank(id: AnimationId) -> int {
    match id {
        AnimationId::BurnLow => 0,
        AnimationId::BurnMedium => 1,
        AnimationId::BurnHigh => 2,
    }
}

/// Map an intensity level (thousandths of a unit) to an animation stage.
///
/// Total over all inputs; negative levels classify as `BurnLow`.  Whether a
/// dead fire ends the game is the caller's decision, not this function's.
pub fn classify(level: i64) -> (id: AnimationId)
    ensures
        id == classify_spec(level as int),
{
    if level < ANIMATION_LOW_IS_BELOW {
        AnimationId::BurnLow
    } else if level < ANIMATION_MEDIUM_IS_BELOW {
        AnimationId::BurnMedium
    } else {
        AnimationId::BurnHigh
    }
}

/// Classification is monotone: a hotter fire never selects an earlier stage.
pub proof fn lemma_classify_monotonic(a: int, b: int)
    requires
        a <= b,
    ensures
        stage_rank(classify_spec(a)) <= stage_rank(classify_spec(b)),
{
}

/// The endpoints of the scale land on the outer stages: an intensity of zero
/// classifies as `BurnLow` and one of `990` (just under full) as `BurnHigh`.
pub proof fn lemma_classify_endpoints()
    ensures
        classify_spec(0) == AnimationId::BurnLow,
        classify_spec(990) == AnimationId::BurnHigh,
{
}

} // verus!
