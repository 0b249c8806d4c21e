//! Shared per-world game state for the entity-driven scene.

use vstd::prelude::*;

use crate::resources::AnimationId;

verus! {

/// The click latch and the burn stage the campfire entity shows.
pub struct Game {
    /// Whether the mouse button was down on the previous tick; clicks fire
    /// on the edge from up to down.
    pub click: bool,
    pub animation_id: AnimationId,
}

impl Default for Game {
    /// A fresh world: no click pending and the fire burning low.
    fn default() -> (g: Game)
        ensures
            !g.click,
            g.animation_id == AnimationId::BurnLow,
    {
        Game { click: false, animation_id: AnimationId::BurnLow }
    }
}

/// Whether the world is being stepped.
#[derive(Copy, Clone, Debug, PartialEq, Eq, Structural)]
pub enum CurrentState {
    Running,
    Paused,
}

impl Default for CurrentState {
    /// A fresh world starts paused.
    fn default() -> (s: CurrentState)
        ensures
            s == CurrentState::Paused,
    {
        CurrentState::Paused
    }
}

} // verus!
