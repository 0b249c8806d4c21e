//! Per-tick systems of the entity-driven scene.
//!
//! [`InteractionSystem`] decides what a tick of mouse input does: a fresh
//! press — the button down now but not on the previous tick, with the
//! cursor on screen — advances the campfire one burn stage (wrapping from
//! high back to low), turns the music down when the fire reaches the high
//! stage, and asks for the background sound.  The host performs the
//! animation swap and the audio; this system only decides.

use vstd::prelude::*;

use crate::click::GameObject;
use crate::click::clicked_object_spec;
use crate::click::get_clicked_object;
use crate::game::Game;
use crate::resources::AnimationId;

verus! {

/// The stage after `id`, cycling low, medium, high, and around again.
pub open spec fn next_animation(id: AnimationId) -> AnimationId {
    match id {
        AnimationId::BurnLow => AnimationId::BurnMedium,
        AnimationId::BurnMedium => AnimationId::BurnHigh,
        AnimationId::BurnHigh => AnimationId::BurnLow,
    }
}

/// An animation swap: stop looping `from`, start looping `to`.
#[derive(Copy, Clone, Debug, PartialEq, Eq, Structural)]
pub struct AnimationSwap {
    pub from: AnimationId,
    pub to: AnimationId,
}

/// What one tick of mouse input asks the host to do.
#[derive(Copy, Clone, Debug, PartialEq, Eq, Structural)]
pub struct InteractionOutcome {
    /// The object under the cursor, when a fresh press landed on one.
    pub clicked: Option<GameObject>,
    /// The animation swap to perform.
    pub animation_change: Option<AnimationSwap>,
    /// Whether to turn the music down.
    pub quiet_music: bool,
    /// Whether to play the background sound.
    pub play_background: bool,
}

/// Decides what mouse input does to the campfire scene.
#[derive(Default)]
pub struct InteractionSystem;

impl InteractionSystem {
    /// One tick: on a fresh press with the cursor at `mouse_position`
    /// (thousandths of a pixel), advance the burn stage and ask for sound;
    /// otherwise do nothing.  Always latch the current button state.
    pub fn run(
        &mut self,
        game: &mut Game,
        mouse_down: bool,
        mouse_position: Option<(i64, i64)>,
    ) -> (r: InteractionOutcome)
        ensures
            final(game).click == mouse_down,
            match (
                !old(game).click && mouse_down,
                mouse_position,
            ) {
                (true, Some(pos)) => {
                    &&& final(game).animation_id == next_animation(old(game).animation_id)
                    &&& r.clicked == clicked_object_spec(pos.0 as int, pos.1 as int)
                    &&& r.animation_change == Some(
                        AnimationSwap {
                            from: old(game).animation_id,
                            to: final(game).animation_id,
                        },
                    )
                    &&& r.quiet_music == (final(game).animation_id == AnimationId::BurnHigh)
                    &&& r.play_background
                },
                _ => {
                    &&& final(game).animation_id == old(game).animation_id
                    &&& r.clicked is None
                    &&& r.animation_change is None
                    &&& !r.quiet_music
                    &&& !r.play_background
                },
            },
    {
        let mut outcome = InteractionOutcome {
            clicked: None,
            animation_change: None,
            quiet_music: false,
            play_background: false,
        };

        if !game.click && mouse_down {
            if let Some(position) = mouse_position {
                outcome.clicked = get_clicked_object(position.0, position.1);

                let previous_id = game.animation_id;
                game.animation_id = match game.animation_id {
                    AnimationId::BurnLow => AnimationId::BurnMedium,
                    AnimationId::BurnMedium => AnimationId::BurnHigh,
                    AnimationId::BurnHigh => AnimationId::BurnLow,
                };

                outcome.animation_change = Some(
                    AnimationSwap { from: previous_id, to: game.animation_id },
                );
                outcome.quiet_music = game.animation_id == AnimationId::BurnHigh;
                outcome.play_background = true;
            }
        }

        game.click = mouse_down;
        outcome
    }
}

/// Keeps the background sound playing; each tick asks the host to play it.
/// The playing itself is audio output and happens in the host.
#[derive(Default)]
pub struct SoundSystem;

} // verus!
