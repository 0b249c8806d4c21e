//! Tuning constants for the campfire game.
//!
//! Scalars follow the crate-wide fixed-point conventions: durations in
//! milliseconds, intensities and volumes in thousandths of a unit, screen
//! distances in pixels.

use vstd::prelude::*;

use crate::resources::AnimationId;

verus! {

pub const GAME_ID: &'static str = "ludum-dare-46";

pub const GAME_TITLE: &'static str = "Ember Story";

pub const AUTHOR: &'static str = "sigod & co";

/// Window width in pixels.
pub const DIMENSIONS_WIDTH: u32 = 1280;

/// Window height in pixels.
pub const DIMENSIONS_HEIGHT: u32 = 800;

pub const DESIRED_FPS: u32 = 70;

/// Playback volumes, in thousandths of full volume.
pub const GUITAR_VOLUME: u32 = 550;

pub const MAN_VOLUME: u32 = 280;

pub const GIRL1_VOLUME: u32 = 360;

pub const GIRL2_VOLUME: u32 = 360;

pub const FIRE_VOLUME: u32 = 300;

pub const OWL_VOLUME: u32 = 300;

pub const STORY_VOLUME: u32 = 220;

pub const FIREWOOD_THROW_VOLUME: u32 = 220;

pub const BACKGROUND_MUSIC_VOLUME: u32 = 300;

/// How long after the game starts the story begins, in milliseconds.
pub const STORY_DELAY: i64 = 3000;

/// The burn stage a fresh game starts on.
pub const STARTING_ANIMATION: AnimationId = AnimationId::BurnMedium;

/// Fire intensity at the start of a game, in thousandths.
pub const FIRE_STARTING_INTENSITY: i64 = 600;

/// How much intensity the fire loses per second, in thousandths.
pub const FIRE_DROP_OFF_RATE: i64 = 30;

/// How much intensity one log of wood adds, in thousandths.
pub const WOOD_INCREASE: i64 = 200;

/// Intensities strictly below this classify as the low burn stage.
pub const ANIMATION_LOW_IS_BELOW: i64 = 330;

/// Intensities strictly below this (and at least the low cutoff) classify as
/// the medium burn stage.
pub const ANIMATION_MEDIUM_IS_BELOW: i64 = 660;

} // verus!
