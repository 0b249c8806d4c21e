//! Verified core of a campfire clicker game.
//!
//! The player keeps a campfire alive by clicking it while a narrated story
//! plays out.  This crate holds the game's logic: the sprite-frame selector,
//! the burn-intensity classifier, click hit-testing, the per-tick state
//! machine, and the asset catalogue.  All scalar quantities are fixed-point:
//! times are in milliseconds, intensity levels and volumes in thousandths of
//! a unit, and screen coordinates in thousandths of a pixel.  Rendering and
//! audio playback live outside the crate; its functions hand back plain
//! values that say what to draw or play.

pub mod assets;
pub mod burn;
pub mod click;
pub mod constants;
pub mod frames;
pub mod game;
pub mod resources;
pub mod state;
pub mod systems;
