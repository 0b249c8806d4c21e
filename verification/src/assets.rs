//! The game's asset catalogue: which files it plays and shows, by path.

pub mod paths;
pub mod sounds;
pub mod story;
pub mod text;
