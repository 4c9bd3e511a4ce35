use vstd::prelude::*;

pub mod actor;
pub mod cursor;
pub mod debug;
pub mod menu;

verus! {

/// A menu sound to play.
#[derive(Clone, Copy, Debug, PartialEq, Eq, Structural)]
pub enum Sound {
    /// The cursor moved, or a menu was left.
    Move,
    /// An entry was chosen.
    Select,
}

/// What the level music does.
#[derive(Clone, Copy, Debug, PartialEq, Eq, Structural)]
pub enum Music {
    /// Fade the level's track in.
    FadeIn,
    /// Fade the music out.
    FadeOut,
}

} // verus!
