use vstd::prelude::*;

verus! {

/// The named colors of the game's palette that text and overlays use.
/// The renderer maps each one to its RGBA value.
#[derive(Clone, Copy, Debug, PartialEq, Eq, Structural)]
pub enum Color {
    White,
    Black,
    Green,
    Red,
    LightBlue,
}

} // verus!
