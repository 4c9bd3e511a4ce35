use vstd::prelude::*;

verus! {

/// The screen the game is showing.
#[derive(Clone, Copy, Debug, PartialEq, Eq, Structural)]
pub enum Kind {
    Intro,
    MenuHome,
    MenuVisit,
    MenuLoad,
    MenuPause,
    Simulation,
}

} // verus!
