use vstd::prelude::*;
use crate::util::url::LevelUrl;

verus! {

/// How the player's actor stands. `N` is a surface normal (a 3D vector).
#[derive(Clone, Copy, Debug)]
pub enum Stance<N> {
    /// On the ground, on a surface with the given normal.
    Grounded { normal: N, crouching: bool },
    /// In the air.
    Airborne { crouching: bool },
    /// Floating freely, against a surface with the given normal if any.
    Floating { normal: Option<N> },
}

/// What the player wants to do during one step.
#[derive(Clone, Copy, Debug, PartialEq, Eq, Structural)]
pub struct IntentFlags {
    pub crouching: bool,
    pub jumping: bool,
    pub float: bool,
}

/// The actor's state that the game's decisions read and set: how it stands,
/// what the player intends, and the level it is in. Its position, velocity and
/// float-jump timer are floating-point values kept beside it.
pub struct Actor<N> {
    pub stance: Stance<N>,
    pub intent: IntentFlags,
    pub level_url: Option<LevelUrl>,
}

/// The actor as it enters a level: airborne and standing, not floating, with
/// the rest of the intent kept.
pub open spec fn entered_level<N>(actor: Actor<N>, new_actor: Actor<N>) -> bool {
    &&& new_actor.stance == Stance::<N>::Airborne { crouching: false }
    &&& new_actor.intent == IntentFlags {
        crouching: actor.intent.crouching,
        jumping: actor.intent.jumping,
        float: false,
    }
}

} // verus!
