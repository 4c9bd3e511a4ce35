use vstd::prelude::*;
use crate::game::state::scene::Kind;

pub mod acceleration;
pub mod intent;
pub mod slide;

verus! {

/// Whether the actor's kinematics step runs: only while a level is being played
/// and a level is set.
pub fn update(scene: Kind, level_url_set: bool) -> (res: bool)
    ensures
        res == (scene == Kind::Simulation && level_url_set),
{
    scene == Kind::Simulation && level_url_set
}

} // verus!
