use vstd::prelude::*;
use crate::game::state::scene::Kind;

verus! {

/// What happens to the mouse cursor when the scene changes: captured and
/// hidden while a level is played, released and shown otherwise. Nothing
/// happens in a step where the scene did not change (`None`).
pub fn update(scene: Kind, transitioned: bool) -> (res: Option<bool>)
    ensures
        !transitioned ==> res is None,
        transitioned ==> res == Some(scene == Kind::Simulation),
{
    if !transitioned {
        return None;
    }
    Some(scene == Kind::Simulation)
}

} // verus!
