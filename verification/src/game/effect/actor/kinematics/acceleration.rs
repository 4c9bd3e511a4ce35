use vstd::prelude::*;
use crate::game::state::actor::{IntentFlags, Stance};

verus! {

/// The plane in which the actor's velocity is steered.
#[derive(Clone, Copy, Debug)]
pub enum Plane<N> {
    /// The surface with this normal; only the in-plane velocity is kept.
    Surface(N),
    /// The horizontal plane; the vertical velocity is kept as it is.
    Horizontal,
    /// The plane facing the view direction; only the in-plane velocity is kept.
    View,
}

/// The steering plane of a stance: the ground when grounded, the horizontal
/// plane when in the air, and when floating the surface floated against, or
/// the view plane when there is none.
pub open spec fn velocity_plane_spec<N>(stance: Stance<N>) -> Plane<N> {
    match stance {
        Stance::Grounded { normal, .. } => Plane::Surface(normal),
        Stance::Airborne { .. } => Plane::Horizontal,
        Stance::Floating { normal } => match normal {
            Some(n) => Plane::Surface(n),
            None => Plane::View,
        },
    }
}

pub fn velocity_plane<N: Copy>(stance: &Stance<N>) -> (res: Plane<N>)
    ensures
        res == velocity_plane_spec(*stance),
{
    match stance {
        Stance::Grounded { normal, .. } => Plane::Surface(*normal),
        Stance::Airborne { .. } => Plane::Horizontal,
        Stance::Floating { normal } => match normal {
            Some(n) => Plane::Surface(*n),
            None => Plane::View,
        },
    }
}

/// A jump starts exactly when the player jumps and this step took the actor
/// from the ground into the air.
pub fn jump_intended<N>(stance: &Stance<N>, intent: IntentFlags, previous_stance: &Stance<N>) -> (res: bool)
    ensures
        res == (intent.jumping && *previous_stance is Grounded && *stance is Airborne),
{
    intent.jumping && matches!(previous_stance, Stance::Grounded { .. }) && matches!(stance, Stance::Airborne { .. })
}

} // verus!
