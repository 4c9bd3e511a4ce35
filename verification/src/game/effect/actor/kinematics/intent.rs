use vstd::prelude::*;
use crate::game::state::actor::{IntentFlags, Stance};

verus! {

/// Which way the actor's collider is swept to check there is room to stand up.
#[derive(Clone, Copy, Debug, PartialEq, Eq, Structural)]
pub enum StandSweep {
    Up,
    Down,
}

/// The sweep that decides whether a crouching actor may stand: up when on the
/// ground, down when in the air, none when floating.
pub open spec fn stand_sweep_spec<N>(stance: Stance<N>) -> Option<StandSweep> {
    match stance {
        Stance::Grounded { .. } => Some(StandSweep::Up),
        Stance::Airborne { .. } => Some(StandSweep::Down),
        Stance::Floating { .. } => None,
    }
}

pub fn stand_sweep<N>(stance: &Stance<N>) -> (res: Option<StandSweep>)
    ensures
        res == stand_sweep_spec(*stance),
{
    match stance {
        Stance::Grounded { .. } => Some(StandSweep::Up),
        Stance::Airborne { .. } => Some(StandSweep::Down),
        Stance::Floating { .. } => None,
    }
}

/// The stance after applying the player's intent. A crouching actor keeps
/// crouching while it wants to or while there is no room to stand
/// (`clear_sweep` false). Jumping leaves the ground; floating starts from the
/// air; jumping while floating drops into the air crouched.
pub open spec fn apply_spec<N>(stance: Stance<N>, intent: IntentFlags, clear_sweep: bool) -> Stance<N> {
    match stance {
        Stance::Grounded { normal, crouching } => {
            let c = intent.crouching || (crouching && !clear_sweep);
            if intent.jumping {
                Stance::Airborne { crouching: c }
            } else {
                Stance::Grounded { normal: normal, crouching: c }
            }
        },
        Stance::Airborne { crouching } => {
            let c = intent.crouching || (crouching && !clear_sweep);
            if intent.float {
                Stance::Floating { normal: None }
            } else {
                Stance::Airborne { crouching: c }
            }
        },
        Stance::Floating { normal } => {
            if intent.jumping {
                Stance::Airborne { crouching: true }
            } else {
                Stance::Floating { normal: normal }
            }
        },
    }
}

/// Applies the player's intent to the stance, as `apply_spec` describes.
pub fn apply<N: Copy>(stance: Stance<N>, intent: IntentFlags, clear_sweep: bool) -> (res: Stance<N>)
    ensures
        res == apply_spec(stance, intent, clear_sweep),
{
    match stance {
        Stance::Grounded { normal, crouching } => {
            let c = intent.crouching || (crouching && !clear_sweep);
            if intent.jumping {
                Stance::Airborne { crouching: c }
            } else {
                Stance::Grounded { normal, crouching: c }
            }
        },
        Stance::Airborne { crouching } => {
            let c = intent.crouching || (crouching && !clear_sweep);
            if intent.float {
                Stance::Floating { normal: None }
            } else {
                Stance::Airborne { crouching: c }
            }
        },
        Stance::Floating { normal } => {
            if intent.jumping {
                Stance::Airborne { crouching: true }
            } else {
                Stance::Floating { normal }
            }
        },
    }
}

/// Whether the actor's position moves up by half the collider's change in
/// height (on the ground, so the feet stay put) or down (in the air or
/// floating, so the head stays put).
pub fn shifts_up<N>(stance: &Stance<N>) -> (res: bool)
    ensures
        res == (*stance is Grounded),
{
    match stance {
        Stance::Grounded { .. } => true,
        _ => false,
    }
}

/// Crouching law: an actor that wants to crouch ends up crouching unless it
/// starts floating; a floating actor that does not jump keeps floating against
/// the same surface.
pub proof fn lemma_intent_crouch<N>(stance: Stance<N>, intent: IntentFlags, clear_sweep: bool)
    ensures
        intent.crouching && !(stance is Floating) && !(stance is Airborne && intent.float) ==> match apply_spec(stance, intent, clear_sweep) {
            Stance::Grounded { crouching, .. } => crouching,
            Stance::Airborne { crouching } => crouching,
            Stance::Floating { .. } => false,
        },
        stance is Floating && !intent.jumping ==> apply_spec(stance, intent, clear_sweep) == stance,
{
}

/// Intent law: jumping from the ground always leaves it, and staying on the
/// ground keeps the surface; floating starts only from the air; jumping while
/// floating drops into the air crouched. On the ground or in the air the actor
/// ends up crouching exactly when it wants to, or when it was crouching and has
/// no room to stand.
pub proof fn lemma_intent<N>(stance: Stance<N>, intent: IntentFlags, clear_sweep: bool)
    ensures
        (stance is Grounded && intent.jumping) ==> (apply_spec(stance, intent, clear_sweep) is Airborne),
        stance matches Stance::Grounded { normal, .. } ==> (!intent.jumping
            ==> (apply_spec(stance, intent, clear_sweep) matches Stance::Grounded { normal: n2, .. } && n2 == normal)),
        (stance is Airborne) ==> ((apply_spec(stance, intent, clear_sweep) is Floating) == intent.float),
        (stance is Airborne && !intent.float) ==> (apply_spec(stance, intent, clear_sweep) is Airborne),
        (stance is Airborne && intent.float) ==> apply_spec(stance, intent, clear_sweep) == (Stance::<N>::Floating { normal: None }),
        (stance is Grounded) ==> !(apply_spec(stance, intent, clear_sweep) is Floating),
        (stance is Floating && intent.jumping) ==> apply_spec(stance, intent, clear_sweep) == (Stance::<N>::Airborne { crouching: true }),
        stance matches Stance::Grounded { crouching: old_c, .. } ==> (apply_spec(stance, intent, clear_sweep)
            matches Stance::Grounded { crouching: c, .. } ==> c == (intent.crouching || (old_c && !clear_sweep))),
        stance matches Stance::Grounded { crouching: old_c, .. } ==> (apply_spec(stance, intent, clear_sweep)
            matches Stance::Airborne { crouching: c } ==> c == (intent.crouching || (old_c && !clear_sweep))),
        stance matches Stance::Airborne { crouching: old_c } ==> (apply_spec(stance, intent, clear_sweep)
            matches Stance::Airborne { crouching: c } ==> c == (intent.crouching || (old_c && !clear_sweep))),
{
}

} // verus!
