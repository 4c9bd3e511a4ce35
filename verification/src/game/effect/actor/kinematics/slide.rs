use vstd::prelude::*;
use crate::game::state::actor::Stance;

verus! {

/// The probe that settles the stance after the actor has moved.
#[derive(Clone, Copy, Debug, PartialEq, Eq, Structural)]
pub enum Probe {
    /// A short sweep down, to land.
    GroundCheck,
    /// A longer sweep down, to stay on the ground.
    GroundSnap,
    /// A short sweep along the intended direction, to find a surface to float against.
    AlongIntent,
}

pub open spec fn probe_spec<N>(stance: Stance<N>) -> Probe {
    match stance {
        Stance::Airborne { .. } => Probe::GroundCheck,
        Stance::Grounded { .. } => Probe::GroundSnap,
        Stance::Floating { .. } => Probe::AlongIntent,
    }
}

/// The probe for the stance the actor had before moving.
pub fn settle_probe<N>(start_stance: &Stance<N>) -> (res: Probe)
    ensures
        res == probe_spec(*start_stance),
{
    match start_stance {
        Stance::Airborne { .. } => Probe::GroundCheck,
        Stance::Grounded { .. } => Probe::GroundSnap,
        Stance::Floating { .. } => Probe::AlongIntent,
    }
}

/// What the probe hit: the surface's unit normal, whether it is a floor
/// (steep enough upward) and whether it is a ceiling (steep enough downward).
#[derive(Clone, Copy, Debug)]
pub struct Contact<N> {
    pub normal: N,
    pub floor: bool,
    pub ceiling: bool,
}

/// The stance after moving, and whether the actor snaps down onto the floor.
/// From the air, a floor lands the actor; on the ground, a floor keeps it there
/// and anything else makes it airborne; floating, a floor or ceiling becomes
/// the surface floated against, anything else leaves it floating freely.
/// Crouching is kept.
pub open spec fn settle_spec<N>(start_stance: Stance<N>, contact: Option<Contact<N>>) -> (Stance<N>, bool) {
    match start_stance {
        Stance::Airborne { crouching } => match contact {
            Some(c) => if c.floor {
                (Stance::Grounded { normal: c.normal, crouching: crouching }, true)
            } else {
                (Stance::Airborne { crouching: crouching }, false)
            },
            None => (Stance::Airborne { crouching: crouching }, false),
        },
        Stance::Grounded { crouching, .. } => match contact {
            Some(c) => if c.floor {
                (Stance::Grounded { normal: c.normal, crouching: crouching }, true)
            } else {
                (Stance::Airborne { crouching: crouching }, false)
            },
            None => (Stance::Airborne { crouching: crouching }, false),
        },
        Stance::Floating { .. } => match contact {
            Some(c) => if c.floor || c.ceiling {
                (Stance::Floating { normal: Some(c.normal) }, false)
            } else {
                (Stance::Floating { normal: None }, false)
            },
            None => (Stance::Floating { normal: None }, false),
        },
    }
}

pub fn settle<N: Copy>(start_stance: Stance<N>, contact: Option<Contact<N>>) -> (res: (Stance<N>, bool))
    ensures
        res == settle_spec(start_stance, contact),
{
    match start_stance {
        Stance::Airborne { crouching } => match contact {
            Some(c) => if c.floor {
                (Stance::Grounded { normal: c.normal, crouching }, true)
            } else {
                (Stance::Airborne { crouching }, false)
            },
            None => (Stance::Airborne { crouching }, false),
        },
        Stance::Grounded { crouching, .. } => match contact {
            Some(c) => if c.floor {
                (Stance::Grounded { normal: c.normal, crouching }, true)
            } else {
                (Stance::Airborne { crouching }, false)
            },
            None => (Stance::Airborne { crouching }, false),
        },
        Stance::Floating { .. } => match contact {
            Some(c) => if c.floor || c.ceiling {
                (Stance::Floating { normal: Some(c.normal) }, false)
            } else {
                (Stance::Floating { normal: None }, false)
            },
            None => (Stance::Floating { normal: None }, false),
        },
    }
}

/// Settling law: the actor snaps down exactly when it ends up on the ground,
/// and a floating actor always stays floating. An actor on the ground or in
/// the air that finds a floor is on the ground afterwards, on that floor's
/// normal, and snaps to it; without a floor it is in the air afterwards. Either
/// way it keeps crouching as it was. A floating actor floats against a floor or
/// ceiling it finds, and freely otherwise.
pub proof fn lemma_settle<N>(start_stance: Stance<N>, contact: Option<Contact<N>>)
    ensures
        settle_spec(start_stance, contact).1 <==> settle_spec(start_stance, contact).0 is Grounded,
        start_stance is Floating ==> settle_spec(start_stance, contact).0 is Floating,
        start_stance matches Stance::Grounded { crouching, .. } ==> (contact matches Some(c)
            ==> (c.floor ==> settle_spec(start_stance, contact) == (Stance::Grounded { normal: c.normal, crouching }, true))),
        start_stance matches Stance::Airborne { crouching } ==> (contact matches Some(c)
            ==> (c.floor ==> settle_spec(start_stance, contact) == (Stance::Grounded { normal: c.normal, crouching }, true))),
        start_stance matches Stance::Grounded { crouching, .. } ==> (!(contact matches Some(c) && c.floor)
            ==> settle_spec(start_stance, contact) == (Stance::<N>::Airborne { crouching }, false)),
        start_stance matches Stance::Airborne { crouching } ==> (!(contact matches Some(c) && c.floor)
            ==> settle_spec(start_stance, contact) == (Stance::<N>::Airborne { crouching }, false)),
        start_stance is Floating ==> (contact matches Some(c)
            ==> ((c.floor || c.ceiling) ==> settle_spec(start_stance, contact) == (Stance::Floating { normal: Some(c.normal) }, false))),
        start_stance is Floating ==> (!(contact matches Some(c) && (c.floor || c.ceiling))
            ==> settle_spec(start_stance, contact) == (Stance::<N>::Floating { normal: None }, false)),
{
}

} // verus!
