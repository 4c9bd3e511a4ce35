use vstd::prelude::*;
use crate::game::state::keyboard::Keys;
use crate::game::state::scene::Kind;

verus! {

/// What one step of the intro asks of the game: a scene to switch to and
/// whether to play the jingle from its start.
#[derive(Clone, Copy, Debug, PartialEq, Eq, Structural)]
pub struct Outcome {
    pub scene: Option<Kind>,
    pub play_jingle: bool,
}

/// One step of the intro. Outside the intro it does nothing and returns
/// `None`. The intro ends (to the home menu) when its animation is over
/// (`finished`) or escape or enter is pressed; the jingle plays once, the
/// first step at which the animation has reached its start (`jingle_due`).
pub fn update(scene: Kind, finished: bool, jingle_due: bool, keyboard: &Keys, jingle_played: &mut bool) -> (res: Option<Outcome>)
    ensures
        scene != Kind::Intro ==> res is None && *final(jingle_played) == *old(jingle_played),
        scene == Kind::Intro ==> res == Some(Outcome {
            scene: if finished || keyboard.escape || keyboard.enter { Some(Kind::MenuHome) } else { None },
            play_jingle: !*old(jingle_played) && jingle_due,
        }) && *final(jingle_played) == (*old(jingle_played) || jingle_due),
{
    if scene != Kind::Intro {
        return None;
    }
    let mut outcome = Outcome { scene: None, play_jingle: false };
    if finished {
        outcome.scene = Some(Kind::MenuHome);
    }
    if keyboard.escape || keyboard.enter {
        outcome.scene = Some(Kind::MenuHome);
    }
    if !*jingle_played && jingle_due {
        outcome.play_jingle = true;
        *jingle_played = true;
    }
    Some(outcome)
}

} // verus!
