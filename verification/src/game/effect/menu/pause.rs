use vstd::prelude::*;
use crate::game::effect::Sound;
use crate::game::state::keyboard::Keys;
use crate::game::state::menu::{nav_down, nav_up, step_down, step_up};
use crate::game::state::menu::pause::{Item, Pause, ITEM_COUNT};
use crate::game::state::scene::Kind;

verus! {

/// What one step of the pause menu asks of the game: a scene to switch to, a
/// sound to play, and whether to fade the level's music out.
#[derive(Clone, Copy, Debug, PartialEq, Eq, Structural)]
pub struct Outcome {
    pub scene: Option<Kind>,
    pub sound: Option<Sound>,
    pub fade_out: bool,
}

/// Choosing an entry: `CANCEL` resumes the level; `EXIT` fades the music out and
/// goes back to the visit menu.
pub open spec fn select_spec(item: Item) -> Outcome {
    match item {
        Item::Cancel => Outcome { scene: Some(Kind::Simulation), sound: Some(Sound::Select), fade_out: false },
        Item::Exit => Outcome { scene: Some(Kind::MenuVisit), sound: Some(Sound::Select), fade_out: true },
    }
}

/// One step of the pause menu from the selected entry `selected` (the first
/// entry when the menu was just entered): up and down move the selection with
/// wrap-around, escape resumes the level, enter chooses the selected entry.
/// Only the first of these keys, in that order, counts.
pub open spec fn update_spec(transitioned: bool, selected: usize, keys: Keys) -> (usize, Outcome) {
    let s0: usize = if transitioned { 0 } else { selected };
    let none = Outcome { scene: None, sound: None, fade_out: false };
    if keys.up {
        (nav_up(s0 as int, ITEM_COUNT as int) as usize, Outcome { scene: None, sound: Some(Sound::Move), fade_out: false })
    } else if keys.down {
        (nav_down(s0 as int, ITEM_COUNT as int) as usize, Outcome { scene: None, sound: Some(Sound::Move), fade_out: false })
    } else if keys.escape {
        (s0, Outcome { scene: Some(Kind::Simulation), sound: Some(Sound::Move), fade_out: false })
    } else if keys.enter {
        (s0, match Item::at(s0 as int) {
            Some(item) => select_spec(item),
            None => Outcome { scene: None, sound: Some(Sound::Select), fade_out: false },
        })
    } else {
        (s0, none)
    }
}

pub fn select_item(item: Item) -> (res: Outcome)
    ensures
        res == select_spec(item),
{
    match item {
        Item::Cancel => Outcome { scene: Some(Kind::Simulation), sound: Some(Sound::Select), fade_out: false },
        Item::Exit => Outcome { scene: Some(Kind::MenuVisit), sound: Some(Sound::Select), fade_out: true },
    }
}

/// One step of the pause menu. Outside the pause menu it does nothing and
/// returns `None`; otherwise it updates the selection and returns what the
/// game should do, as `update_spec` describes (the menu is then drawn).
pub fn update(scene: Kind, transitioned: bool, state_menu_pause: &mut Pause, keyboard: &Keys) -> (res: Option<Outcome>)
    ensures
        scene != Kind::MenuPause ==> res is None && final(state_menu_pause).selected == old(state_menu_pause).selected,
        scene == Kind::MenuPause ==> res == Some(update_spec(transitioned, old(state_menu_pause).selected, *keyboard).1)
            && final(state_menu_pause).selected == update_spec(transitioned, old(state_menu_pause).selected, *keyboard).0,
{
    if scene != Kind::MenuPause {
        return None;
    }
    if transitioned {
        state_menu_pause.clear();
    }
    let mut outcome = Outcome { scene: None, sound: None, fade_out: false };
    if keyboard.up {
        state_menu_pause.selected = step_up(state_menu_pause.selected, ITEM_COUNT);
        outcome.sound = Some(Sound::Move);
    } else if keyboard.down {
        state_menu_pause.selected = step_down(state_menu_pause.selected, ITEM_COUNT);
        outcome.sound = Some(Sound::Move);
    } else if keyboard.escape {
        outcome.sound = Some(Sound::Move);
        outcome.scene = Some(Kind::Simulation);
    } else if keyboard.enter {
        outcome.sound = Some(Sound::Select);
        match Item::from_index(state_menu_pause.selected) {
            Some(item) => {
                outcome = select_item(item);
            },
            None => {},
        }
    }
    Some(outcome)
}

} // verus!
