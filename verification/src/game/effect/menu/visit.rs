use vstd::prelude::*;
use crate::game::effect::{Music, Sound};
use crate::game::state::actor::{Actor, Stance, entered_level};
use crate::game::state::keyboard::Keys;
use crate::game::state::menu::{nav_down, nav_up, step_down, step_up};
use crate::game::state::menu::visit::{Item, Visit, ITEM_COUNT, edited_text, parsed};
use crate::game::state::scene::Kind;
use crate::util::url::LevelUrl;

verus! {

/// How a menu entry is drawn.
#[derive(Clone, Copy, Debug, PartialEq, Eq, Structural)]
pub enum State {
    Unselected,
    Selected,
    Disabled,
}

/// What one step of the visit menu asks of the game.
pub struct Outcome {
    /// A scene to switch to.
    pub scene: Option<Kind>,
    /// A sound to play.
    pub sound: Option<Sound>,
    /// The menu was just entered: forget the level being visited.
    pub clear_level: bool,
    /// Start loading this level (the scene switches to the load screen).
    pub visit: Option<LevelUrl>,
    /// What the music does.
    pub music: Option<Music>,
    /// The entry being edited when the step began, if any.
    pub active_item: Option<Item>,
}

/// The scene and visit request of choosing `item` while the level URL denotes
/// `value`: the level URL entry starts editing, `VISIT` visits the URL (when it
/// parses), `BACK` returns to the home menu.
pub open spec fn select_scene(item: Item, value: Option<Seq<char>>) -> Option<Kind> {
    match item {
        Item::LevelUrl => None,
        Item::Visit => if value is Some { Some(Kind::MenuLoad) } else { None },
        Item::GoBack => Some(Kind::MenuHome),
    }
}

/// Visiting the level at `url`: the actor enters it, airborne and standing, not
/// floating (its velocity and float-jump timer are cleared beside it).
pub open spec fn visiting<N>(actor: Actor<N>, url: Seq<char>, new_actor: Actor<N>) -> bool {
    &&& entered_level(actor, new_actor)
    &&& new_actor.level_url matches Some(u) && u@ == url
}

/// Chooses an entry of the visit menu, as `select_scene` describes. Visiting a
/// level also fades the music out, puts the actor in that level
/// (`visiting`) and starts loading it.
pub fn select_item<N>(item: Item, state_menu_visit: &mut Visit, actor: &mut Actor<N>, outcome: &mut Outcome)
    ensures
        final(state_menu_visit).hovered == old(state_menu_visit).hovered,
        final(state_menu_visit).selected == (old(state_menu_visit).selected || item == Item::LevelUrl),
        final(state_menu_visit).spec_text() == old(state_menu_visit).spec_text(),
        final(state_menu_visit).spec_value() == old(state_menu_visit).spec_value(),
        final(outcome).sound == old(outcome).sound,
        final(outcome).clear_level == old(outcome).clear_level,
        final(outcome).active_item == old(outcome).active_item,
        final(outcome).scene == (match select_scene(item, old(state_menu_visit).spec_value()) {
            Some(k) => Some(k),
            None => old(outcome).scene,
        }),
        item == Item::Visit && old(state_menu_visit).spec_value() is Some
            ==> (final(outcome).visit matches Some(u) && Some(u@) == old(state_menu_visit).spec_value()),
        !(item == Item::Visit && old(state_menu_visit).spec_value() is Some)
            ==> final(outcome).visit == old(outcome).visit,
        item == Item::Visit && old(state_menu_visit).spec_value() is Some ==> final(outcome).music == Some(Music::FadeOut)
            && visiting(*old(actor), old(state_menu_visit).spec_value()->0, *final(actor)),
        !(item == Item::Visit && old(state_menu_visit).spec_value() is Some)
            ==> final(outcome).music == old(outcome).music && *final(actor) == *old(actor),
{
    match item {
        Item::LevelUrl => {
            state_menu_visit.selected = true;
        },
        Item::Visit => {
            match state_menu_visit.level_url().value {
                Some(url) => {
                    outcome.music = Some(Music::FadeOut);
                    actor.level_url = Some(url.duplicate());
                    actor.intent.float = false;
                    actor.stance = Stance::Airborne { crouching: false };
                    outcome.visit = Some(url.duplicate());
                    outcome.scene = Some(Kind::MenuLoad);
                },
                None => {},
            }
        },
        Item::GoBack => {
            outcome.scene = Some(Kind::MenuHome);
        },
    }
}

/// Handles the keys for the entry being edited: escape or enter stops editing
/// (with the move sound); otherwise, on the level URL entry, backspace removes
/// a character and the typed characters are added, and the URL is parsed again
/// after each change.
pub fn update_item(item: Item, state_menu_visit: &mut Visit, active_item: Option<Item>, keyboard: &Keys) -> (res: Option<Sound>)
    ensures
        final(state_menu_visit).hovered == old(state_menu_visit).hovered,
        active_item == Some(item) && (keyboard.escape || keyboard.enter) ==> res == Some(Sound::Move)
            && !final(state_menu_visit).selected
            && final(state_menu_visit).spec_text() == old(state_menu_visit).spec_text()
            && final(state_menu_visit).spec_value() == old(state_menu_visit).spec_value(),
        !(active_item == Some(item) && (keyboard.escape || keyboard.enter)) ==> res is None
            && final(state_menu_visit).selected == old(state_menu_visit).selected,
        active_item == Some(item) && !(keyboard.escape || keyboard.enter) && item == Item::LevelUrl ==> ({
            let text = edited_text(old(state_menu_visit).spec_text(), keyboard.backspace, keyboard.typed@);
            &&& final(state_menu_visit).spec_text() == text
            &&& final(state_menu_visit).spec_value() == if keyboard.backspace || keyboard.typed@.len() > 0 {
                parsed(text)
            } else {
                old(state_menu_visit).spec_value()
            }
        }),
        !(active_item == Some(item) && !(keyboard.escape || keyboard.enter) && item == Item::LevelUrl)
            && !(active_item == Some(item) && (keyboard.escape || keyboard.enter))
            ==> final(state_menu_visit).spec_text() == old(state_menu_visit).spec_text()
            && final(state_menu_visit).spec_value() == old(state_menu_visit).spec_value(),
{
    if active_item == Some(item) {
        if keyboard.escape || keyboard.enter {
            state_menu_visit.selected = false;
            return Some(Sound::Move);
        } else if item == Item::LevelUrl {
            let ghost text0 = state_menu_visit.spec_text();
            if keyboard.backspace {
                state_menu_visit.level_url_pop();
            }
            let ghost text1 = state_menu_visit.spec_text();
            assert(text1 == edited_text(text0, keyboard.backspace, Seq::empty()));
            let mut i: usize = 0;
            while i < keyboard.typed.len()
                invariant
                    i <= keyboard.typed@.len(),
                    state_menu_visit.spec_text() == text1 + keyboard.typed@.take(i as int),
                    state_menu_visit.hovered == old(state_menu_visit).hovered,
                    state_menu_visit.selected == old(state_menu_visit).selected,
                    i > 0 || keyboard.backspace ==> state_menu_visit.spec_value() == parsed(state_menu_visit.spec_text()),
                    i == 0 && !keyboard.backspace ==> state_menu_visit.spec_value() == old(state_menu_visit).spec_value(),
                decreases keyboard.typed@.len() - i,
            {
                state_menu_visit.level_url_push(keyboard.typed[i]);
                assert(keyboard.typed@.take(i + 1) =~= keyboard.typed@.take(i as int).push(keyboard.typed@[i as int]));
                i = i + 1;
            }
            assert(keyboard.typed@.take(keyboard.typed@.len() as int) =~= keyboard.typed@);
            assert(text1 =~= (if keyboard.backspace && text0.len() > 0 { text0.drop_last() } else { text0 }));
        }
    }
    None
}

/// How an entry is drawn: `VISIT` is disabled while the level URL does not
/// parse; the entry being edited is selected; others are unselected.
pub open spec fn item_state_spec(item: Item, editing: bool, has_value: bool) -> State {
    match item {
        Item::Visit => if !has_value { State::Disabled } else if editing { State::Selected } else { State::Unselected },
        _ => if editing { State::Selected } else { State::Unselected },
    }
}

/// How `item` is drawn, given the entry being edited when the step began.
pub fn item_state(state_menu_visit: &Visit, item: Item, active_item: Option<Item>) -> (res: State)
    ensures
        res == item_state_spec(
            item,
            state_menu_visit.selected && active_item == Some(item),
            state_menu_visit.spec_value() is Some,
        ),
{
    let active = state_menu_visit.selected && active_item == Some(item);
    match item {
        Item::Visit => {
            if state_menu_visit.level_url().value.is_none() {
                State::Disabled
            } else if active {
                State::Selected
            } else {
                State::Unselected
            }
        },
        _ => {
            if active {
                State::Selected
            } else {
                State::Unselected
            }
        },
    }
}

/// One step of the visit menu. Outside it, it does nothing and returns `None`.
/// Entering it (`transitioned`) resets it. When no entry is being edited, up
/// and down move the hovered entry with wrap-around, escape returns to the home
/// menu, enter chooses the hovered entry (`select_item`); only the first of
/// these keys counts. The entry being edited handles its keys (`update_item`).
pub fn update<N>(
    scene: Kind,
    transitioned: bool,
    state_menu_visit: &mut Visit,
    actor: &mut Actor<N>,
    keyboard: &Keys,
) -> (res: Option<Outcome>)
    ensures
        scene != Kind::MenuVisit ==> *final(actor) == *old(actor),
        scene == Kind::MenuVisit ==> ({
            let h0: usize = if transitioned { 0 } else { old(state_menu_visit).hovered };
            let sel0 = !transitioned && old(state_menu_visit).selected;
            let value0 = old(state_menu_visit).spec_value();
            let visits = !sel0 && !keyboard.up && !keyboard.down && !keyboard.escape && keyboard.enter
                && Item::at(h0 as int) == Some(Item::Visit) && value0 is Some;
            &&& visits ==> (res matches Some(o) && o.music == Some(Music::FadeOut)
                && visiting(*old(actor), value0->0, *final(actor)))
            &&& !visits ==> (res matches Some(o) && o.music is None && *final(actor) == *old(actor))
        }),
        scene != Kind::MenuVisit ==> res is None
            && final(state_menu_visit).hovered == old(state_menu_visit).hovered
            && final(state_menu_visit).selected == old(state_menu_visit).selected
            && final(state_menu_visit).spec_text() == old(state_menu_visit).spec_text()
            && final(state_menu_visit).spec_value() == old(state_menu_visit).spec_value(),
        scene == Kind::MenuVisit ==> ({
            let h0: usize = if transitioned { 0 } else { old(state_menu_visit).hovered };
            let sel0 = !transitioned && old(state_menu_visit).selected;
            let value0 = old(state_menu_visit).spec_value();
            let text0 = old(state_menu_visit).spec_text();
            let active = if sel0 { Item::at(h0 as int) } else { None };
            &&& res matches Some(o)
            &&& o.clear_level == transitioned
            &&& o.active_item == active
            &&& !sel0 ==> {
                &&& final(state_menu_visit).spec_text() == text0
                &&& final(state_menu_visit).spec_value() == value0
                &&& if keyboard.up {
                    &&& final(state_menu_visit).hovered as int == nav_up(h0 as int, ITEM_COUNT as int)
                    &&& !final(state_menu_visit).selected
                    &&& o.sound == Some(Sound::Move) && o.scene is None && o.visit is None
                } else if keyboard.down {
                    &&& final(state_menu_visit).hovered as int == nav_down(h0 as int, ITEM_COUNT as int)
                    &&& !final(state_menu_visit).selected
                    &&& o.sound == Some(Sound::Move) && o.scene is None && o.visit is None
                } else if keyboard.escape {
                    &&& final(state_menu_visit).hovered == h0
                    &&& !final(state_menu_visit).selected
                    &&& o.sound == Some(Sound::Move) && o.scene == Some(Kind::MenuHome) && o.visit is None
                } else if keyboard.enter {
                    &&& final(state_menu_visit).hovered == h0
                    &&& o.sound == Some(Sound::Select)
                    &&& match Item::at(h0 as int) {
                        Some(item) => {
                            &&& final(state_menu_visit).selected == (item == Item::LevelUrl)
                            &&& o.scene == select_scene(item, value0)
                            &&& (item == Item::Visit && value0 is Some) ==> (o.visit matches Some(u) && Some(u@) == value0)
                            &&& !(item == Item::Visit && value0 is Some) ==> o.visit is None
                        },
                        None => !final(state_menu_visit).selected && o.scene is None && o.visit is None,
                    }
                } else {
                    &&& final(state_menu_visit).hovered == h0
                    &&& !final(state_menu_visit).selected
                    &&& o.sound is None && o.scene is None && o.visit is None
                }
            }
            &&& sel0 ==> {
                &&& final(state_menu_visit).hovered == h0
                &&& o.scene is None && o.visit is None
                &&& if active is Some && (keyboard.escape || keyboard.enter) {
                    &&& o.sound == Some(Sound::Move)
                    &&& !final(state_menu_visit).selected
                    &&& final(state_menu_visit).spec_text() == text0
                    &&& final(state_menu_visit).spec_value() == value0
                } else if active == Some(Item::LevelUrl) {
                    let text = edited_text(text0, keyboard.backspace, keyboard.typed@);
                    &&& o.sound is None
                    &&& final(state_menu_visit).selected
                    &&& final(state_menu_visit).spec_text() == text
                    &&& final(state_menu_visit).spec_value() == if keyboard.backspace || keyboard.typed@.len() > 0 {
                        parsed(text)
                    } else {
                        value0
                    }
                } else {
                    &&& o.sound is None
                    &&& final(state_menu_visit).selected
                    &&& final(state_menu_visit).spec_text() == text0
                    &&& final(state_menu_visit).spec_value() == value0
                }
            }
        }),
{
    if scene != Kind::MenuVisit {
        return None;
    }
    let mut outcome = Outcome { scene: None, sound: None, clear_level: false, visit: None, music: None, active_item: None };
    if transitioned {
        state_menu_visit.clear();
        outcome.clear_level = true;
    }
    let active_item = if state_menu_visit.selected {
        Item::from_index(state_menu_visit.hovered)
    } else {
        None
    };
    outcome.active_item = active_item;
    if !state_menu_visit.selected && keyboard.up {
        state_menu_visit.hovered = step_up(state_menu_visit.hovered, ITEM_COUNT);
        outcome.sound = Some(Sound::Move);
    } else if !state_menu_visit.selected && keyboard.down {
        state_menu_visit.hovered = step_down(state_menu_visit.hovered, ITEM_COUNT);
        outcome.sound = Some(Sound::Move);
    } else if !state_menu_visit.selected && keyboard.escape {
        outcome.scene = Some(Kind::MenuHome);
        outcome.sound = Some(Sound::Move);
    } else if !state_menu_visit.selected && keyboard.enter {
        outcome.sound = Some(Sound::Select);
        match Item::from_index(state_menu_visit.hovered) {
            Some(item) => select_item(item, state_menu_visit, actor, &mut outcome),
            None => {},
        }
    }
    match active_item {
        Some(item) => {
            match update_item(item, state_menu_visit, active_item, keyboard) {
                Some(sound) => {
                    outcome.sound = Some(sound);
                },
                None => {},
            }
        },
        None => {},
    }
    Some(outcome)
}

} // verus!
