use hallways::game::effect::menu::pause::{self as pause_effect, Outcome};
use hallways::game::effect::Sound;
use hallways::game::state::keyboard::Keys;
use hallways::game::state::menu::home::{self, Home};
use hallways::game::state::menu::pause::{self, Pause};
use hallways::game::state::menu::{step_down, step_up};
use hallways::game::state::scene::Kind;

fn keys() -> Keys {
    Keys { up: false, down: false, escape: false, enter: false, backspace: false, tab: false, typed: Vec::new() }
}

#[test]
fn home_item_names() {
    assert_eq!(home::Item::Visit.name(), "VISIT");
    assert_eq!(home::Item::Settings.name(), "SETTINGS");
    assert_eq!(home::Item::Quit.name(), "QUIT");
    assert_eq!(home::Item::from_index(1), Some(home::Item::Settings));
    assert_eq!(home::Item::from_index(3), None);
}

#[test]
fn pause_item_names() {
    assert_eq!(pause::Item::Cancel.name(), "CANCEL");
    assert_eq!(pause::Item::Exit.name(), "EXIT");
    assert_eq!(pause::Item::from_index(0), Some(pause::Item::Cancel));
    assert_eq!(pause::Item::from_index(2), None);
}

#[test]
fn home_and_pause_start_on_first_entry() {
    let mut h = Home::new();
    assert_eq!(h.selected, 0);
    h.selected = 2;
    h.clear();
    assert_eq!(h.selected, 0);
    let mut p = Pause::new();
    assert_eq!(p.selected, 0);
    p.selected = 1;
    p.clear();
    assert_eq!(p.selected, 0);
}

#[test]
fn navigation_wraps_around() {
    assert_eq!(step_up(0, 3), 2);
    assert_eq!(step_up(2, 3), 1);
    assert_eq!(step_down(2, 3), 0);
    assert_eq!(step_down(0, 3), 1);
    assert_eq!(step_down(step_up(1, 3), 3), 1);
    assert_eq!(step_up(7, 3), 0);
    assert_eq!(step_up(usize::MAX, usize::MAX), usize::MAX - 1);
    assert_eq!(step_down(usize::MAX - 1, usize::MAX), 0);
    assert_eq!(step_up(0, usize::MAX), usize::MAX - 1);
}

#[test]
fn pause_outside_its_scene_does_nothing() {
    let mut p = Pause::new();
    p.selected = 1;
    let mut k = keys();
    k.up = true;
    assert_eq!(pause_effect::update(Kind::Simulation, false, &mut p, &k), None);
    assert_eq!(p.selected, 1);
}

#[test]
fn pause_moves_and_chooses() {
    let mut p = Pause::new();
    let mut k = keys();
    k.up = true;
    let o = pause_effect::update(Kind::MenuPause, false, &mut p, &k).unwrap();
    assert_eq!(p.selected, 1);
    assert_eq!(o, Outcome { scene: None, sound: Some(Sound::Move), fade_out: false });
    let mut k = keys();
    k.enter = true;
    let o = pause_effect::update(Kind::MenuPause, false, &mut p, &k).unwrap();
    assert_eq!(o, Outcome { scene: Some(Kind::MenuVisit), sound: Some(Sound::Select), fade_out: true });
    let o = pause_effect::update(Kind::MenuPause, true, &mut p, &k).unwrap();
    assert_eq!(p.selected, 0);
    assert_eq!(o, Outcome { scene: Some(Kind::Simulation), sound: Some(Sound::Select), fade_out: false });
}

#[test]
fn pause_escape_resumes() {
    let mut p = Pause::new();
    let mut k = keys();
    k.escape = true;
    k.enter = true;
    let o = pause_effect::update(Kind::MenuPause, false, &mut p, &k).unwrap();
    assert_eq!(o, Outcome { scene: Some(Kind::Simulation), sound: Some(Sound::Move), fade_out: false });
    let mut k = keys();
    k.down = true;
    let o = pause_effect::update(Kind::MenuPause, false, &mut p, &k).unwrap();
    assert_eq!(p.selected, 1);
    assert_eq!(o.sound, Some(Sound::Move));
    let o = pause_effect::update(Kind::MenuPause, false, &mut p, &keys()).unwrap();
    assert_eq!(o, Outcome { scene: None, sound: None, fade_out: false });
}

#[test]
fn pause_select_item() {
    assert_eq!(
        pause_effect::select_item(pause::Item::Cancel),
        Outcome { scene: Some(Kind::Simulation), sound: Some(Sound::Select), fade_out: false }
    );
}
