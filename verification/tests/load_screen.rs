use hallways::game::effect::menu::load::{level_start, message_segment_push, result_message_create, update, Outcome};
use hallways::game::effect::Music;
use hallways::game::state::actor::{Actor, IntentFlags, Stance};
use hallways::game::state::keyboard::Keys;
use hallways::game::state::menu::load::Load;
use hallways::game::state::scene::Kind;
use hallways::level::cache::CacheEntry;
use hallways::level::error::LoadError;
use hallways::level::manifest::LoadError as ManifestError;
use hallways::sprite::text::Character;
use hallways::util::color::Color;

fn keys() -> Keys {
    Keys { up: false, down: false, escape: false, enter: false, backspace: false, tab: false, typed: Vec::new() }
}

fn text(chars: &[Character]) -> String {
    chars.iter().map(|c| c.c).collect()
}

#[test]
fn load_state_lifecycle() {
    let mut l = Load::new();
    assert!(!l.started_result());
    assert!(l.result_message().is_empty());
    l.start_result(vec![Character::new('a', true, Color::Red)]);
    assert!(l.started_result());
    assert_eq!(l.result_message(), &[Character::new('a', true, Color::Red)]);
    assert!(l.result_start_time().is_some());
    l.clear();
    assert!(!l.started_result());
    assert!(l.result_message().is_empty());
}

#[test]
fn segments_are_styled() {
    let mut m = vec![Character::new('x', false, Color::White)];
    message_segment_push(&mut m, "ok", Color::Green, true);
    assert_eq!(m, vec![
        Character::new('x', false, Color::White),
        Character::new('o', true, Color::Green),
        Character::new('k', true, Color::Green),
    ]);
}

#[test]
fn success_message() {
    let m = result_message_create(&CacheEntry::<()>::Ready(()));
    assert_eq!(text(&m), "Load SUCCEEDED. Press ENTER to start!");
    assert_eq!(m[5], Character::new('S', true, Color::Green));
    assert_eq!(m[0], Character::new('L', false, Color::White));
    assert_eq!(m[23], Character::new('N', true, Color::LightBlue));
}

#[test]
fn failure_message() {
    let entry = CacheEntry::<()>::Failed(LoadError::Manifest(ManifestError::TooManyPortals));
    let m = result_message_create(&entry);
    assert_eq!(
        text(&m),
        "Load FAILED. Press ESCAPE to go back. Error: failed to parse level manifest: too many portals"
    );
    assert_eq!(m[5], Character::new('F', true, Color::Red));
    assert_eq!(m[m.len() - 1], Character::new('s', false, Color::Red));
}

#[test]
fn load_screen_steps() {
    let mut l = Load::new();
    let k = keys();
    assert_eq!(update::<()>(Kind::MenuVisit, false, &mut l, &k, true, None), None);
    assert_eq!(update::<()>(Kind::MenuLoad, true, &mut l, &k, true, None), Some(Outcome::Show { result: false }));
    assert!(!l.started_result());
    let failed = CacheEntry::<()>::Failed(LoadError::Track("bad".to_string()));
    assert_eq!(update(Kind::MenuLoad, false, &mut l, &k, true, Some(&failed)), Some(Outcome::Show { result: true }));
    assert!(l.started_result());
    let first = text(l.result_message());
    assert!(first.ends_with("failed to load level track: decode error (bad)"));
    let ready = CacheEntry::Ready(());
    let mut enter = keys();
    enter.enter = true;
    assert_eq!(update(Kind::MenuLoad, false, &mut l, &enter, true, Some(&ready)), Some(Outcome::Start));
    assert_eq!(text(l.result_message()), first);
    assert_eq!(update(Kind::MenuLoad, true, &mut l, &enter, true, Some(&ready)), Some(Outcome::Start));
    assert_eq!(text(l.result_message()), "Load SUCCEEDED. Press ENTER to start!");
    let mut esc = keys();
    esc.escape = true;
    assert_eq!(update(Kind::MenuLoad, false, &mut l, &esc, true, Some(&ready)), Some(Outcome::Back));
    assert_eq!(update(Kind::MenuLoad, false, &mut l, &enter, false, Some(&ready)), Some(Outcome::Show { result: false }));
}

#[test]
fn starting_a_level() {
    let mut actor: Actor<u32> = Actor {
        stance: Stance::Floating { normal: Some(3) },
        intent: IntentFlags { crouching: false, jumping: true, float: true },
        level_url: None,
    };
    let mut debug_visible = true;
    let start = level_start(&mut actor, &mut debug_visible, true);
    assert_eq!(start.scene, Kind::Simulation);
    assert_eq!(start.music, Music::FadeIn);
    assert!(!debug_visible);
    assert!(matches!(actor.stance, Stance::Airborne { crouching: false }));
    assert_eq!(actor.intent, IntentFlags { crouching: false, jumping: true, float: false });
    assert!(actor.level_url.is_none());
    let start = level_start(&mut actor, &mut debug_visible, false);
    assert_eq!(start.music, Music::FadeOut);
}

#[test]
fn load_screen_keeps_its_start_time_outside() {
    let mut load = Load::new();
    let t = load.start_time();
    assert!(update::<()>(Kind::MenuHome, true, &mut load, &keys(), true, None).is_none());
    assert_eq!(load.start_time(), t);
    assert!(update::<()>(Kind::MenuLoad, false, &mut load, &keys(), true, None).is_some());
    assert_eq!(load.start_time(), t);
}

#[test]
fn result_start_time_is_kept_while_showing() {
    let mut l = Load::new();
    assert!(l.result_start_time().is_none());
    let failed = CacheEntry::<()>::Failed(LoadError::Track("bad".to_string()));
    update(Kind::MenuLoad, false, &mut l, &keys(), true, Some(&failed));
    let shown = l.result_start_time().unwrap();
    update(Kind::MenuLoad, false, &mut l, &keys(), true, Some(&failed));
    assert_eq!(l.result_start_time(), Some(shown));
    update(Kind::MenuHome, true, &mut l, &keys(), true, Some(&failed));
    assert_eq!(l.result_start_time(), Some(shown));
    l.clear();
    assert!(l.result_start_time().is_none());
}
