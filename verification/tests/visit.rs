use hallways::game::effect::menu::visit::{item_state, update, State};
use hallways::game::effect::{Music, Sound};
use hallways::game::state::actor::{Actor, IntentFlags, Stance};
use hallways::game::state::keyboard::Keys;
use hallways::game::state::menu::visit::{Item, Visit};
use hallways::game::state::scene::Kind;
use hallways::util::url::LevelUrl;

fn keys() -> Keys {
    Keys { up: false, down: false, escape: false, enter: false, backspace: false, tab: false, typed: Vec::new() }
}

fn actor() -> Actor<u32> {
    Actor {
        stance: Stance::Grounded { normal: 7, crouching: true },
        intent: IntentFlags { crouching: true, jumping: false, float: true },
        level_url: None,
    }
}

fn visit() -> Visit {
    Visit::new(&LevelUrl::parse("https://example.com/level/").unwrap())
}

#[test]
fn visit_item_names() {
    assert_eq!(Item::LevelUrl.name(), "LEVEL URL");
    assert_eq!(Item::Visit.name(), "VISIT");
    assert_eq!(Item::GoBack.name(), "BACK");
}

#[test]
fn new_menu_shows_default_url() {
    let v = visit();
    assert_eq!(v.hovered, 0);
    assert!(!v.selected);
    let url = v.level_url();
    assert_eq!(url.text, "https://example.com/level/");
    assert_eq!(url.value.unwrap().as_str(), "https://example.com/level/");
}

#[test]
fn editing_the_url_reparses_it() {
    let mut v = visit();
    let mut a = actor();
    v.level_url_pop();
    assert_eq!(v.level_url().text, "https://example.com/level");
    v.level_url_push('s');
    assert_eq!(v.level_url().text, "https://example.com/levels");
    assert_eq!(v.level_url().value.unwrap().as_str(), "https://example.com/levels");
    for _ in 0.."https://example.com/levels".len() {
        v.level_url_pop();
    }
    assert_eq!(v.level_url().text, "");
    assert!(v.level_url().value.is_none());
    v.level_url_pop();
    assert_eq!(v.level_url().text, "");
}

#[test]
fn choosing_visit_starts_loading() {
    let mut v = visit();
    let mut a = actor();
    let mut k = keys();
    k.down = true;
    let o = update(Kind::MenuVisit, true, &mut v, &mut a, &k).unwrap();
    assert!(o.clear_level);
    assert_eq!(v.hovered, 1);
    assert_eq!(o.sound, Some(Sound::Move));
    let mut k = keys();
    k.enter = true;
    let o = update(Kind::MenuVisit, false, &mut v, &mut a, &k).unwrap();
    assert_eq!(o.scene, Some(Kind::MenuLoad));
    assert_eq!(o.sound, Some(Sound::Select));
    assert_eq!(o.visit.unwrap().as_str(), "https://example.com/level/");
    assert!(!o.clear_level);
    assert_eq!(o.music, Some(Music::FadeOut));
    assert!(matches!(a.stance, Stance::Airborne { crouching: false }));
    assert_eq!(a.intent, IntentFlags { crouching: true, jumping: false, float: false });
    assert_eq!(a.level_url.as_ref().unwrap().as_str(), "https://example.com/level/");
}

#[test]
fn editing_through_the_menu() {
    let mut v = visit();
    let mut a = actor();
    let mut k = keys();
    k.enter = true;
    let o = update(Kind::MenuVisit, false, &mut v, &mut a, &k).unwrap();
    assert!(v.selected);
    assert_eq!(o.active_item, None);
    assert_eq!(o.scene, None);
    let mut k = keys();
    k.backspace = true;
    k.typed = vec!['2', 'x'];
    k.up = true;
    let o = update(Kind::MenuVisit, false, &mut v, &mut a, &k).unwrap();
    assert_eq!(o.active_item, Some(Item::LevelUrl));
    assert_eq!(v.hovered, 0);
    assert_eq!(v.level_url().text, "https://example.com/level2x");
    assert_eq!(o.sound, None);
    assert_eq!(item_state(&v, Item::LevelUrl, o.active_item), State::Selected);
    assert_eq!(item_state(&v, Item::Visit, o.active_item), State::Unselected);
    let mut k = keys();
    k.escape = true;
    let o = update(Kind::MenuVisit, false, &mut v, &mut a, &k).unwrap();
    assert!(!v.selected);
    assert_eq!(o.sound, Some(Sound::Move));
    assert_eq!(o.scene, None);
}

#[test]
fn visit_is_disabled_without_a_url() {
    let mut v = visit();
    let mut a = actor();
    v.level_url = String::new();
    v.level_url_push(':');
    assert!(v.level_url().value.is_none());
    assert_eq!(item_state(&v, Item::Visit, None), State::Disabled);
    v.hovered = 1;
    let mut k = keys();
    k.enter = true;
    let o = update(Kind::MenuVisit, false, &mut v, &mut a, &k).unwrap();
    assert_eq!(o.scene, None);
    assert!(o.visit.is_none());
    assert_eq!(o.music, None);
    assert!(a.level_url.is_none());
    assert!(a.intent.float);
    v.hovered = 2;
    let o = update(Kind::MenuVisit, false, &mut v, &mut a, &k).unwrap();
    assert_eq!(o.scene, Some(Kind::MenuHome));
}

#[test]
fn visit_menu_escape_and_other_scenes() {
    let mut v = visit();
    let mut a = actor();
    let mut k = keys();
    k.escape = true;
    let o = update(Kind::MenuVisit, false, &mut v, &mut a, &k).unwrap();
    assert_eq!(o.scene, Some(Kind::MenuHome));
    assert!(update(Kind::MenuLoad, false, &mut v, &mut a, &k).is_none());
    v.selected = true;
    v.hovered = 2;
    v.clear();
    assert_eq!(v.hovered, 0);
    assert!(!v.selected);
}
