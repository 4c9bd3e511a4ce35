use hallways::game::effect::debug::{log_level_color, log_level_name, update, write_characters, write_log};
use hallways::game::effect::menu::intro;
use hallways::game::state::keyboard::Keys;
use hallways::game::state::scene::Kind;
use hallways::gltf::{material_names, push_offset_indices, select_scene, Error as GltfError};
use hallways::gpu::bind_group::texture_bucket;
use hallways::gpu::buffer::index::Index;
use hallways::gpu::buffer::vertex::level::{Level, WriteError as LevelWriteError};
use hallways::gpu::buffer::vertex::overlay::{Overlay, WriteError};
use hallways::level::portal::geometry::{kinds_match, DecodeError, Kind as PortalKind};
use hallways::level::portal::{resolve_target, LoadError as PortalError};
use hallways::level::manifest::Target;
use hallways::sprite::text::Character;
use hallways::util::color::Color;
use hallways::util::log::{Level as LogLevel, Message};
use hallways::util::strings::{push_decimal, str_eq};
use hallways::util::url::LevelUrl;

fn keys() -> Keys {
    Keys { up: false, down: false, escape: false, enter: false, backspace: false, tab: false, typed: Vec::new() }
}

#[test]
fn log_lines() {
    assert_eq!(log_level_name(LogLevel::Debug), "debg");
    assert_eq!(log_level_name(LogLevel::Info), "info");
    assert_eq!(log_level_name(LogLevel::Error), "erro");
    assert_eq!(log_level_color(LogLevel::Error), Color::Red);
    assert_eq!(log_level_color(LogLevel::Info), Color::Green);
    assert_eq!(log_level_color(LogLevel::Debug), Color::LightBlue);
    let line = write_log(&Message { level: LogLevel::Info, message: "hi".to_string() });
    let text: String = line.iter().map(|c| c.c).collect();
    assert_eq!(text, "[info] hi");
    assert_eq!(line[1], Character::new('i', true, Color::Green));
    assert_eq!(line[0], Character::new('[', false, Color::White));
    let mut chars = Vec::new();
    write_characters(&mut chars, "ab", true, Color::Black);
    assert_eq!(chars, vec![Character::new('a', true, Color::Black), Character::new('b', true, Color::Black)]);
}

#[test]
fn debug_console_toggles_in_level() {
    let mut visible = false;
    let mut pending: Vec<Message> = Vec::new();
    let mut lines: Vec<Vec<Character>> = Vec::new();
    let mut k = keys();
    k.tab = true;
    assert!(!update(Kind::MenuHome, &k, &mut visible, &mut pending, &mut lines));
    assert!(!visible);
    assert!(update(Kind::Simulation, &k, &mut visible, &mut pending, &mut lines));
    assert!(!update(Kind::Simulation, &k, &mut visible, &mut pending, &mut lines));
    assert!(!update(Kind::Simulation, &keys(), &mut visible, &mut pending, &mut lines));
    assert!(lines.is_empty());
}

#[test]
fn debug_console_takes_pending_log_lines_in_order() {
    let mut visible = false;
    let mut pending = vec![
        Message { level: LogLevel::Info, message: "one".to_string() },
        Message { level: LogLevel::Error, message: "two".to_string() },
    ];
    let mut lines: Vec<Vec<Character>> = vec![Vec::new()];
    assert!(!update(Kind::MenuHome, &keys(), &mut visible, &mut pending, &mut lines));
    assert!(pending.is_empty());
    assert_eq!(lines.len(), 3);
    assert!(lines[0].is_empty());
    let text = |l: &Vec<Character>| l.iter().map(|c| c.c).collect::<String>();
    assert_eq!(text(&lines[1]), "[info] one");
    assert_eq!(text(&lines[2]), "[erro] two");
    assert_eq!(lines[2][1].color, Color::Red);
    assert!(lines[2][1].bold);
}

#[test]
fn intro_steps() {
    let mut played = false;
    let o = intro::update(Kind::Intro, false, true, &keys(), &mut played).unwrap();
    assert!(o.play_jingle && played && o.scene.is_none());
    let o = intro::update(Kind::Intro, true, true, &keys(), &mut played).unwrap();
    assert!(!o.play_jingle);
    assert_eq!(o.scene, Some(Kind::MenuHome));
    assert!(intro::update(Kind::MenuHome, true, true, &keys(), &mut played).is_none());
}

#[test]
fn strings_and_numbers() {
    let mut s = String::from("n=");
    push_decimal(&mut s, 0);
    push_decimal(&mut s, 4096);
    assert_eq!(s, "n=04096");
    let mut s = String::new();
    push_decimal(&mut s, u32::MAX);
    assert_eq!(s, "4294967295");
    assert!(str_eq("héllo", "héllo"));
    assert!(!str_eq("a", "ab"));
}

#[test]
fn gltf_helpers() {
    assert_eq!(select_scene(0), Err(GltfError::NoScene));
    assert_eq!(select_scene(1), Ok(0));
    assert_eq!(select_scene(2), Err(GltfError::MultipleScenes));
    let mut idx = vec![0, 1];
    push_offset_indices(&mut idx, &[0, 2, 1], 3);
    assert_eq!(idx, vec![0, 1, 3, 5, 4]);
    assert_eq!(material_names(vec![Some("a".to_string()), Some("b".to_string())]), Ok(vec!["a".to_string(), "b".to_string()]));
    assert_eq!(material_names(vec![Some("a".to_string()), None]), Err(GltfError::MaterialUnnamed));
    assert_eq!(GltfError::MeshNotIndexed.debug_name(), "MeshNotIndexed");
}

#[test]
fn buffers() {
    let mut o = Overlay::create(3);
    assert!(o.write(3).is_ok());
    assert_eq!(o.vertex_count(), 3);
    assert_eq!(o.write(4), Err(WriteError::CapacityExceeded));
    assert_eq!(o.vertex_count(), 3);
    let l = Level::create(2);
    assert_eq!(l.write(3), Err(LevelWriteError::CapacityExceeded));
    let mut i = Index::create();
    assert_eq!(i.range(), (0, 0));
    i.upload(6);
    assert_eq!(i.range(), (0, 6));
    let b = texture_bucket(3);
    assert_eq!((b.width, b.height, b.layers), (256, 256, 32));
}

#[test]
fn portals() {
    assert!(kinds_match(PortalKind::Horizontal, PortalKind::Horizontal, false));
    assert!(kinds_match(PortalKind::Vertical, PortalKind::Vertical, true));
    assert!(!kinds_match(PortalKind::Vertical, PortalKind::Vertical, false));
    assert!(!kinds_match(PortalKind::Horizontal, PortalKind::Vertical, true));
    assert_eq!(DecodeError::NotCoplanar.debug_name(), "NotCoplanar");
    let base = LevelUrl::parse("https://example.com/a/level.json").unwrap();
    assert!(matches!(resolve_target(&base, None), Ok(None)));
    let t = Target { href: "../b/".to_string(), name: "door".to_string() };
    let r = resolve_target(&base, Some(&t)).unwrap().unwrap();
    assert_eq!(r.url.as_str(), "https://example.com/b/");
    assert_eq!(r.name, "door");
    let t = Target { href: "http://[".to_string(), name: "door".to_string() };
    assert!(matches!(resolve_target(&base, Some(&t)), Err(PortalError::UrlJoin(_))));
}
