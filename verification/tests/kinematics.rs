use hallways::game::effect::actor::kinematics::acceleration::{jump_intended, velocity_plane, Plane};
use hallways::game::effect::actor::kinematics::intent::{apply, shifts_up, stand_sweep, StandSweep};
use hallways::game::effect::actor::kinematics::slide::{settle, settle_probe, Contact, Probe};
use hallways::game::effect::actor::kinematics::update;
use hallways::game::effect::cursor;
use hallways::game::state::actor::{IntentFlags, Stance};
use hallways::game::state::scene::Kind;

type S = Stance<(i32, i32, i32)>;
const UP: (i32, i32, i32) = (0, 1, 0);

fn intent(crouching: bool, jumping: bool, float: bool) -> IntentFlags {
    IntentFlags { crouching, jumping, float }
}

#[test]
fn kinematics_only_run_in_a_level() {
    assert!(update(Kind::Simulation, true));
    assert!(!update(Kind::Simulation, false));
    assert!(!update(Kind::MenuPause, true));
}

#[test]
fn cursor_follows_scene_changes() {
    assert_eq!(cursor::update(Kind::Simulation, true), Some(true));
    assert_eq!(cursor::update(Kind::MenuHome, true), Some(false));
    assert_eq!(cursor::update(Kind::Simulation, false), None);
}

#[test]
fn intent_changes_stance() {
    let g: S = Stance::Grounded { normal: UP, crouching: true };
    assert!(matches!(apply(g, intent(false, false, false), false), Stance::Grounded { crouching: true, .. }));
    assert!(matches!(apply(g, intent(false, false, false), true), Stance::Grounded { crouching: false, .. }));
    assert!(matches!(apply(g, intent(false, true, false), true), Stance::Airborne { crouching: false }));
    let a: S = Stance::Airborne { crouching: false };
    assert!(matches!(apply(a, intent(false, false, true), true), Stance::Floating { normal: None }));
    assert!(matches!(apply(a, intent(true, false, false), true), Stance::Airborne { crouching: true }));
    let f: S = Stance::Floating { normal: Some(UP) };
    assert!(matches!(apply(f, intent(false, true, false), true), Stance::Airborne { crouching: true }));
    assert!(matches!(apply(f, intent(true, false, true), true), Stance::Floating { normal: Some(UP) }));
    assert_eq!(stand_sweep(&g), Some(StandSweep::Up));
    assert_eq!(stand_sweep(&a), Some(StandSweep::Down));
    assert_eq!(stand_sweep(&f), None);
    assert!(shifts_up(&g));
    assert!(!shifts_up(&a));
}

#[test]
fn jumps_start_on_takeoff() {
    let g: S = Stance::Grounded { normal: UP, crouching: false };
    let a: S = Stance::Airborne { crouching: false };
    assert!(jump_intended(&a, intent(false, true, false), &g));
    assert!(!jump_intended(&a, intent(false, false, false), &g));
    assert!(!jump_intended(&a, intent(false, true, false), &a));
    assert!(!jump_intended(&g, intent(false, true, false), &g));
}

#[test]
fn velocity_planes() {
    let g: S = Stance::Grounded { normal: UP, crouching: false };
    assert!(matches!(velocity_plane(&g), Plane::Surface(UP)));
    let a: S = Stance::Airborne { crouching: true };
    assert!(matches!(velocity_plane(&a), Plane::Horizontal));
    let f: S = Stance::Floating { normal: None };
    assert!(matches!(velocity_plane(&f), Plane::View));
}

#[test]
fn settling_after_a_move() {
    let floor = Contact { normal: (0, 1, 0), floor: true, ceiling: false };
    let wall = Contact { normal: (1, 0, 0), floor: false, ceiling: false };
    let ceiling = Contact { normal: (0, -1, 0), floor: false, ceiling: true };
    let a: S = Stance::Airborne { crouching: true };
    assert_eq!(settle_probe(&a), Probe::GroundCheck);
    assert!(matches!(settle(a, Some(floor)), (Stance::Grounded { normal: (0, 1, 0), crouching: true }, true)));
    assert!(matches!(settle(a, Some(wall)), (Stance::Airborne { crouching: true }, false)));
    let g: S = Stance::Grounded { normal: UP, crouching: false };
    assert_eq!(settle_probe(&g), Probe::GroundSnap);
    assert!(matches!(settle(g, None), (Stance::Airborne { crouching: false }, false)));
    assert!(matches!(settle(g, Some(wall)), (Stance::Airborne { crouching: false }, false)));
    let f: S = Stance::Floating { normal: None };
    assert_eq!(settle_probe(&f), Probe::AlongIntent);
    assert!(matches!(settle(f, Some(ceiling)), (Stance::Floating { normal: Some((0, -1, 0)) }, false)));
    assert!(matches!(settle(f, Some(wall)), (Stance::Floating { normal: None }, false)));
}
