use vstd::prelude::*;
use crate::game::effect::Music;
use crate::game::state::actor::{Actor, Stance, entered_level};
use crate::game::state::keyboard::Keys;
use crate::game::state::menu::load::Load;
use crate::game::state::scene::Kind;
use crate::level::cache::CacheEntry;
use crate::level::error::load_error_text;
use crate::sprite::text::{Character, push_styled, styled};
use crate::util::color::Color;

verus! {

/// What one step of the load screen asks of the game.
#[derive(Clone, Copy, Debug, PartialEq, Eq, Structural)]
pub enum Outcome {
    /// Go back to the visit menu (playing the move sound); nothing is drawn.
    Back,
    /// Start the loaded level (`level_start`); nothing is drawn.
    Start,
    /// Draw the loading text, and the load result when `result` holds.
    Show { result: bool },
}

/// Appends `text`, one glyph per character, with the given color and weight.
pub fn message_segment_push(message: &mut Vec<Character>, text: &str, color: Color, bold: bool)
    ensures
        final(message)@ == old(message)@ + styled(text@, bold, color),
{
    push_styled(message, text, bold, color);
}

/// The message shown once a level load has finished: success with the hint to
/// press enter, or failure with the hint to press escape and the error's report.
pub open spec fn result_text<L>(cache_entry: CacheEntry<L>) -> Seq<Character> {
    match cache_entry {
        CacheEntry::Ready(_) => styled("Load "@, false, Color::White) + styled("SUCCEEDED"@, true, Color::Green)
            + styled(". Press "@, false, Color::White) + styled("ENTER"@, true, Color::LightBlue)
            + styled(" to start!"@, false, Color::White),
        CacheEntry::Failed(error) => styled("Load "@, false, Color::White) + styled("FAILED"@, true, Color::Red)
            + styled(". Press "@, false, Color::White) + styled("ESCAPE"@, true, Color::LightBlue)
            + styled(" to go back. Error: "@, false, Color::White) + styled(load_error_text(error), false, Color::Red),
    }
}

pub fn result_message_create<L>(cache_entry: &CacheEntry<L>) -> (res: Vec<Character>)
    ensures
        res@ == result_text(*cache_entry),
{
    let mut message: Vec<Character> = Vec::new();
    match cache_entry {
        CacheEntry::Ready(_) => {
            message_segment_push(&mut message, "Load ", Color::White, false);
            message_segment_push(&mut message, "SUCCEEDED", Color::Green, true);
            message_segment_push(&mut message, ". Press ", Color::White, false);
            message_segment_push(&mut message, "ENTER", Color::LightBlue, true);
            message_segment_push(&mut message, " to start!", Color::White, false);
        },
        CacheEntry::Failed(error) => {
            message_segment_push(&mut message, "Load ", Color::White, false);
            message_segment_push(&mut message, "FAILED", Color::Red, true);
            message_segment_push(&mut message, ". Press ", Color::White, false);
            message_segment_push(&mut message, "ESCAPE", Color::LightBlue, true);
            message_segment_push(&mut message, " to go back. Error: ", Color::White, false);
            let text = error.message();
            message_segment_push(&mut message, text.as_str(), Color::Red, false);
        },
    }
    assert(message@ =~= result_text(*cache_entry));
    message
}

/// One step of the load screen. Outside it, it does nothing and returns `None`.
/// Entering it (`transitioned`) resets it. Escape goes back. Without a level
/// URL only the loading text shows. Once the level's load has finished
/// (`cache_entry`), its result message is set the first time and kept after;
/// enter then starts a level that loaded.
pub fn update<L>(
    scene: Kind,
    transitioned: bool,
    state_menu_load: &mut Load,
    keyboard: &Keys,
    level_url_set: bool,
    cache_entry: Option<&CacheEntry<L>>,
) -> (res: Option<Outcome>)
    ensures
        scene != Kind::MenuLoad || !transitioned
            ==> final(state_menu_load).spec_start_time() == old(state_menu_load).spec_start_time(),
        scene != Kind::MenuLoad || (!transitioned && old(state_menu_load).spec_started())
            ==> final(state_menu_load).spec_result_start_time() == old(state_menu_load).spec_result_start_time(),
        scene == Kind::MenuLoad && transitioned && (keyboard.escape || !level_url_set || cache_entry is None)
            ==> final(state_menu_load).spec_result_start_time() is None,
        scene == Kind::MenuLoad && !(!transitioned && old(state_menu_load).spec_started())
            && !(keyboard.escape || !level_url_set || cache_entry is None)
            ==> final(state_menu_load).spec_result_start_time() is Some,
        scene != Kind::MenuLoad ==> res is None
            && final(state_menu_load).spec_started() == old(state_menu_load).spec_started()
            && final(state_menu_load).spec_message() == old(state_menu_load).spec_message(),
        scene == Kind::MenuLoad ==> ({
            let started0 = !transitioned && old(state_menu_load).spec_started();
            let message0 = if transitioned { Seq::empty() } else { old(state_menu_load).spec_message() };
            if keyboard.escape || !level_url_set || cache_entry is None {
                &&& res == Some(if keyboard.escape { Outcome::Back } else { Outcome::Show { result: false } })
                &&& final(state_menu_load).spec_started() == started0
                &&& final(state_menu_load).spec_message() == message0
            } else {
                let entry = *cache_entry->0;
                &&& res == Some(if entry is Ready && keyboard.enter { Outcome::Start } else { Outcome::Show { result: true } })
                &&& final(state_menu_load).spec_started()
                &&& final(state_menu_load).spec_message() == if started0 { message0 } else { result_text(entry) }
            }
        }),
{
    if scene != Kind::MenuLoad {
        return None;
    }
    if transitioned {
        state_menu_load.clear();
    }
    if keyboard.escape {
        return Some(Outcome::Back);
    }
    if !level_url_set {
        return Some(Outcome::Show { result: false });
    }
    match cache_entry {
        None => Some(Outcome::Show { result: false }),
        Some(entry) => {
            if !state_menu_load.started_result() {
                state_menu_load.start_result(result_message_create(entry));
            }
            match entry {
                CacheEntry::Ready(_) => {
                    if keyboard.enter {
                        return Some(Outcome::Start);
                    }
                },
                CacheEntry::Failed(_) => {},
            }
            Some(Outcome::Show { result: true })
        },
    }
}

/// What starting a level asks of the game beyond the actor and the debug
/// console: the scene to switch to and what the music does.
pub struct Start {
    pub scene: Kind,
    pub music: Music,
}

/// Starts the loaded level the actor is in: the actor enters it airborne and
/// standing, not floating (its position is set to the level's spawn point and
/// its velocity and float-jump timer are cleared beside it), the debug console
/// is hidden, the scene switches to the simulation, and the level's track fades
/// in (`has_track`) or the music fades out.
pub fn level_start<N>(actor: &mut Actor<N>, debug_visible: &mut bool, has_track: bool) -> (res: Start)
    ensures
        entered_level(*old(actor), *final(actor)),
        final(actor).level_url == old(actor).level_url,
        !*final(debug_visible),
        res.scene == Kind::Simulation,
        res.music == if has_track { Music::FadeIn } else { Music::FadeOut },
{
    actor.intent.float = false;
    actor.stance = Stance::Airborne { crouching: false };
    *debug_visible = false;
    Start { scene: Kind::Simulation, music: if has_track { Music::FadeIn } else { Music::FadeOut } }
}

/// Most characters on one line of the load result.
pub const RESULT_TEXT_MAX_LEN: usize = 96;

/// The number of lines a load result of `len` characters takes.
pub open spec fn line_count(len: nat) -> nat {
    len / (RESULT_TEXT_MAX_LEN as nat) + if len % (RESULT_TEXT_MAX_LEN as nat) == 0 { 0nat } else { 1nat }
}

/// Line `ix` of a load result of `len` characters: from its first character
/// up to the next line's first or the end of the text.
pub open spec fn line_range(len: nat, ix: nat) -> (nat, nat) {
    let start: nat = ix * (RESULT_TEXT_MAX_LEN as nat);
    (start, if start + RESULT_TEXT_MAX_LEN <= len { (start + RESULT_TEXT_MAX_LEN) as nat } else { len })
}

/// How a load result of `len` characters is broken into lines, as ranges of
/// character positions.
pub fn result_lines(len: usize) -> (res: Vec<(usize, usize)>)
    ensures
        res@.len() == line_count(len as nat),
        forall|i: int| 0 <= i < res@.len() ==> (#[trigger] res@[i]).0 as nat == line_range(len as nat, i as nat).0
            && res@[i].1 as nat == line_range(len as nat, i as nat).1,
{
    let count = len / RESULT_TEXT_MAX_LEN + if len % RESULT_TEXT_MAX_LEN == 0 { 0 } else { 1 };
    let mut lines: Vec<(usize, usize)> = Vec::new();
    let mut ix: usize = 0;
    while ix < count
        invariant
            count as nat == line_count(len as nat),
            ix <= count,
            lines@.len() == ix,
            forall|i: int| 0 <= i < ix ==> (#[trigger] lines@[i]).0 as nat == line_range(len as nat, i as nat).0
                && lines@[i].1 as nat == line_range(len as nat, i as nat).1,
        decreases count - ix,
    {
        assert(ix * RESULT_TEXT_MAX_LEN < len) by (nonlinear_arith)
            requires
                ix < count,
                count == len / 96 + if len % 96 == 0 { 0int } else { 1int },
                RESULT_TEXT_MAX_LEN == 96,
        {
        }
        let start = ix * RESULT_TEXT_MAX_LEN;
        let end = if len - start >= RESULT_TEXT_MAX_LEN { start + RESULT_TEXT_MAX_LEN } else { len };
        lines.push((start, end));
        ix = ix + 1;
    }
    lines
}

/// Line-breaking law: the lines of a load result follow one another without gap
/// or overlap, each holds between one and `RESULT_TEXT_MAX_LEN` characters, and
/// together they cover the whole text.
pub proof fn lemma_lines_cover(len: nat)
    ensures
        forall|i: nat| i < line_count(len) ==> {
            let (s, e) = #[trigger] line_range(len, i);
            &&& s < e <= len
            &&& e - s <= RESULT_TEXT_MAX_LEN
            &&& (i + 1 < line_count(len) ==> e == line_range(len, i + 1).0)
        },
        line_count(len) > 0 ==> line_range(len, 0).0 == 0 && line_range(len, (line_count(len) - 1) as nat).1 == len,
{
    assert forall|i: nat| i < line_count(len) implies {
        let (s, e) = #[trigger] line_range(len, i);
        &&& s < e <= len
        &&& e - s <= RESULT_TEXT_MAX_LEN
        &&& (i + 1 < line_count(len) ==> e == line_range(len, i + 1).0)
    } by {
        assert(i * 96 < len && ((i + 1 < line_count(len)) ==> (i + 1) * 96 <= len)) by (nonlinear_arith)
            requires
                i < line_count(len),
                line_count(len) == len / 96 + if len % 96 == 0 { 0nat } else { 1nat },
        {
        }
        assert((i + 1) * 96 == i * 96 + 96) by (nonlinear_arith);
    }
    if line_count(len) > 0 {
        let last = (line_count(len) - 1) as nat;
        assert(last * 96 + 96 >= len) by (nonlinear_arith)
            requires
                last + 1 == len / 96 + if len % 96 == 0 { 0nat } else { 1nat },
        {
        }
    }
}

} // verus!
