use vstd::prelude::*;
use crate::game::state::keyboard::Keys;
use crate::game::state::scene::Kind;
use crate::sprite::text::{Character, push_styled, styled};
use crate::util::color::Color;
use crate::util::log::{Level, Message};

verus! {

/// The short name of a log level shown in the debug console.
pub open spec fn level_text(level: Level) -> Seq<char> {
    match level {
        Level::Debug => "debg"@,
        Level::Info => "info"@,
        Level::Error => "erro"@,
    }
}

/// The color of a log level's name in the debug console.
pub open spec fn level_color(level: Level) -> Color {
    match level {
        Level::Debug => Color::LightBlue,
        Level::Info => Color::Green,
        Level::Error => Color::Red,
    }
}

pub fn log_level_name(level: Level) -> (res: &'static str)
    ensures
        res@ == level_text(level),
{
    match level {
        Level::Debug => "debg",
        Level::Info => "info",
        Level::Error => "erro",
    }
}

pub fn log_level_color(level: Level) -> (res: Color)
    ensures
        res == level_color(level),
{
    match level {
        Level::Debug => Color::LightBlue,
        Level::Info => Color::Green,
        Level::Error => Color::Red,
    }
}

/// Appends `text`, one glyph per character, with the given weight and color.
pub fn write_characters(characters: &mut Vec<Character>, text: &str, bold: bool, color: Color)
    ensures
        final(characters)@ == old(characters)@ + styled(text@, bold, color),
{
    push_styled(characters, text, bold, color);
}

/// A log message as a console line: `[`, the level's name in bold and its
/// color, `] `, then the message.
pub open spec fn log_line(message: Message) -> Seq<Character> {
    styled("["@, false, Color::White) + styled(level_text(message.level), true, level_color(message.level))
        + styled("] "@, false, Color::White) + styled(message.message@, false, Color::White)
}

/// The console line for a log message.
pub fn write_log(message: &Message) -> (res: Vec<Character>)
    ensures
        res@ == log_line(*message),
{
    let mut characters: Vec<Character> = Vec::new();
    write_characters(&mut characters, "[", false, Color::White);
    write_characters(&mut characters, log_level_name(message.level), true, log_level_color(message.level));
    write_characters(&mut characters, "] ", false, Color::White);
    write_characters(&mut characters, message.message.as_str(), false, Color::White);
    assert(characters@ =~= log_line(*message));
    characters
}

/// One step of the debug console. First every pending log message (`pending`,
/// oldest first) is taken and its console line pushed onto `lines`, in order,
/// one line each, in every scene. Then, during the level, tab shows or hides
/// the console. Returns whether it is drawn.
pub fn update(
    scene: Kind,
    keyboard: &Keys,
    visible: &mut bool,
    pending: &mut Vec<Message>,
    lines: &mut Vec<Vec<Character>>,
) -> (res: bool)
    ensures
        final(pending)@.len() == 0,
        final(lines)@.len() == old(lines)@.len() + old(pending)@.len(),
        forall|i: int| 0 <= i < old(lines)@.len() ==> #[trigger] final(lines)@[i] == old(lines)@[i],
        forall|i: int| 0 <= i < old(pending)@.len()
            ==> (#[trigger] final(lines)@[old(lines)@.len() + i])@ == log_line(old(pending)@[i]),
        scene != Kind::Simulation ==> !res && *final(visible) == *old(visible),
        scene == Kind::Simulation ==> *final(visible) == (*old(visible) != keyboard.tab) && res == *final(visible),
{
    let ghost lines0 = lines@;
    let mut i: usize = 0;
    while i < pending.len()
        invariant
            i <= pending@.len(),
            pending@ == old(pending)@,
            lines@.len() == lines0.len() + i,
            forall|k: int| 0 <= k < lines0.len() ==> #[trigger] lines@[k] == lines0[k],
            forall|k: int| 0 <= k < i ==> (#[trigger] lines@[lines0.len() + k])@ == log_line(pending@[k]),
        decreases pending@.len() - i,
    {
        let line = write_log(&pending[i]);
        lines.push(line);
        i = i + 1;
    }
    pending.clear();
    if scene != Kind::Simulation {
        return false;
    }
    if keyboard.tab {
        *visible = !*visible;
    }
    *visible
}

} // verus!
