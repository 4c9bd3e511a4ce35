use vstd::prelude::*;
use crate::util::color::Color;

verus! {

/// One glyph of on-screen text: the character, its weight and its color.
#[derive(Clone, Copy, Debug, PartialEq, Eq, Structural)]
pub struct Character {
    pub c: char,
    pub bold: bool,
    pub color: Color,
}

impl Character {

    pub fn new(c: char, bold: bool, color: Color) -> (res: Character)
        ensures
            res == (Character { c: c, bold: bold, color: color }),
    {
        Character { c: c, bold: bold, color: color }
    }
}

/// The glyph of `c` with the given weight and color.
pub open spec fn glyph(c: char, bold: bool, color: Color) -> Character {
    Character { c: c, bold: bold, color: color }
}

/// `text` drawn with one weight and one color, one glyph per character.
pub open spec fn styled(text: Seq<char>, weight: bool, tint: Color) -> Seq<Character> {
    Seq::new(text.len(), |i: int| glyph(text[i], weight, tint))
}

/// Appends the glyphs of `text`, in order, all with the given weight and color.
pub fn push_styled(characters: &mut Vec<Character>, text: &str, bold: bool, color: Color)
    ensures
        final(characters)@ == old(characters)@ + styled(text@, bold, color),
{
    let n = text.unicode_len();
    let ghost start = characters@;
    assert(styled(text@.take(0), bold, color) =~= Seq::<Character>::empty());
    for i in 0..n
        invariant
            n == text@.len(),
            characters@ == start + styled(text@.take(i as int), bold, color),
    {
        let c = text.get_char(i);
        characters.push(Character::new(c, bold, color));
        assert(text@.take(i + 1)[i as int] == c);
        assert(forall|j: int| 0 <= j < i ==> text@.take(i + 1)[j] == text@.take(i as int)[j]);
        assert(styled(text@.take(i + 1), bold, color) =~= styled(text@.take(i as int), bold, color).push(glyph(c, bold, color)));
    }
    assert(text@.take(n as int) =~= text@);
}

} // verus!
