use vstd::prelude::*;
use crate::util::strings::{string_pop, string_push};
use crate::util::url::{LevelUrl, url_parse};

verus! {

/// Number of entries of the visit menu.
pub const ITEM_COUNT: usize = 3;

/// An entry of the visit menu, top to bottom.
#[derive(Clone, Copy, Debug, PartialEq, Eq, Structural)]
pub enum Item {
    LevelUrl,
    Visit,
    GoBack,
}

impl Item {
    /// The label shown for the entry.
    pub open spec fn name_text(self) -> Seq<char> {
        match self {
            Item::LevelUrl => "LEVEL URL"@,
            Item::Visit => "VISIT"@,
            Item::GoBack => "BACK"@,
        }
    }

    pub fn name(&self) -> (res: &'static str)
        ensures
            res@ == self.name_text(),
    {
        match self {
            Item::LevelUrl => "LEVEL URL",
            Item::Visit => "VISIT",
            Item::GoBack => "BACK",
        }
    }

    /// The entry at position `ix`, top to bottom, if there is one.
    pub open spec fn at(ix: int) -> Option<Item> {
        if ix == 0 { Some(Item::LevelUrl) } else if ix == 1 { Some(Item::Visit) } else if ix == 2 { Some(Item::GoBack) } else { None }
    }

    /// The entry at position `ix`, top to bottom, if there is one.
    pub fn from_index(ix: usize) -> (res: Option<Item>)
        ensures
            res == Item::at(ix as int),
    {
        if ix == 0 { Some(Item::LevelUrl) } else if ix == 1 { Some(Item::Visit) } else if ix == 2 { Some(Item::GoBack) } else { None }
    }
}

/// The text of the level URL after an edit: the last character removed when
/// backspace was pressed (if there is one), then the typed characters added.
pub open spec fn edited_text(text: Seq<char>, backspace: bool, typed: Seq<char>) -> Seq<char> {
    (if backspace && text.len() > 0 { text.drop_last() } else { text }) + typed
}

/// The URL a text denotes, if it parses.
pub open spec fn parsed(text: Seq<char>) -> Option<Seq<char>> {
    match url_parse(text) {
        Ok(u) => Some(u),
        Err(_) => None,
    }
}

/// The visit menu: the hovered entry, whether that entry is being edited, and
/// the level URL as typed together with the URL it parses to.
pub struct Visit {
    pub hovered: usize,
    pub selected: bool,
    pub level_url: String,
    pub level_url_value: Option<LevelUrl>,
}

/// The level URL as typed, and the URL it denotes if it parses.
pub struct VisitLevelUrl<'a> {
    pub text: &'a str,
    pub value: Option<&'a LevelUrl>,
}

impl Visit {
    /// The level URL as typed.
    pub open spec fn spec_text(&self) -> Seq<char> {
        self.level_url@
    }

    /// The URL the level URL denotes (by its serialization), if any.
    pub open spec fn spec_value(&self) -> Option<Seq<char>> {
        match self.level_url_value {
            Some(u) => Some(u@),
            None => None,
        }
    }

    /// A visit menu on the first entry, with `default_url` as level URL.
    pub fn new(default_url: &LevelUrl) -> (res: Self)
        ensures
            res.hovered == 0,
            !res.selected,
            res.spec_text() == default_url@,
            res.spec_value() == Some(default_url@),
    {
        let text = String::from_str(default_url.as_str());
        Self { hovered: 0, selected: false, level_url: text, level_url_value: Some(default_url.duplicate()) }
    }

    pub fn level_url(&self) -> (res: VisitLevelUrl<'_>)
        ensures
            res.text@ == self.spec_text(),
            match res.value {
                Some(u) => self.spec_value() == Some(u@),
                None => self.spec_value() is None,
            },
    {
        VisitLevelUrl { text: self.level_url.as_str(), value: self.level_url_value.as_ref() }
    }

    /// Removes the last character of the level URL (if any) and parses it again.
    pub fn level_url_pop(&mut self)
        ensures
            final(self).spec_text() == edited_text(old(self).spec_text(), true, Seq::empty()),
            final(self).spec_value() == parsed(final(self).spec_text()),
            final(self).hovered == old(self).hovered,
            final(self).selected == old(self).selected,
    {
        let _ = string_pop(&mut self.level_url);
        self.level_url_value_refresh();
        assert(self.spec_text() =~= edited_text(old(self).spec_text(), true, Seq::empty()));
    }

    /// Adds a character to the level URL and parses it again.
    pub fn level_url_push(&mut self, c: char)
        ensures
            final(self).spec_text() == old(self).spec_text().push(c),
            final(self).spec_value() == parsed(final(self).spec_text()),
            final(self).hovered == old(self).hovered,
            final(self).selected == old(self).selected,
    {
        string_push(&mut self.level_url, c);
        self.level_url_value_refresh();
    }

    /// Hovers the first entry and stops editing.
    pub fn clear(&mut self)
        ensures
            final(self).hovered == 0,
            !final(self).selected,
            final(self).spec_text() == old(self).spec_text(),
            final(self).spec_value() == old(self).spec_value(),
    {
        self.hovered = 0;
        self.selected = false;
    }

    fn level_url_value_refresh(&mut self)
        ensures
            final(self).spec_text() == old(self).spec_text(),
            final(self).spec_value() == parsed(old(self).spec_text()),
            final(self).hovered == old(self).hovered,
            final(self).selected == old(self).selected,
    {
        self.level_url_value = match LevelUrl::parse(self.level_url.as_str()) {
            Ok(u) => Some(u),
            Err(_) => None,
        };
    }
}

/// URL editing law: typing a character and then deleting it gives back the
/// text typed before.
pub proof fn lemma_push_pop(text: Seq<char>, c: char)
    ensures
        edited_text(text.push(c), true, Seq::empty()) == text,
{
    assert(text.push(c).drop_last() =~= text);
    assert(text + Seq::<char>::empty() =~= text);
}

} // verus!
