use vstd::prelude::*;

verus! {

/// Number of entries of the home menu.
pub const ITEM_COUNT: usize = 3;

/// An entry of the home menu, top to bottom.
#[derive(Clone, Copy, Debug, PartialEq, Eq, Structural)]
pub enum Item {
    Visit,
    Settings,
    Quit,
}

impl Item {
    /// The label shown for the entry.
    pub open spec fn name_text(self) -> Seq<char> {
        match self {
            Item::Visit => "VISIT"@,
            Item::Settings => "SETTINGS"@,
            Item::Quit => "QUIT"@,
        }
    }

    pub fn name(&self) -> (res: &'static str)
        ensures
            res@ == self.name_text(),
    {
        match self {
            Item::Visit => "VISIT",
            Item::Settings => "SETTINGS",
            Item::Quit => "QUIT",
        }
    }

    /// The entry at position `ix`, top to bottom, if there is one.
    pub open spec fn at(ix: int) -> Option<Item> {
        if ix == 0 { Some(Item::Visit) } else if ix == 1 { Some(Item::Settings) } else if ix == 2 { Some(Item::Quit) } else { None }
    }

    /// The entry at position `ix`, top to bottom, if there is one.
    pub fn from_index(ix: usize) -> (res: Option<Item>)
        ensures
            res == Item::at(ix as int),
    {
        if ix == 0 { Some(Item::Visit) } else if ix == 1 { Some(Item::Settings) } else if ix == 2 { Some(Item::Quit) } else { None }
    }
}

/// The home menu: which entry is selected.
pub struct Home {
    pub selected: usize,
}

impl Home {
    pub fn new() -> (res: Self)
        ensures
            res.selected == 0,
    {
        Self { selected: 0 }
    }

    /// Selects the first entry again.
    pub fn clear(&mut self)
        ensures
            final(self).selected == 0,
    {
        self.selected = 0;
    }
}

} // verus!
