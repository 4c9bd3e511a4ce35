use vstd::prelude::*;

verus! {

/// Number of entries of the pause menu.
pub const ITEM_COUNT: usize = 2;

/// An entry of the pause menu, top to bottom.
#[derive(Clone, Copy, Debug, PartialEq, Eq, Structural)]
pub enum Item {
    Cancel,
    Exit,
}

impl Item {
    /// The label shown for the entry.
    pub open spec fn name_text(self) -> Seq<char> {
        match self {
            Item::Cancel => "CANCEL"@,
            Item::Exit => "EXIT"@,
        }
    }

    pub fn name(&self) -> (res: &'static str)
        ensures
            res@ == self.name_text(),
    {
        match self {
            Item::Cancel => "CANCEL",
            Item::Exit => "EXIT",
        }
    }

    /// The entry at position `ix`, top to bottom, if there is one.
    pub open spec fn at(ix: int) -> Option<Item> {
        if ix == 0 { Some(Item::Cancel) } else if ix == 1 { Some(Item::Exit) } else { None }
    }

    /// The entry at position `ix`, top to bottom, if there is one.
    pub fn from_index(ix: usize) -> (res: Option<Item>)
        ensures
            res == Item::at(ix as int),
    {
        if ix == 0 { Some(Item::Cancel) } else if ix == 1 { Some(Item::Exit) } else { None }
    }
}

/// The pause menu: which entry is selected.
pub struct Pause {
    pub selected: usize,
}

impl Pause {
    pub fn new() -> (res: Self)
        ensures
            res.selected == 0,
    {
        Self { selected: 0 }
    }

    /// Selects the first entry again.
    pub fn clear(&mut self)
        ensures
            final(self).selected == 0,
    {
        self.selected = 0;
    }
}

} // verus!
