use vstd::prelude::*;

verus! {

/// An entry of the main menu, top to bottom.
#[derive(Debug, Clone, Copy, PartialEq, Eq, Structural)]
pub enum Choice {
    DecodeMode,
    CodeTable,
    Shutdown,
}

/// Row of an entry, counted from the top.
pub open spec fn row(c: Choice) -> int {
    match c {
        Choice::DecodeMode => 0,
        Choice::CodeTable => 1,
        Choice::Shutdown => 2,
    }
}

impl Choice {
    /// Moves one entry down; the last entry stays.
    pub fn next(&mut self)
        ensures
            row(*final(self)) == if row(*old(self)) < 2 {
                row(*old(self)) + 1
            } else {
                2
            },
    {
        match self {
            Choice::DecodeMode => *self = Choice::CodeTable,
            Choice::CodeTable => *self = Choice::Shutdown,
            Choice::Shutdown => {},
        }
    }

    /// Moves one entry up; the first entry stays.
    pub fn prev(&mut self)
        ensures
            row(*final(self)) == if row(*old(self)) > 0 {
                row(*old(self)) - 1
            } else {
                0
            },
    {
        match self {
            Choice::DecodeMode => {},
            Choice::CodeTable => *self = Choice::DecodeMode,
            Choice::Shutdown => *self = Choice::CodeTable,
        }
    }

    /// The row of the entry, for highlighting it.
    pub fn index(&self) -> (r: usize)
        ensures
            r == row(*self),
    {
        match self {
            Choice::DecodeMode => 0,
            Choice::CodeTable => 1,
            Choice::Shutdown => 2,
        }
    }
}

/// A key the menu reacts to.
#[derive(Debug, Clone, Copy, PartialEq, Eq, Structural)]
pub enum MenuKey {
    Up,
    Down,
    Enter,
    Other,
}

/// The menu's selection, and whether it has been confirmed.
pub struct MenuState {
    pub exit: bool,
    pub selection: Choice,
}

impl MenuState {
    /// The first entry selected, nothing confirmed.
    pub fn new() -> (r: MenuState)
        ensures
            r.exit == false,
            r.selection == Choice::DecodeMode,
    {
        MenuState { exit: false, selection: Choice::DecodeMode }
    }

    /// Up and down move the selection, enter confirms it.
    pub fn handle_key(&mut self, key: MenuKey)
        ensures
            key == MenuKey::Up ==> final(self).exit == old(self).exit && row(final(self).selection)
                == if row(old(self).selection) > 0 {
                row(old(self).selection) - 1
            } else {
                0
            },
            key == MenuKey::Down ==> final(self).exit == old(self).exit && row(
                final(self).selection,
            ) == if row(old(self).selection) < 2 {
                row(old(self).selection) + 1
            } else {
                2
            },
            key == MenuKey::Enter ==> final(self).exit && final(self).selection == old(
                self,
            ).selection,
            key == MenuKey::Other ==> *final(self) == *old(self),
    {
        match key {
            MenuKey::Up => self.selection.prev(),
            MenuKey::Down => self.selection.next(),
            MenuKey::Enter => self.exit = true,
            MenuKey::Other => {},
        }
    }
}

} // verus!
