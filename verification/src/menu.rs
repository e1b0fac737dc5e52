//! The main menu.

use vstd::prelude::*;

verus! {

/// The entries of the main menu, from the top.
#[derive(Clone, Copy, Debug, PartialEq, Eq, Structural)]
pub enum Menu {
    Play,
    HardMode(bool),
    LeaderBoard,
    Exit,
}

/// Number of entries in the main menu.
pub const MENU_ENTRIES: usize = 4;

/// What choosing an entry of the menu brings about.
#[derive(Clone, Copy, Debug, PartialEq, Eq, Structural)]
pub enum MenuAction {
    /// A game starts.
    Play,
    /// Hard mode was switched on or off.
    SetHardMode(bool),
    /// The leaderboard is shown.
    LeaderBoard,
    /// The program ends.
    Exit,
}

/// The menu: the index of the entry that the arrow points at, and whether
/// hard mode is on.
#[derive(Clone, Copy, Debug, PartialEq, Eq, Structural)]
pub struct MenuState {
    pub current: usize,
    pub hard_mode: bool,
}

impl MenuState {
    /// The arrow points at an entry.
    pub open spec fn spec_wf(&self) -> bool {
        self.current < MENU_ENTRIES
    }

    /// Whether the arrow points at an entry.
    #[verifier::when_used_as_spec(spec_wf)]
    pub fn wf(&self) -> (r: bool)
        ensures
            r == self.spec_wf(),
    {
        self.current < MENU_ENTRIES
    }

    pub open spec fn spec_entry(&self, index: usize) -> Menu {
        if index == 0 {
            Menu::Play
        } else if index == 1 {
            Menu::HardMode(self.hard_mode)
        } else if index == 2 {
            Menu::LeaderBoard
        } else {
            Menu::Exit
        }
    }

    /// The menu as it opens: the arrow at the top.
    pub fn new(hard_mode: bool) -> (r: MenuState)
        ensures
            r == (MenuState { current: 0, hard_mode }),
            r.wf(),
    {
        MenuState { current: 0, hard_mode }
    }

    /// The entry at `index`.
    pub fn entry(&self, index: usize) -> (r: Menu)
        requires
            index < MENU_ENTRIES,
        ensures
            r == self.spec_entry(index),
    {
        if index == 0 {
            Menu::Play
        } else if index == 1 {
            Menu::HardMode(self.hard_mode)
        } else if index == 2 {
            Menu::LeaderBoard
        } else {
            Menu::Exit
        }
    }

    /// The entry that the arrow points at.
    pub fn current(&self) -> (r: Menu)
        requires
            self.wf(),
        ensures
            r == self.spec_entry(self.current),
    {
        self.entry(self.current)
    }

    /// Moves the arrow up one entry, from the top round to the bottom.
    pub fn up(&mut self)
        requires
            old(self).wf(),
        ensures
            final(self).current == (old(self).current + MENU_ENTRIES - 1) % (MENU_ENTRIES as int),
            final(self).hard_mode == old(self).hard_mode,
            final(self).wf(),
    {
        self.current = if self.current == 0 {
            MENU_ENTRIES - 1
        } else {
            self.current - 1
        };
    }

    /// Moves the arrow down one entry, from the bottom round to the top.
    pub fn down(&mut self)
        requires
            old(self).wf(),
        ensures
            final(self).current == (old(self).current + 1) % (MENU_ENTRIES as int),
            final(self).hard_mode == old(self).hard_mode,
            final(self).wf(),
    {
        self.current = if self.current == MENU_ENTRIES - 1 {
            0
        } else {
            self.current + 1
        };
    }

    /// Chooses the entry that the arrow points at. Choosing hard mode turns
    /// it the other way.
    pub fn choose_current(&mut self) -> (r: MenuAction)
        requires
            old(self).wf(),
        ensures
            final(self).current == old(self).current,
            final(self).hard_mode == (old(self).hard_mode != (old(self).current == 1)),
            r == match old(self).spec_entry(old(self).current) {
                Menu::Play => MenuAction::Play,
                Menu::HardMode(on) => MenuAction::SetHardMode(!on),
                Menu::LeaderBoard => MenuAction::LeaderBoard,
                Menu::Exit => MenuAction::Exit,
            },
    {
        match self.current() {
            Menu::Play => MenuAction::Play,
            Menu::HardMode(on) => {
                self.hard_mode = !on;
                MenuAction::SetHardMode(!on)
            },
            Menu::LeaderBoard => MenuAction::LeaderBoard,
            Menu::Exit => MenuAction::Exit,
        }
    }
}

} // verus!
