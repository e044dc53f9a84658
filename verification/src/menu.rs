//! The context menu's two entries and what a click on one of them asks for.

use vstd::prelude::*;

verus! {

/// What the application is asked to do from the tray.
#[derive(Clone, Copy, Debug, PartialEq, Eq, Structural)]
pub enum MenuAction {
    /// Bring the application's window up.
    Open,
    /// Stop the background service.
    Quit,
}

/// The label of the entry that opens the application, before localization.
pub const OPEN_PHRASE: &'static str = "Open";

/// The label of the entry that stops the service, before localization.
pub const STOP_SERVICE_PHRASE: &'static str = "Stop service";

impl MenuAction {
    /// The label of the action's menu entry, before localization.
    pub open spec fn phrase_text(self) -> Seq<char> {
        match self {
            MenuAction::Open => OPEN_PHRASE@,
            MenuAction::Quit => STOP_SERVICE_PHRASE@,
        }
    }

    /// The label of the action's menu entry, to be localized by the caller.
    pub fn phrase(self) -> (label: &'static str)
        ensures
            label@ == self.phrase_text(),
    {
        match self {
            MenuAction::Open => OPEN_PHRASE,
            MenuAction::Quit => STOP_SERVICE_PHRASE,
        }
    }
}

/// The menu's entries, top to bottom.
pub open spec fn menu_entries() -> Seq<MenuAction> {
    seq![MenuAction::Open, MenuAction::Quit]
}

/// The stable identities of the menu's two entries.
#[derive(Clone, Debug)]
pub struct MenuIds {
    /// Identity of the "Open" entry.
    pub open: String,
    /// Identity of the "Stop service" entry.
    pub quit: String,
}

impl MenuIds {
    /// The action of the entry whose identity is `clicked`. The
    /// "Stop service" entry is looked at first; an identity that belongs to
    /// neither entry has no action.
    pub open spec fn action_of(&self, clicked: Seq<char>) -> Option<MenuAction> {
        if clicked == self.quit@ {
            Some(MenuAction::Quit)
        } else if clicked == self.open@ {
            Some(MenuAction::Open)
        } else {
            None
        }
    }

    /// Maps the identity of a clicked entry to its action.
    pub fn dispatch(&self, clicked: &String) -> (action: Option<MenuAction>)
        ensures
            action == self.action_of(clicked@),
    {
        if *clicked == self.quit {
            Some(MenuAction::Quit)
        } else if *clicked == self.open {
            Some(MenuAction::Open)
        } else {
            None
        }
    }
}

} // verus!
