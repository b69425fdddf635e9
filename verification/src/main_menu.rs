//! What a confirmed main-menu item launches.
use vstd::prelude::*;

verus! {

/// An item of the boot main menu.
#[derive(Debug, Clone, Copy, PartialEq, Eq, Structural)]
pub enum MainMenuItem {
    /// NEW GAME.
    NewGame,
    /// CONTINUE.
    Continue,
    /// OPTION.
    Option,
}

/// What pressing A on a main-menu item does.
#[derive(Debug, Clone, Copy, PartialEq, Eq, Structural)]
pub enum MainMenuAction {
    /// Start the new-game introduction.
    NewGame,
    /// Resume the saved game.
    Continue,
    /// Launch nothing: the options screen does not exist yet.
    NoAction,
}

/// The action pressing A on `item` launches.
pub fn menu_action(item: MainMenuItem) -> (r: MainMenuAction)
    ensures
        r == match item {
            MainMenuItem::NewGame => MainMenuAction::NewGame,
            MainMenuItem::Continue => MainMenuAction::Continue,
            MainMenuItem::Option => MainMenuAction::NoAction,
        },
{
    match item {
        MainMenuItem::NewGame => MainMenuAction::NewGame,
        MainMenuItem::Continue => MainMenuAction::Continue,
        MainMenuItem::Option => MainMenuAction::NoAction,
    }
}

} // verus!
