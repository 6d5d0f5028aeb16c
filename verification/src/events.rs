//! What the main loop does with tray-menu clicks and hotkey presses.

use vstd::prelude::*;

verus! {

/// What a tray-menu click asks for.
#[derive(Debug, Clone, Copy, PartialEq, Eq, Structural)]
pub enum MenuAction {
    ToggleOverlay,
    OpenSettings,
    RunAudit,
    Quit,
}

/// The ids of the tray menu's items.
#[derive(Debug, Clone)]
pub struct MenuIds {
    pub toggle: String,
    pub settings: String,
    pub audit: String,
    pub quit: String,
}

/// The action for a clicked menu item, checked in the order toggle,
/// settings, audit, quit; nothing for an unknown item.
pub open spec fn menu_action_spec(clicked: Seq<char>, ids: MenuIds) -> Option<MenuAction> {
    if clicked == ids.toggle@ {
        Some(MenuAction::ToggleOverlay)
    } else if clicked == ids.settings@ {
        Some(MenuAction::OpenSettings)
    } else if clicked == ids.audit@ {
        Some(MenuAction::RunAudit)
    } else if clicked == ids.quit@ {
        Some(MenuAction::Quit)
    } else {
        None
    }
}

/// The action for a clicked menu item.
pub fn menu_action(clicked: &String, ids: &MenuIds) -> (r: Option<MenuAction>)
    ensures
        r == menu_action_spec(clicked@, *ids),
{
    if *clicked == ids.toggle {
        Some(MenuAction::ToggleOverlay)
    } else if *clicked == ids.settings {
        Some(MenuAction::OpenSettings)
    } else if *clicked == ids.audit {
        Some(MenuAction::RunAudit)
    } else if *clicked == ids.quit {
        Some(MenuAction::Quit)
    } else {
        None
    }
}

/// Whether a hotkey event toggles the overlay: it is a press of the
/// registered show/hide hotkey (when one could be registered).
pub fn hotkey_toggles(pressed: bool, event_id: u32, toggle_id: Option<u32>) -> (r: bool)
    ensures
        r == (pressed && toggle_id == Some(event_id)),
{
    let is_toggle = match toggle_id {
        Some(id) => event_id == id,
        None => false,
    };
    pressed && is_toggle
}

} // verus!
