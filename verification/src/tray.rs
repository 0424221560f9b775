//! The tray-icon service: read-only properties over the window snapshot,
//! and the two activation triggers.
//!
//! Activations are decisions: they name the action to run through the port
//! and always fire the exit signal afterwards, whatever the port reports —
//! a click consumes the tray icon.

use vstd::prelude::*;

use crate::menu::{EventOutcome, MenuAction};
use crate::snapshot::WindowInfo;

verus! {

/// The tooltip of the tray icon: no icon, the window title as text, no
/// description.
pub struct ToolTip {
    pub icon_name: String,
    pub icon_data: Vec<(i32, i32, Vec<u8>)>,
    pub text: String,
    pub description: String,
}

/// The tray-icon service: a read-only view of the snapshot.
pub struct StatusNotifierItem {
    pub window_info: WindowInfo,
}

impl StatusNotifierItem {
    /// Category of the item.
    pub fn category(&self) -> (s: &'static str)
        ensures
            s@ == "ApplicationStatus"@,
    {
        "ApplicationStatus"
    }

    /// Identity of the item: the snapshot's (effective) class.
    pub fn id(&self) -> (s: &String)
        ensures
            s@ == self.window_info@.class,
    {
        &self.window_info.class
    }

    /// Title of the item: the snapshot's title.
    pub fn title(&self) -> (s: &String)
        ensures
            s@ == self.window_info@.title,
    {
        &self.window_info.title
    }

    /// Status of the item.
    pub fn status(&self) -> (s: &'static str)
        ensures
            s@ == "Active"@,
    {
        "Active"
    }

    /// Icon name: the snapshot's (effective) class.
    pub fn icon_name(&self) -> (s: &String)
        ensures
            s@ == self.window_info@.class,
    {
        &self.window_info.class
    }

    /// Tooltip: empty icon name, empty icon data, the window title as the
    /// text, empty description.
    pub fn tool_tip(&self) -> (t: ToolTip)
        ensures
            t.icon_name@.len() == 0,
            t.icon_data@.len() == 0,
            t.text@ == self.window_info@.title,
            t.description@.len() == 0,
    {
        ToolTip {
            icon_name: String::new(),
            icon_data: Vec::new(),
            text: self.window_info.title.clone(),
            description: String::new(),
        }
    }

    /// The item is not itself a menu; the menu is advertised separately
    /// under its own object path.
    pub fn item_is_menu(&self) -> (b: bool)
        ensures
            !b,
    {
        false
    }

    /// Object path of the associated menu.
    pub fn menu(&self) -> (s: &'static str)
        ensures
            s@ == "/Menu"@,
    {
        "/Menu"
    }

    /// The primary activation (conventionally a left click): reopen the
    /// window on the current workspace, and fire the exit signal whatever
    /// the port reports.
    pub fn activate(&self, _x: i32, _y: i32) -> (r: EventOutcome)
        ensures
            r == (EventOutcome { action: Some(MenuAction::ReopenCurrent), fire_exit: true }),
    {
        EventOutcome { action: Some(MenuAction::ReopenCurrent), fire_exit: true }
    }

    /// The secondary activation (conventionally a middle click): close the
    /// window, and fire the exit signal whatever the port reports.
    pub fn secondary_activate(&self, _x: i32, _y: i32) -> (r: EventOutcome)
        ensures
            r == (EventOutcome { action: Some(MenuAction::Close), fire_exit: true }),
    {
        EventOutcome { action: Some(MenuAction::Close), fire_exit: true }
    }
}

} // verus!
