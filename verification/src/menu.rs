//! The context-menu service: a static menu over the window snapshot, and
//! the dispatch of click events to window-manager actions.
//!
//! The menu contents never change at runtime, so the layout and the item
//! properties are pure functions of the snapshot; event handling is a pure
//! decision from (item id, event kind) to an action plus an exit-signal
//! verdict, which the unverified shell carries out.

use vstd::prelude::*;

use crate::numfmt::dec_of_int;
use crate::port::{Command, CommandV};
use crate::snapshot::{WindowInfo, WindowInfoV};

verus! {

/// Id of the root layout node.
pub const MENU_ROOT_ID: i32 = 0;

/// Id of the "open on the current workspace" item.
pub const OPEN_CURRENT_ID: i32 = 1;

/// Id of the "open on the original workspace" item.
pub const OPEN_ORIGINAL_ID: i32 = 2;

/// Id of the "close the window" item.
pub const CLOSE_ID: i32 = 3;

/// Number of leaf menu items in this build.
pub const MENU_ITEM_COUNT: usize = 3;

/// Fixed layout revision served to callers that cache layouts.
pub const LAYOUT_REVISION: u32 = 2;

/// Version of the menu protocol this service implements.
pub const MENU_PROTOCOL_VERSION: u32 = 3;

/// The action behind a menu item.
#[derive(PartialEq, Eq, Structural, Clone, Copy, Debug)]
pub enum MenuAction {
    /// Move the window to the currently active workspace and focus it.
    ReopenCurrent,
    /// Move the window back to its original workspace and focus it.
    ReopenOriginal,
    /// Close the window.
    Close,
}

/// The fixed mapping from item id to action; ids outside the menu map to
/// nothing.
pub open spec fn action_of_id(id: int) -> Option<MenuAction> {
    if id == OPEN_CURRENT_ID {
        Some(MenuAction::ReopenCurrent)
    } else if id == OPEN_ORIGINAL_ID {
        Some(MenuAction::ReopenOriginal)
    } else if id == CLOSE_ID {
        Some(MenuAction::Close)
    } else {
        None
    }
}

/// Whether an id denotes a menu item of this build.
pub open spec fn is_menu_id(id: int) -> bool {
    action_of_id(id) is Some
}

/// The action behind a menu item id, if any.
pub fn menu_action_of_id(id: i32) -> (r: Option<MenuAction>)
    ensures
        r == action_of_id(id as int),
{
    if id == OPEN_CURRENT_ID {
        Some(MenuAction::ReopenCurrent)
    } else if id == OPEN_ORIGINAL_ID {
        Some(MenuAction::ReopenOriginal)
    } else if id == CLOSE_ID {
        Some(MenuAction::Close)
    } else {
        None
    }
}

/// The id assigned to an action; inverse of `action_of_id`.
pub fn menu_id_of_action(action: MenuAction) -> (id: i32)
    ensures
        action_of_id(id as int) == Some(action),
{
    match action {
        MenuAction::ReopenCurrent => OPEN_CURRENT_ID,
        MenuAction::ReopenOriginal => OPEN_ORIGINAL_ID,
        MenuAction::Close => CLOSE_ID,
    }
}

/// Label of the "open on the current workspace" item.
pub open spec fn open_label(title: Seq<char>) -> Seq<char> {
    "Open "@ + title
}

/// Label of the "open on the original workspace" item.
pub open spec fn open_original_label(workspace_id: int) -> Seq<char> {
    "Open on original workspace ("@ + dec_of_int(workspace_id) + ")"@
}

/// Label of the "close the window" item.
pub open spec fn close_label(title: Seq<char>) -> Seq<char> {
    "Close "@ + title
}

/// Label of a menu item, as a function of the snapshot.
pub open spec fn label_of(action: MenuAction, w: WindowInfoV) -> Seq<char> {
    match action {
        MenuAction::ReopenCurrent => open_label(w.title),
        MenuAction::ReopenOriginal => open_original_label(w.workspace_id),
        MenuAction::Close => close_label(w.title),
    }
}

/// Builds the label of a menu item.
pub fn menu_label(action: MenuAction, info: &WindowInfo) -> (s: String)
    ensures
        s@ == label_of(action, info@),
{
    match action {
        MenuAction::ReopenCurrent => {
            let mut s = "Open ".to_owned();
            s.append(info.title.as_str());
            s
        },
        MenuAction::ReopenOriginal => {
            let mut s = "Open on original workspace (".to_owned();
            let num = crate::numfmt::i32_to_dec(info.workspace_id);
            s.append(num.as_str());
            s.append(")");
            proof {
                assert(s@ =~= open_original_label(info@.workspace_id));
            }
            s
        },
        MenuAction::Close => {
            let mut s = "Close ".to_owned();
            s.append(info.title.as_str());
            s
        },
    }
}

/// A leaf node of the menu layout: a standard item with a label.
pub struct MenuEntry {
    pub id: i32,
    pub label: String,
}

/// Mathematical view of a leaf node.
pub struct MenuEntryV {
    pub id: int,
    pub label: Seq<char>,
}

impl View for MenuEntry {
    type V = MenuEntryV;

    open spec fn view(&self) -> MenuEntryV {
        MenuEntryV { id: self.id as int, label: self.label@ }
    }
}

/// The menu layout: a root node rendered as a submenu, holding the leaf
/// items in order.
pub struct MenuLayout {
    pub revision: u32,
    pub root_id: i32,
    /// How the root's children are displayed; always `submenu`.
    pub children_display: String,
    pub entries: Vec<MenuEntry>,
}

/// Properties of one menu item, as reported to the tray host.
pub struct MenuProps {
    pub label: String,
    pub enabled: bool,
    pub visible: bool,
    pub item_type: String,
}

/// Mathematical view of the item properties.
pub struct MenuPropsV {
    pub label: Seq<char>,
    pub enabled: bool,
    pub visible: bool,
    pub item_type: Seq<char>,
}

impl View for MenuProps {
    type V = MenuPropsV;

    open spec fn view(&self) -> MenuPropsV {
        MenuPropsV {
            label: self.label@,
            enabled: self.enabled,
            visible: self.visible,
            item_type: self.item_type@,
        }
    }
}

/// The properties every present menu item reports: its label, enabled,
/// visible, of standard type.
pub open spec fn group_props_spec(action: MenuAction, w: WindowInfoV) -> MenuPropsV {
    MenuPropsV {
        label: label_of(action, w),
        enabled: true,
        visible: true,
        item_type: "standard"@,
    }
}

/// The item ids of a returned property list, in order.
pub open spec fn entry_ids(r: Seq<(i32, MenuProps)>) -> Seq<i32> {
    r.map_values(|e: (i32, MenuProps)| e.0)
}

/// The requested ids that denote menu items, in request order.
pub open spec fn menu_id_filter(ids: Seq<i32>) -> Seq<i32> {
    ids.filter(|id: i32| is_menu_id(id as int))
}

/// The outcome of one menu event: which action, if any, to run through the
/// port, and whether the exit signal fires afterwards. The exit verdict is
/// decided here, before any port call, so it does not depend on whether the
/// action later succeeds.
pub struct EventOutcome {
    pub action: Option<MenuAction>,
    pub fire_exit: bool,
}

/// The decision for one event: a click on a known item runs its action and
/// fires the exit signal; a click on an unknown item, or any other kind of
/// event, does nothing and leaves the signal alone.
pub open spec fn event_outcome_spec(id: int, event_id: Seq<char>) -> EventOutcome {
    if event_id == "clicked"@ {
        match action_of_id(id) {
            Some(a) => EventOutcome { action: Some(a), fire_exit: true },
            None => EventOutcome { action: None, fire_exit: false },
        }
    } else {
        EventOutcome { action: None, fire_exit: false }
    }
}

/// The port commands that carry out an action, in dispatch order; the shell
/// runs them in order and stops at the first failure. Reopening on the
/// current workspace needs the active workspace, handed in from a prior
/// query; when that query failed there is nothing to dispatch.
pub open spec fn action_commands_spec(
    action: MenuAction,
    w: WindowInfoV,
    active_workspace: Option<i32>,
) -> Seq<CommandV> {
    match action {
        MenuAction::ReopenCurrent => match active_workspace {
            Some(ws) => seq![
                CommandV::MoveToWorkspace { workspace_id: ws as int, address: w.address },
                CommandV::FocusWindow { address: w.address },
            ],
            None => Seq::empty(),
        },
        MenuAction::ReopenOriginal => seq![
            CommandV::MoveToWorkspace { workspace_id: w.workspace_id, address: w.address },
            CommandV::FocusWindow { address: w.address },
        ],
        MenuAction::Close => seq![CommandV::CloseWindow { address: w.address }],
    }
}

/// Whether an action needs the active workspace queried before its commands
/// can be built.
pub fn action_needs_active_workspace(action: MenuAction) -> (b: bool)
    ensures
        b == (action == MenuAction::ReopenCurrent),
{
    match action {
        MenuAction::ReopenCurrent => true,
        MenuAction::ReopenOriginal => false,
        MenuAction::Close => false,
    }
}

/// Builds the port commands that carry out an action.
pub fn action_commands(action: MenuAction, info: &WindowInfo, active_workspace: Option<i32>) -> (cmds:
    Vec<Command>)
    ensures
        cmds@.map_values(|c: Command| c@) == action_commands_spec(
            action,
            info@,
            active_workspace,
        ),
{
    let mut cmds: Vec<Command> = Vec::new();
    match action {
        MenuAction::ReopenCurrent => {
            match active_workspace {
                Some(ws) => {
                    cmds.push(crate::port::move_command(info, ws));
                    cmds.push(crate::port::focus_command(info));
                },
                None => {},
            }
        },
        MenuAction::ReopenOriginal => {
            cmds.push(crate::port::move_command(info, info.workspace_id));
            cmds.push(crate::port::focus_command(info));
        },
        MenuAction::Close => {
            cmds.push(crate::port::close_command(info));
        },
    }
    proof {
        assert(cmds@.map_values(|c: Command| c@) =~= action_commands_spec(
            action,
            info@,
            active_workspace,
        ));
    }
    cmds
}

/// The context-menu service: a read-only view of the snapshot.
pub struct DbusMenu {
    pub window_info: WindowInfo,
}

impl DbusMenu {
    /// Returns the fixed menu layout: one root node, rendered as a submenu,
    /// with the three items as leaves, each a standard item with its label.
    pub fn get_layout(&self, _parent_id: i32, _recursion_depth: i32, _property_names: &Vec<String>)
        -> (r: MenuLayout)
        ensures
            r.revision == LAYOUT_REVISION,
            r.root_id == MENU_ROOT_ID,
            r.children_display@ == "submenu"@,
            r.entries@.len() == MENU_ITEM_COUNT,
            forall|j: int|
                0 <= j < r.entries@.len() ==> (#[trigger] r.entries@[j])@.id == j + 1 && (
                action_of_id(j + 1) matches Some(a) && r.entries@[j]@.label == label_of(
                    a,
                    self.window_info@,
                )),
    {
        let mut entries: Vec<MenuEntry> = Vec::new();
        entries.push(
            MenuEntry {
                id: OPEN_CURRENT_ID,
                label: menu_label(MenuAction::ReopenCurrent, &self.window_info),
            },
        );
        entries.push(
            MenuEntry {
                id: OPEN_ORIGINAL_ID,
                label: menu_label(MenuAction::ReopenOriginal, &self.window_info),
            },
        );
        entries.push(
            MenuEntry { id: CLOSE_ID, label: menu_label(MenuAction::Close, &self.window_info) },
        );
        MenuLayout {
            revision: LAYOUT_REVISION,
            root_id: MENU_ROOT_ID,
            children_display: "submenu".to_owned(),
            entries,
        }
    }

    /// For each requested id that denotes a menu item, in request order,
    /// returns the item's properties; unknown ids are silently omitted.
    pub fn get_group_properties(&self, ids: &Vec<i32>, _property_names: &Vec<String>) -> (r: Vec<
        (i32, MenuProps),
    >)
        ensures
            entry_ids(r@) == menu_id_filter(ids@),
            forall|j: int|
                0 <= j < r@.len() ==> (action_of_id(#[trigger] r@[j].0 as int) matches Some(a)
                    && (r@[j].1)@ == group_props_spec(a, self.window_info@)),
    {
        let mut r: Vec<(i32, MenuProps)> = Vec::new();
        let mut i: usize = 0;
        proof {
            assert(ids@.take(0) =~= Seq::<i32>::empty());
            assert(entry_ids(r@) =~= menu_id_filter(ids@.take(0)));
        }
        while i < ids.len()
            invariant
                0 <= i <= ids@.len(),
                entry_ids(r@) == menu_id_filter(ids@.take(i as int)),
                forall|j: int|
                    0 <= j < r@.len() ==> (action_of_id(#[trigger] r@[j].0 as int) matches Some(a)
                        && (r@[j].1)@ == group_props_spec(a, self.window_info@)),
            decreases ids@.len() - i,
        {
            let id = ids[i];
            let ghost rpre = r@;
            match menu_action_of_id(id) {
                Some(action) => {
                    let props = MenuProps {
                        label: menu_label(action, &self.window_info),
                        enabled: true,
                        visible: true,
                        item_type: "standard".to_owned(),
                    };
                    r.push((id, props));
                },
                None => {},
            }
            proof {
                reveal_with_fuel(Seq::<_>::filter, 2);
                let pre = ids@.take(i as int);
                let post = ids@.take(i as int + 1);
                assert(post.len() == i + 1);
                assert(post.drop_last() =~= pre);
                assert(post.last() == ids@[i as int]);
                if is_menu_id(ids@[i as int] as int) {
                    assert(entry_ids(r@) =~= entry_ids(rpre).push(id));
                    assert(menu_id_filter(post) == menu_id_filter(pre).push(ids@[i as int]));
                } else {
                    assert(menu_id_filter(post) == menu_id_filter(pre));
                }
            }
            i += 1;
        }
        proof {
            assert(ids@.take(ids@.len() as int) =~= ids@);
        }
        r
    }

    /// Decides one event. Only `clicked` events on known items act: they
    /// name the item's action and fire the exit signal afterwards, whether
    /// or not the action's dispatches succeed; everything else is ignored.
    pub fn event(&self, id: i32, event_id: &str, _timestamp: u32) -> (r: EventOutcome)
        ensures
            r == event_outcome_spec(id as int, event_id@),
    {
        let eid = event_id.to_owned();
        let clicked = "clicked".to_owned();
        if eid == clicked {
            match menu_action_of_id(id) {
                Some(a) => EventOutcome { action: Some(a), fire_exit: true },
                None => EventOutcome { action: None, fire_exit: false },
            }
        } else {
            EventOutcome { action: None, fire_exit: false }
        }
    }

    /// Decides a batch of events, preserving the caller's order; each event
    /// goes through the same logic as `event`.
    pub fn event_group(&self, events: &Vec<MenuEvent>) -> (outs: Vec<EventOutcome>)
        ensures
            outs@.len() == events@.len(),
            forall|i: int|
                0 <= i < events@.len() ==> #[trigger] outs@[i] == event_outcome_spec(
                    events@[i].id as int,
                    events@[i].event_id@,
                ),
    {
        let mut outs: Vec<EventOutcome> = Vec::new();
        let mut i: usize = 0;
        while i < events.len()
            invariant
                0 <= i <= events@.len(),
                outs@.len() == i,
                forall|j: int|
                    0 <= j < i ==> #[trigger] outs@[j] == event_outcome_spec(
                        events@[j].id as int,
                        events@[j].event_id@,
                    ),
            decreases events@.len() - i,
        {
            let e = &events[i];
            let o = self.event(e.id, e.event_id.as_str(), e.timestamp);
            outs.push(o);
            i += 1;
        }
        outs
    }

    /// The menu has no dynamic contents: nothing needs to update before it
    /// is shown.
    pub fn about_to_show(&self, _id: i32) -> (b: bool)
        ensures
            !b,
    {
        false
    }

    /// Batched form of `about_to_show`: no item needs an update and none is
    /// hidden.
    pub fn about_to_show_group(&self, _ids: &Vec<i32>) -> (r: (Vec<i32>, Vec<i32>))
        ensures
            r.0@.len() == 0,
            r.1@.len() == 0,
    {
        (Vec::new(), Vec::new())
    }

    /// Protocol version this service implements.
    pub fn version(&self) -> (v: u32)
        ensures
            v == MENU_PROTOCOL_VERSION,
    {
        MENU_PROTOCOL_VERSION
    }

    /// Text direction of the labels.
    pub fn text_direction(&self) -> (s: &'static str)
        ensures
            s@ == "ltr"@,
    {
        "ltr"
    }

    /// Status of the menu.
    pub fn status(&self) -> (s: &'static str)
        ensures
            s@ == "normal"@,
    {
        "normal"
    }
}

/// One event of a batch, as handed over the bus: the item id, the event
/// kind, and the caller's timestamp.
pub struct MenuEvent {
    pub id: i32,
    pub event_id: String,
    pub timestamp: u32,
}

/// A click on the close item runs exactly one port command — closing the
/// tracked window — and fires the exit signal; the exit verdict is part of
/// the decision, so a later dispatch failure cannot revoke it.
pub proof fn lemma_close_click_closes_once(w: WindowInfoV, active_workspace: Option<i32>)
    ensures
        event_outcome_spec(CLOSE_ID as int, "clicked"@) == (EventOutcome {
            action: Some(MenuAction::Close),
            fire_exit: true,
        }),
        action_commands_spec(MenuAction::Close, w, active_workspace) =~= seq![
            CommandV::CloseWindow { address: w.address },
        ],
{
}

/// A click on an id outside the menu, or an event that is not a click,
/// runs no port command and does not fire the exit signal.
pub proof fn lemma_unrecognized_event_ignored(id: int, event_id: Seq<char>)
    requires
        !is_menu_id(id) || event_id != "clicked"@,
    ensures
        event_outcome_spec(id, event_id) == (EventOutcome { action: None, fire_exit: false }),
{
}

} // verus!
