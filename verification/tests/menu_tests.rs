use traymin::menu::{
    action_commands, action_needs_active_workspace, menu_action_of_id, menu_id_of_action,
    DbusMenu, MenuAction, MenuEvent, CLOSE_ID,
    LAYOUT_REVISION, MENU_ITEM_COUNT, MENU_PROTOCOL_VERSION, MENU_ROOT_ID, OPEN_CURRENT_ID,
    OPEN_ORIGINAL_ID,
};
use traymin::port::Command;
use traymin::snapshot::WindowInfo;

fn menu() -> DbusMenu {
    DbusMenu {
        window_info: WindowInfo {
            address: "0xdeadbeef".to_string(),
            workspace_id: 3,
            title: "Editor".to_string(),
            class: "editor".to_string(),
        },
    }
}

#[test]
fn layout_has_root_zero_and_three_items() {
    let m = menu();
    let layout = m.get_layout(0, -1, &Vec::new());
    assert_eq!(layout.root_id, MENU_ROOT_ID);
    assert_eq!(layout.root_id, 0);
    assert_eq!(layout.revision, LAYOUT_REVISION);
    assert_eq!(layout.entries.len(), MENU_ITEM_COUNT);
    assert_eq!(layout.children_display, "submenu");
    assert_eq!(layout.entries[0].id, OPEN_CURRENT_ID);
    assert_eq!(layout.entries[1].id, OPEN_ORIGINAL_ID);
    assert_eq!(layout.entries[2].id, CLOSE_ID);
    assert_eq!(layout.entries[0].label, "Open Editor");
    assert_eq!(layout.entries[1].label, "Open on original workspace (3)");
    assert_eq!(layout.entries[2].label, "Close Editor");
}

#[test]
fn layout_label_renders_negative_workspace() {
    let m = DbusMenu {
        window_info: WindowInfo {
            address: "0x1".to_string(),
            workspace_id: -2,
            title: "T".to_string(),
            class: "t".to_string(),
        },
    };
    let layout = m.get_layout(0, -1, &Vec::new());
    assert_eq!(layout.entries[1].label, "Open on original workspace (-2)");
}

#[test]
fn group_properties_keeps_only_valid_ids_in_order() {
    let m = menu();
    let ids = vec![0, 1, 99, 3, -7, 2];
    let props = m.get_group_properties(&ids, &Vec::new());
    let got: Vec<i32> = props.iter().map(|e| e.0).collect();
    assert_eq!(got, vec![1, 3, 2]);
    for (id, p) in &props {
        assert!(p.enabled);
        assert!(p.visible);
        assert_eq!(p.item_type, "standard");
        match id {
            1 => assert_eq!(p.label, "Open Editor"),
            2 => assert_eq!(p.label, "Open on original workspace (3)"),
            3 => assert_eq!(p.label, "Close Editor"),
            _ => panic!("unexpected id {}", id),
        }
    }
}

#[test]
fn group_properties_of_only_invalid_ids_is_empty() {
    let m = menu();
    let props = m.get_group_properties(&vec![0, 4, -1, 1000], &Vec::new());
    assert!(props.is_empty());
}

#[test]
fn close_click_yields_one_close_dispatch_and_exit() {
    let m = menu();
    let o = m.event(CLOSE_ID, "clicked", 0);
    assert_eq!(o.action, Some(MenuAction::Close));
    assert!(o.fire_exit);
    let cmds = action_commands(MenuAction::Close, &m.window_info, None);
    assert_eq!(cmds.len(), 1);
    assert!(matches!(
        &cmds[0],
        Command::CloseWindow { address } if address == "0xdeadbeef"
    ));
}

#[test]
fn unknown_id_click_is_ignored() {
    let m = menu();
    let o = m.event(42, "clicked", 0);
    assert_eq!(o.action, None);
    assert!(!o.fire_exit);
}

#[test]
fn non_click_event_is_ignored() {
    let m = menu();
    let o = m.event(CLOSE_ID, "hovered", 0);
    assert_eq!(o.action, None);
    assert!(!o.fire_exit);
}

#[test]
fn reopen_current_commands_use_active_workspace() {
    let m = menu();
    assert!(action_needs_active_workspace(MenuAction::ReopenCurrent));
    let cmds = action_commands(MenuAction::ReopenCurrent, &m.window_info, Some(7));
    assert_eq!(cmds.len(), 2);
    assert!(matches!(
        &cmds[0],
        Command::MoveToWorkspace { workspace_id: 7, address } if address == "0xdeadbeef"
    ));
    assert!(matches!(
        &cmds[1],
        Command::FocusWindow { address } if address == "0xdeadbeef"
    ));
}

#[test]
fn reopen_current_without_active_workspace_dispatches_nothing() {
    let m = menu();
    let cmds = action_commands(MenuAction::ReopenCurrent, &m.window_info, None);
    assert!(cmds.is_empty());
}

#[test]
fn reopen_original_commands_use_snapshot_workspace() {
    let m = menu();
    assert!(!action_needs_active_workspace(MenuAction::ReopenOriginal));
    let cmds = action_commands(MenuAction::ReopenOriginal, &m.window_info, None);
    assert_eq!(cmds.len(), 2);
    assert!(matches!(
        &cmds[0],
        Command::MoveToWorkspace { workspace_id: 3, address } if address == "0xdeadbeef"
    ));
    assert!(matches!(
        &cmds[1],
        Command::FocusWindow { address } if address == "0xdeadbeef"
    ));
}

#[test]
fn event_group_preserves_order() {
    let m = menu();
    let events = vec![
        MenuEvent { id: 1, event_id: "clicked".to_string(), timestamp: 1 },
        MenuEvent { id: 42, event_id: "clicked".to_string(), timestamp: 2 },
        MenuEvent { id: 3, event_id: "opened".to_string(), timestamp: 3 },
        MenuEvent { id: 3, event_id: "clicked".to_string(), timestamp: 4 },
    ];
    let outs = m.event_group(&events);
    assert_eq!(outs.len(), 4);
    assert_eq!(outs[0].action, Some(MenuAction::ReopenCurrent));
    assert!(outs[0].fire_exit);
    assert_eq!(outs[1].action, None);
    assert!(!outs[1].fire_exit);
    assert_eq!(outs[2].action, None);
    assert!(!outs[2].fire_exit);
    assert_eq!(outs[3].action, Some(MenuAction::Close));
    assert!(outs[3].fire_exit);
}

#[test]
fn about_to_show_reports_no_change() {
    let m = menu();
    assert!(!m.about_to_show(1));
    let (shown, hidden) = m.about_to_show_group(&vec![1, 2, 3]);
    assert!(shown.is_empty());
    assert!(hidden.is_empty());
}

#[test]
fn menu_constants_and_properties() {
    let m = menu();
    assert_eq!(m.version(), MENU_PROTOCOL_VERSION);
    assert_eq!(m.version(), 3);
    assert_eq!(m.text_direction(), "ltr");
    assert_eq!(m.status(), "normal");
}

#[test]
fn action_ids_round_trip() {
    for action in [
        MenuAction::ReopenCurrent,
        MenuAction::ReopenOriginal,
        MenuAction::Close,
    ] {
        let id = menu_id_of_action(action);
        assert_eq!(menu_action_of_id(id), Some(action));
    }
    assert_eq!(menu_id_of_action(MenuAction::ReopenCurrent), 1);
    assert_eq!(menu_id_of_action(MenuAction::ReopenOriginal), 2);
    assert_eq!(menu_id_of_action(MenuAction::Close), 3);
    assert_eq!(menu_action_of_id(0), None);
}
