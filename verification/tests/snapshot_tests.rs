use traymin::snapshot::{capture_snapshot, get_window_by_address, LookupError, WindowInfo};

fn window(address: &str, workspace_id: i32, title: &str, class: &str) -> WindowInfo {
    WindowInfo {
        address: address.to_string(),
        workspace_id,
        title: title.to_string(),
        class: class.to_string(),
    }
}

#[test]
fn empty_class_defaults_to_title() {
    let s = capture_snapshot(window("0xabc", 4, "Terminal", ""));
    assert_eq!(s.class, "Terminal");
    assert_eq!(s.title, "Terminal");
    assert_eq!(s.address, "0xabc");
    assert_eq!(s.workspace_id, 4);
}

#[test]
fn nonempty_class_is_kept() {
    let s = capture_snapshot(window("0xabc", 4, "Terminal", "kitty"));
    assert_eq!(s.class, "kitty");
    assert_eq!(s.title, "Terminal");
}

#[test]
fn empty_class_and_empty_title_stay_empty() {
    let s = capture_snapshot(window("0xabc", -1, "", ""));
    assert_eq!(s.class, "");
    assert_eq!(s.title, "");
}

#[test]
fn find_window_returns_first_match() {
    let clients = vec![
        window("0x1", 1, "one", "a"),
        window("0x2", 2, "two", "b"),
        window("0x2", 3, "two-again", "c"),
    ];
    let w = get_window_by_address(&clients, &"0x2".to_string()).unwrap();
    assert_eq!(w.title, "two");
    assert_eq!(w.workspace_id, 2);
}

#[test]
fn find_window_missing_address_fails() {
    let clients = vec![window("0x1", 1, "one", "a")];
    let e = get_window_by_address(&clients, &"0x9".to_string()).unwrap_err();
    assert_eq!(e, LookupError::NoTargetWindow);
}

#[test]
fn find_window_in_empty_list_fails() {
    let clients: Vec<WindowInfo> = Vec::new();
    let e = get_window_by_address(&clients, &"0x1".to_string()).unwrap_err();
    assert_eq!(e, LookupError::NoTargetWindow);
}
