use traymin::monitor::{monitor_check, verdict_is_terminal, MonitorVerdict};
use traymin::port::PortError;
use traymin::snapshot::WindowInfo;

fn window(address: &str, workspace_id: i32) -> WindowInfo {
    WindowInfo {
        address: address.to_string(),
        workspace_id,
        title: "w".to_string(),
        class: "w".to_string(),
    }
}

#[test]
fn absent_address_means_window_closed() {
    let needle = "0xaaa".to_string();
    let result = Ok(vec![window("0xbbb", 1), window("0xccc", -3)]);
    let v = monitor_check(&needle, &result);
    assert_eq!(v, MonitorVerdict::WindowClosed);
    assert!(verdict_is_terminal(v));
}

#[test]
fn empty_list_means_window_closed() {
    let needle = "0xaaa".to_string();
    let result = Ok(Vec::new());
    let v = monitor_check(&needle, &result);
    assert_eq!(v, MonitorVerdict::WindowClosed);
    assert!(verdict_is_terminal(v));
}

#[test]
fn positive_workspace_means_window_restored() {
    let needle = "0xaaa".to_string();
    let result = Ok(vec![window("0xbbb", 2), window("0xaaa", 5)]);
    let v = monitor_check(&needle, &result);
    assert_eq!(v, MonitorVerdict::WindowRestored);
    assert!(verdict_is_terminal(v));
}

#[test]
fn hidden_workspace_means_keep_waiting() {
    let needle = "0xaaa".to_string();
    let result = Ok(vec![window("0xaaa", -2)]);
    let v = monitor_check(&needle, &result);
    assert_eq!(v, MonitorVerdict::KeepWaiting);
    assert!(!verdict_is_terminal(v));
}

#[test]
fn workspace_zero_counts_as_hidden() {
    let needle = "0xaaa".to_string();
    let result = Ok(vec![window("0xaaa", 0)]);
    let v = monitor_check(&needle, &result);
    assert_eq!(v, MonitorVerdict::KeepWaiting);
}

#[test]
fn query_failure_is_terminal() {
    let needle = "0xaaa".to_string();
    for e in [PortError::Exec, PortError::Decode, PortError::NonZeroExit] {
        let result: Result<Vec<WindowInfo>, PortError> = Err(e);
        let v = monitor_check(&needle, &result);
        assert_eq!(v, MonitorVerdict::QueryFailed);
        assert!(verdict_is_terminal(v));
    }
}

#[test]
fn first_matching_entry_decides() {
    let needle = "0xaaa".to_string();
    let result = Ok(vec![window("0xaaa", -1), window("0xaaa", 9)]);
    let v = monitor_check(&needle, &result);
    assert_eq!(v, MonitorVerdict::KeepWaiting);
}
