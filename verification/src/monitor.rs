//! The external state monitor: the verdict of one periodic check of the
//! window list, detecting that the window was closed or restored outside
//! this tool's control.
//!
//! The shell queries the window list on a fixed interval and feeds each
//! result in; it stops the loop and fires the exit signal exactly when the
//! verdict says so.

use vstd::prelude::*;

use crate::port::PortError;
use crate::snapshot::{first_match, get_window_by_address, WindowInfo};

verus! {

/// The verdict of one monitor check.
#[derive(PartialEq, Eq, Structural, Clone, Copy, Debug)]
pub enum MonitorVerdict {
    /// The tracked address is gone from the window list: the window was
    /// closed externally. Terminal: fire the exit signal, stop checking.
    WindowClosed,
    /// The window sits on a positive (ordinary, visible) workspace: it was
    /// restored externally. Terminal: fire the exit signal, stop checking.
    WindowRestored,
    /// The window-list query failed; the monitor cannot recover without it.
    /// Terminal: fire the exit signal, stop checking.
    QueryFailed,
    /// The window is still parked on a non-positive (hidden) workspace:
    /// check again after the fixed interval.
    KeepWaiting,
}

/// The verdict over a successfully fetched window list: closed when the
/// address is absent, restored when its workspace id is positive, otherwise
/// keep waiting.
pub open spec fn list_verdict(clients: Seq<WindowInfo>, addr: Seq<char>) -> MonitorVerdict {
    match first_match(clients, addr) {
        None => MonitorVerdict::WindowClosed,
        Some(w) => if w@.workspace_id > 0 {
            MonitorVerdict::WindowRestored
        } else {
            MonitorVerdict::KeepWaiting
        },
    }
}

/// The verdict of one check, given the result of the window-list query.
pub open spec fn verdict_spec(
    result: Result<Seq<WindowInfo>, PortError>,
    addr: Seq<char>,
) -> MonitorVerdict {
    match result {
        Ok(clients) => list_verdict(clients, addr),
        Err(_) => MonitorVerdict::QueryFailed,
    }
}

/// Decides one monitor check from a fresh window-list query result.
pub fn monitor_check(address: &String, query_result: &Result<Vec<WindowInfo>, PortError>) -> (v:
    MonitorVerdict)
    ensures
        v == match query_result {
            Ok(clients) => list_verdict(clients@, address@),
            Err(_) => MonitorVerdict::QueryFailed,
        },
{
    match query_result {
        Ok(clients) => {
            match get_window_by_address(clients, address) {
                Ok(w) => {
                    if w.workspace_id > 0 {
                        MonitorVerdict::WindowRestored
                    } else {
                        MonitorVerdict::KeepWaiting
                    }
                },
                Err(_) => MonitorVerdict::WindowClosed,
            }
        },
        Err(_) => MonitorVerdict::QueryFailed,
    }
}

/// Whether a verdict ends the monitor loop (and fires the exit signal).
pub fn verdict_is_terminal(v: MonitorVerdict) -> (b: bool)
    ensures
        b == (v != MonitorVerdict::KeepWaiting),
{
    match v {
        MonitorVerdict::KeepWaiting => false,
        _ => true,
    }
}

/// A window list that omits the tracked address yields the terminal
/// "closed" verdict; one that carries it yields "restored" exactly when the
/// entry's workspace id is positive, and "keep waiting" otherwise — never a
/// terminal verdict for a window still parked on a hidden workspace.
pub proof fn lemma_monitor_verdicts(clients: Seq<WindowInfo>, addr: Seq<char>)
    ensures
        first_match(clients, addr) is None ==> list_verdict(clients, addr)
            == MonitorVerdict::WindowClosed,
        (first_match(clients, addr) matches Some(w) && w@.workspace_id > 0) ==> list_verdict(
            clients,
            addr,
        ) == MonitorVerdict::WindowRestored,
        (first_match(clients, addr) matches Some(w) && w@.workspace_id <= 0) ==> list_verdict(
            clients,
            addr,
        ) == MonitorVerdict::KeepWaiting,
{
}

} // verus!
