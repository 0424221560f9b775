//! The window-control port: the commands and queries the core sends to the
//! window manager, as plain data, and the errors the port can report.
//!
//! The core never talks to the window manager directly; an unverified shell
//! renders these values into the concrete query/dispatch mechanism and feeds
//! results back as plain values.

use vstd::prelude::*;

use crate::numfmt::{dec_of_int, i32_to_dec};

verus! {

/// A mutating window-manager command, parameterized by the window address
/// and, where needed, a workspace id.
pub enum Command {
    /// Move the window to the special hidden workspace without focusing it.
    MoveToSpecialSilent { address: String },
    /// Move the window to an ordinary workspace.
    MoveToWorkspace { workspace_id: i32, address: String },
    /// Give the window keyboard focus.
    FocusWindow { address: String },
    /// Close the window.
    CloseWindow { address: String },
}

/// Mathematical view of a command.
pub enum CommandV {
    MoveToSpecialSilent { address: Seq<char> },
    MoveToWorkspace { workspace_id: int, address: Seq<char> },
    FocusWindow { address: Seq<char> },
    CloseWindow { address: Seq<char> },
}

impl View for Command {
    type V = CommandV;

    open spec fn view(&self) -> CommandV {
        match self {
            Command::MoveToSpecialSilent { address } => CommandV::MoveToSpecialSilent {
                address: address@,
            },
            Command::MoveToWorkspace { workspace_id, address } => CommandV::MoveToWorkspace {
                workspace_id: *workspace_id as int,
                address: address@,
            },
            Command::FocusWindow { address } => CommandV::FocusWindow { address: address@ },
            Command::CloseWindow { address } => CommandV::CloseWindow { address: address@ },
        }
    }
}

/// A read-only window-manager query.
#[derive(PartialEq, Eq, Structural, Clone, Copy, Debug)]
pub enum Query {
    /// The currently focused window.
    ActiveWindow,
    /// The currently active workspace.
    ActiveWorkspace,
    /// The full window list.
    Clients,
}

/// An error of the window-control port.
#[derive(PartialEq, Eq, Structural, Clone, Copy, Debug)]
pub enum PortError {
    /// The query/dispatch mechanism itself could not run.
    Exec,
    /// The result could not be parsed into the expected shape.
    Decode,
    /// The mechanism ran but reported failure.
    NonZeroExit,
}

/// The command that parks the window on the hidden workspace.
pub fn hide_command(info: &crate::snapshot::WindowInfo) -> (c: Command)
    ensures
        c@ == (CommandV::MoveToSpecialSilent { address: info@.address }),
{
    Command::MoveToSpecialSilent { address: info.address.clone() }
}

/// The command that moves the window to the given ordinary workspace.
pub fn move_command(info: &crate::snapshot::WindowInfo, workspace_id: i32) -> (c: Command)
    ensures
        c@ == (CommandV::MoveToWorkspace {
            workspace_id: workspace_id as int,
            address: info@.address,
        }),
{
    Command::MoveToWorkspace { workspace_id, address: info.address.clone() }
}

/// The command that focuses the window.
pub fn focus_command(info: &crate::snapshot::WindowInfo) -> (c: Command)
    ensures
        c@ == (CommandV::FocusWindow { address: info@.address }),
{
    Command::FocusWindow { address: info.address.clone() }
}

/// The command that closes the window.
pub fn close_command(info: &crate::snapshot::WindowInfo) -> (c: Command)
    ensures
        c@ == (CommandV::CloseWindow { address: info@.address }),
{
    Command::CloseWindow { address: info.address.clone() }
}

/// The concrete dispatch syntax of a command, as the window manager's
/// command-line tool takes it.
pub open spec fn command_string(c: CommandV) -> Seq<char> {
    match c {
        CommandV::MoveToSpecialSilent { address } => "movetoworkspacesilent special:minimized,address:"@
            + address,
        CommandV::MoveToWorkspace { workspace_id, address } => "movetoworkspace "@ + dec_of_int(
            workspace_id,
        ) + ",address:"@ + address,
        CommandV::FocusWindow { address } => "focuswindow address:"@ + address,
        CommandV::CloseWindow { address } => "closewindow address:"@ + address,
    }
}

/// Renders a command into the dispatch syntax.
pub fn render_command(cmd: &Command) -> (s: String)
    ensures
        s@ == command_string(cmd@),
{
    match cmd {
        Command::MoveToSpecialSilent { address } => {
            let mut s = "movetoworkspacesilent special:minimized,address:".to_owned();
            s.append(address.as_str());
            s
        },
        Command::MoveToWorkspace { workspace_id, address } => {
            let mut s = "movetoworkspace ".to_owned();
            let num = i32_to_dec(*workspace_id);
            s.append(num.as_str());
            s.append(",address:");
            s.append(address.as_str());
            proof {
                assert(s@ =~= command_string(cmd@));
            }
            s
        },
        Command::FocusWindow { address } => {
            let mut s = "focuswindow address:".to_owned();
            s.append(address.as_str());
            s
        },
        Command::CloseWindow { address } => {
            let mut s = "closewindow address:".to_owned();
            s.append(address.as_str());
            s
        },
    }
}

} // verus!
