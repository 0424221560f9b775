//! The lifecycle orchestrator: the state machine from startup to
//! termination, the restoration plans of the two exit paths, and the bus
//! identity under which the services are published.
//!
//! The shell drives the machine: it performs each directive (resolve the
//! window, hide it, publish and register, start the monitor, wait, restore,
//! tear down, exit) and feeds the resulting event back in.

use vstd::prelude::*;

use crate::numfmt::{dec_digits, u64_to_dec};
use crate::port::{Command, CommandV};
use crate::snapshot::{WindowInfo, WindowInfoV};

verus! {

/// The phases of the orchestrator, in order of a clean run.
#[derive(PartialEq, Eq, Structural, Clone, Copy, Debug)]
pub enum Phase {
    /// Before the target window is resolved.
    Start,
    /// The snapshot is captured.
    Captured,
    /// The window is parked on the hidden workspace.
    Hidden,
    /// Both services are published and the tray host accepted the
    /// registration.
    Registered,
    /// The monitor runs; the orchestrator waits for the exit signal.
    Running,
    /// Shutting down after the exit signal; whichever action fired it is
    /// responsible for the window's final placement.
    ExitingClean,
    /// Shutting down after an interrupt request; the window is restored on
    /// the way out.
    ExitingRestore,
    /// The process is done.
    Terminated,
}

/// What happened; the input of one step of the machine.
#[derive(PartialEq, Eq, Structural, Clone, Copy, Debug)]
pub enum LifecycleEvent {
    /// The target window was resolved and the snapshot captured.
    WindowResolved,
    /// No target window could be resolved.
    WindowResolveFailed,
    /// The hidden-move dispatch succeeded.
    HideSucceeded,
    /// The hidden-move dispatch failed.
    HideFailed,
    /// The tray host accepted the registration.
    RegistrationSucceeded,
    /// The tray host rejected or ignored the registration.
    RegistrationFailed,
    /// The monitor task is running.
    MonitorStarted,
    /// The exit signal fired (tray activation, menu click, or monitor).
    ExitSignalFired,
    /// An external interrupt asked the process to stop.
    InterruptRequested,
    /// The bus connection is released.
    TeardownComplete,
}

/// What the shell must do next.
#[derive(PartialEq, Eq, Structural, Clone, Copy, Debug)]
pub enum Directive {
    /// Dispatch the move to the hidden workspace.
    HideWindow,
    /// Publish both services on the bus and register with the tray host.
    PublishAndRegister,
    /// Start the monitor task.
    StartMonitor,
    /// Block until the exit signal or an interrupt.
    AwaitExit,
    /// Best-effort: move the window back to its original workspace; a
    /// failure of this dispatch is reported but changes nothing further.
    RestoreOriginal,
    /// Best-effort: query the active workspace and move and focus the
    /// window there, falling back to the original workspace when the query
    /// fails.
    RestoreToActive,
    /// Release the bus connection.
    Teardown,
    /// Exit with a non-zero code.
    ExitFatal,
    /// Exit with code zero.
    ExitClean,
}

/// One step of the orchestrator: the next phase and the directives to
/// carry out, in order. An event that does not belong to the current phase
/// changes nothing.
pub open spec fn step_spec(phase: Phase, event: LifecycleEvent) -> (Phase, Seq<Directive>) {
    match (phase, event) {
        (Phase::Start, LifecycleEvent::WindowResolved) => (
            Phase::Captured,
            seq![Directive::HideWindow],
        ),
        (Phase::Start, LifecycleEvent::WindowResolveFailed) => (
            Phase::Terminated,
            seq![Directive::ExitFatal],
        ),
        (Phase::Captured, LifecycleEvent::HideSucceeded) => (
            Phase::Hidden,
            seq![Directive::PublishAndRegister],
        ),
        (Phase::Captured, LifecycleEvent::HideFailed) => (
            Phase::Terminated,
            seq![Directive::ExitFatal],
        ),
        (Phase::Hidden, LifecycleEvent::RegistrationSucceeded) => (
            Phase::Registered,
            seq![Directive::StartMonitor],
        ),
        (Phase::Hidden, LifecycleEvent::RegistrationFailed) => (
            Phase::Terminated,
            seq![Directive::RestoreOriginal, Directive::ExitFatal],
        ),
        (Phase::Registered, LifecycleEvent::MonitorStarted) => (
            Phase::Running,
            seq![Directive::AwaitExit],
        ),
        (Phase::Running, LifecycleEvent::ExitSignalFired) => (
            Phase::ExitingClean,
            seq![Directive::Teardown],
        ),
        (Phase::Running, LifecycleEvent::InterruptRequested) => (
            Phase::ExitingRestore,
            seq![Directive::RestoreToActive, Directive::Teardown],
        ),
        (Phase::ExitingClean, LifecycleEvent::TeardownComplete) => (
            Phase::Terminated,
            seq![Directive::ExitClean],
        ),
        (Phase::ExitingRestore, LifecycleEvent::TeardownComplete) => (
            Phase::Terminated,
            seq![Directive::ExitClean],
        ),
        (_, _) => (phase, Seq::empty()),
    }
}

/// Runs one step of the orchestrator.
pub fn lifecycle_step(phase: Phase, event: LifecycleEvent) -> (r: (Phase, Vec<Directive>))
    ensures
        r.0 == step_spec(phase, event).0,
        r.1@ == step_spec(phase, event).1,
{
    let mut directives: Vec<Directive> = Vec::new();
    let next: Phase = match (phase, event) {
        (Phase::Start, LifecycleEvent::WindowResolved) => {
            directives.push(Directive::HideWindow);
            Phase::Captured
        },
        (Phase::Start, LifecycleEvent::WindowResolveFailed) => {
            directives.push(Directive::ExitFatal);
            Phase::Terminated
        },
        (Phase::Captured, LifecycleEvent::HideSucceeded) => {
            directives.push(Directive::PublishAndRegister);
            Phase::Hidden
        },
        (Phase::Captured, LifecycleEvent::HideFailed) => {
            directives.push(Directive::ExitFatal);
            Phase::Terminated
        },
        (Phase::Hidden, LifecycleEvent::RegistrationSucceeded) => {
            directives.push(Directive::StartMonitor);
            Phase::Registered
        },
        (Phase::Hidden, LifecycleEvent::RegistrationFailed) => {
            directives.push(Directive::RestoreOriginal);
            directives.push(Directive::ExitFatal);
            Phase::Terminated
        },
        (Phase::Registered, LifecycleEvent::MonitorStarted) => {
            directives.push(Directive::AwaitExit);
            Phase::Running
        },
        (Phase::Running, LifecycleEvent::ExitSignalFired) => {
            directives.push(Directive::Teardown);
            Phase::ExitingClean
        },
        (Phase::Running, LifecycleEvent::InterruptRequested) => {
            directives.push(Directive::RestoreToActive);
            directives.push(Directive::Teardown);
            Phase::ExitingRestore
        },
        (Phase::ExitingClean, LifecycleEvent::TeardownComplete) => {
            directives.push(Directive::ExitClean);
            Phase::Terminated
        },
        (Phase::ExitingRestore, LifecycleEvent::TeardownComplete) => {
            directives.push(Directive::ExitClean);
            Phase::Terminated
        },
        (_, _) => phase,
    };
    proof {
        assert(directives@ =~= step_spec(phase, event).1);
    }
    (next, directives)
}

/// The single best-effort dispatch of the registration-failure path: move
/// the window back to the workspace it came from.
pub fn restore_original_command(info: &WindowInfo) -> (c: Command)
    ensures
        c@ == (CommandV::MoveToWorkspace {
            workspace_id: info@.workspace_id,
            address: info@.address,
        }),
{
    crate::port::move_command(info, info.workspace_id)
}

/// The commands of the interrupt-restore path: move and focus the window on
/// the active workspace; when the active-workspace query failed, fall back
/// to moving it to its original workspace.
pub open spec fn interrupt_restore_spec(w: WindowInfoV, active_workspace: Option<i32>) -> Seq<
    CommandV,
> {
    match active_workspace {
        Some(ws) => seq![
            CommandV::MoveToWorkspace { workspace_id: ws as int, address: w.address },
            CommandV::FocusWindow { address: w.address },
        ],
        None => seq![
            CommandV::MoveToWorkspace { workspace_id: w.workspace_id, address: w.address },
        ],
    }
}

/// Builds the interrupt-restore commands, in dispatch order; every step is
/// best-effort.
pub fn interrupt_restore_commands(info: &WindowInfo, active_workspace: Option<i32>) -> (cmds: Vec<
    Command,
>)
    ensures
        cmds@.map_values(|c: Command| c@) == interrupt_restore_spec(info@, active_workspace),
{
    let mut cmds: Vec<Command> = Vec::new();
    match active_workspace {
        Some(ws) => {
            cmds.push(crate::port::move_command(info, ws));
            cmds.push(crate::port::focus_command(info));
        },
        None => {
            cmds.push(crate::port::move_command(info, info.workspace_id));
        },
    }
    proof {
        assert(cmds@.map_values(|c: Command| c@) =~= interrupt_restore_spec(
            info@,
            active_workspace,
        ));
    }
    cmds
}

/// The process-unique bus identity the services are published under.
pub open spec fn bus_name_spec(pid: nat) -> Seq<char> {
    "org.kde.StatusNotifierItem.minimizer.p"@ + dec_digits(pid)
}

/// Builds the bus identity for this process.
pub fn bus_name(pid: u32) -> (s: String)
    ensures
        s@ == bus_name_spec(pid as nat),
{
    let mut s = "org.kde.StatusNotifierItem.minimizer.p".to_owned();
    let digits = u64_to_dec(pid as u64);
    s.append(digits.as_str());
    s
}

/// A registration failure ends the run through its own exit path: the
/// machine reaches the terminal phase with exactly two directives — one
/// best-effort move of the window back to its original workspace, then a
/// fatal, non-zero exit — so exactly one port dispatch is requested and no
/// service keeps running.
pub proof fn lemma_registration_failure_restores_once()
    ensures
        step_spec(Phase::Hidden, LifecycleEvent::RegistrationFailed).0 == Phase::Terminated,
        step_spec(Phase::Hidden, LifecycleEvent::RegistrationFailed).1 =~= seq![
            Directive::RestoreOriginal,
            Directive::ExitFatal,
        ],
{
}

} // verus!
