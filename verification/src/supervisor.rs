//! Init-supervisor decisions: which signals are forwarded to the
//! application, how the reaper reacts to a reaped child, what exit code the
//! supervisor synthesizes, and the self-healing PID conflict check.

use vstd::prelude::*;
use crate::consts::APP_ROOT_PID;
use crate::consts::MIN_PID;

verus! {

pub const SIGILL: i32 = 4;
pub const SIGBUS: i32 = 7;
pub const SIGFPE: i32 = 8;
pub const SIGKILL: i32 = 9;
pub const SIGSEGV: i32 = 11;
pub const SIGTERM: i32 = 15;
pub const SIGCHLD: i32 = 17;
pub const SIGSTOP: i32 = 19;

/// The highest standard (non-realtime) signal number on the platform.
pub const MAX_STD_SIGNAL: i32 = 31;

/// Signals the kernel forbids handling or that must never be injected into
/// the application: `SIGKILL`, `SIGSTOP`, `SIGFPE`, `SIGILL`, `SIGSEGV`,
/// `SIGBUS`.
pub open spec fn kernel_forbidden_signal(sig: int) -> bool {
    sig == SIGKILL || sig == SIGSTOP || sig == SIGFPE || sig == SIGILL
        || sig == SIGSEGV || sig == SIGBUS
}

/// A signal gets a forwarding handler exactly when it is a standard
/// platform signal, is not `SIGCHLD`, and is not kernel-forbidden.
pub open spec fn forward_signal_spec(sig: int) -> bool {
    1 <= sig <= MAX_STD_SIGNAL && sig != SIGCHLD && !kernel_forbidden_signal(sig)
}

/// Decides whether the init supervisor installs a handler forwarding `sig`
/// to the application root process.
pub fn should_forward_signal(sig: i32) -> (r: bool)
    ensures
        r == forward_signal_spec(sig as int),
{
    1 <= sig && sig <= MAX_STD_SIGNAL && sig != SIGCHLD
        && !(sig == SIGKILL || sig == SIGSTOP || sig == SIGFPE || sig == SIGILL
            || sig == SIGSEGV || sig == SIGBUS)
}

/// The supervisor never forwards `SIGCHLD`, `SIGKILL`, `SIGSTOP`, `SIGFPE`,
/// `SIGILL`, `SIGSEGV`, or `SIGBUS` to the application.
pub proof fn lemma_protected_signals_never_forwarded()
    ensures
        forall|sig: int|
            sig == SIGCHLD || kernel_forbidden_signal(sig) ==> !forward_signal_spec(sig),
{
}

/// What the reaper learned from one `wait()`.
#[derive(Clone, Copy, Debug, PartialEq, Eq, Structural)]
pub enum WaitOutcome {
    /// A child exited on its own with `code`.
    Exited { pid: i32, code: i32 },
    /// A child was killed by signal `sig`.
    Signaled { pid: i32, sig: i32 },
    /// Anything else (stopped, continued): not a death.
    Other,
}

/// What the reaper does next.
#[derive(Clone, Copy, Debug, PartialEq, Eq, Structural)]
pub enum ReapAction {
    /// An orphaned grandchild died: reap silently and keep waiting.
    KeepWaiting,
    /// The application root died: kill the process group rooted at
    /// `kill_group_pid` and exit with `exit_code`.
    AppDied { kill_group_pid: i32, exit_code: u8 },
}

/// A wait outcome as the kernel reports it: exit codes fit in a byte and
/// standard signals are in the platform range.
pub open spec fn wait_outcome_wf(o: WaitOutcome) -> bool {
    match o {
        WaitOutcome::Exited { pid, code } => 0 <= code <= 255,
        WaitOutcome::Signaled { pid, sig } => 1 <= sig <= MAX_STD_SIGNAL,
        WaitOutcome::Other => true,
    }
}

/// The reaper's decision: exit of the application root with code `c` exits
/// the supervisor with `c`; death of the application root by signal `s`
/// exits with `128 + s`; either kills the group rooted at the application
/// root first. Every other child is reaped silently.
pub open spec fn monitor_step_spec(o: WaitOutcome) -> ReapAction {
    match o {
        WaitOutcome::Exited { pid, code } => if pid == APP_ROOT_PID {
            ReapAction::AppDied { kill_group_pid: APP_ROOT_PID, exit_code: code as u8 }
        } else {
            ReapAction::KeepWaiting
        },
        WaitOutcome::Signaled { pid, sig } => if pid == APP_ROOT_PID {
            ReapAction::AppDied { kill_group_pid: APP_ROOT_PID, exit_code: (128 + sig) as u8 }
        } else {
            ReapAction::KeepWaiting
        },
        WaitOutcome::Other => ReapAction::KeepWaiting,
    }
}

/// One step of the init supervisor's reap loop.
pub fn monitor_step(o: &WaitOutcome) -> (r: ReapAction)
    requires
        wait_outcome_wf(*o),
    ensures
        r == monitor_step_spec(*o),
{
    match *o {
        WaitOutcome::Exited { pid, code } => if pid == APP_ROOT_PID {
            ReapAction::AppDied { kill_group_pid: APP_ROOT_PID, exit_code: code as u8 }
        } else {
            ReapAction::KeepWaiting
        },
        WaitOutcome::Signaled { pid, sig } => if pid == APP_ROOT_PID {
            ReapAction::AppDied { kill_group_pid: APP_ROOT_PID, exit_code: (128 + sig) as u8 }
        } else {
            ReapAction::KeepWaiting
        },
        WaitOutcome::Other => ReapAction::KeepWaiting,
    }
}

/// Outcome of the supervisor's own PID check before spawning anything.
#[derive(Clone, Copy, Debug, PartialEq, Eq, Structural)]
pub enum PidCheck {
    /// The supervisor PID is strictly below the application root PID.
    Proceed,
    /// The supervisor PID would collide with restored PIDs: drive the
    /// kernel's `ns_last_pid` down to the carried value and ask the caller
    /// to retry.
    Conflict { reset_ns_last_pid: i32 },
}

/// The supervisor may only proceed when its PID is strictly less than the
/// application root PID; otherwise it heals the namespace by resetting
/// `ns_last_pid` to `MIN_PID` and fails.
pub fn ensure_non_conflicting_pid(supervisor_pid: u32) -> (r: PidCheck)
    ensures
        supervisor_pid >= APP_ROOT_PID ==> r == (PidCheck::Conflict {
            reset_ns_last_pid: MIN_PID,
        }),
        supervisor_pid < APP_ROOT_PID ==> r == PidCheck::Proceed,
{
    if supervisor_pid >= APP_ROOT_PID as u32 {
        PidCheck::Conflict { reset_ns_last_pid: MIN_PID }
    } else {
        PidCheck::Proceed
    }
}

/// A PID conflict is self-healing: after `ns_last_pid` is reset to
/// `MIN_PID`, the next PID the kernel hands out is strictly below the
/// application root PID, so the following invocation passes the check.
pub proof fn lemma_pid_conflict_self_healing()
    ensures
        MIN_PID + 1 < APP_ROOT_PID,
{
}

} // verus!
