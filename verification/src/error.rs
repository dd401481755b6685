//! The failure kinds the supervisor distinguishes, each annotated with the
//! exit code the supervisor process reports for it.

use vstd::prelude::*;
use crate::consts::EXIT_CODE_FAILURE;
use crate::consts::EXIT_CODE_RESTORE_FAILURE;

verus! {

/// What went wrong. Manifest absence and version mismatch are not errors:
/// both fall back to a cold start and never appear here.
#[derive(Clone, Copy, Debug, PartialEq, Eq, Structural)]
pub enum ErrorKind {
    /// The persisted application configuration is missing or invalid.
    ConfigError,
    /// URL parsing, manifest fetch, or a download command failed.
    StoreError,
    /// A child of the restore or cold-start process group failed.
    PipelineError,
    /// The supervisor's own PID conflicts with the application root PID, or
    /// the application was spawned at the wrong PID.
    PidAllocationError,
    /// The host-scoped checkpoint/restore lock could not be taken.
    LockError,
    /// A control-socket request could not be honored.
    ControlProtocolError,
}

/// A failure together with the exit code the supervisor reports for it.
#[derive(Clone, Copy, Debug, PartialEq, Eq, Structural)]
pub struct Error {
    pub kind: ErrorKind,
    pub exit_code: u8,
}

impl Error {
    /// A failure before the application was ready: reported with the
    /// generic pre-ready exit code.
    pub fn pre_ready(kind: ErrorKind) -> (e: Error)
        ensures
            e.kind == kind,
            e.exit_code == EXIT_CODE_FAILURE,
    {
        Error { kind, exit_code: EXIT_CODE_FAILURE }
    }

    /// A failure during restore or while fetching the image manifest:
    /// reported with the restore-failure exit code, so the caller knows
    /// that retrying with restore disabled avoids it.
    pub fn restore_failure(kind: ErrorKind) -> (e: Error)
        ensures
            e.kind == kind,
            e.exit_code == EXIT_CODE_RESTORE_FAILURE,
    {
        Error { kind, exit_code: EXIT_CODE_RESTORE_FAILURE }
    }
}

} // verus!
