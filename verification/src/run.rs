//! The run command: its arguments and the top-level orchestration. The
//! supervisor takes the host-scoped lock, smoke-tests the engine, checks its
//! own PID, prepares the store, decides between restore and cold start,
//! runs the chosen pipeline, releases the lock, optionally fires the ready
//! command, and then (unless detached) assumes the init role.

use vstd::prelude::*;

verus! {

/// The arguments of the run command. `app_args` are used only on a cold
/// start; `preserved_paths` are already split into single paths.
pub struct Run {
    pub image_url: String,
    pub app_args: Vec<String>,
    pub on_app_ready_cmd: Option<String>,
    pub no_restore: bool,
    pub allow_bad_image_version: bool,
    pub preserved_paths: Vec<String>,
    pub leave_stopped: bool,
    pub verbose: u8,
    pub detach: bool,
}

/// The stages of one run invocation, in the order they happen.
#[derive(Clone, Copy, Debug, PartialEq, Eq, Structural)]
pub enum RunStep {
    /// Take the host-scoped checkpoint/restore lock.
    AcquireLock,
    /// Smoke-test the checkpoint engine (this also verifies the
    /// parent-sharing configuration the init role depends on).
    SmokeCheck,
    /// Fail unless the supervisor's PID is below the application root PID.
    PidCheck,
    /// Prepare the store for writes, so a later checkpoint is fast.
    PrepareStore,
    /// Fetch and classify the manifest; skipped when restore is disabled.
    DetermineMode,
    /// Run the restore pipeline.
    ExecuteRestore,
    /// Run the cold-start pipeline.
    ExecuteColdStart,
    /// Release the host-scoped lock: monitoring never holds it.
    ReleaseLock,
    /// Fire-and-forget the user's ready command.
    FireReadyCmd,
    /// Assume the init role for the application's lifetime.
    MonitorApp,
    /// Exit immediately, leaving the application running (testing only).
    Detached,
}

/// The position of a stage in the run's order.
pub open spec fn run_rank(step: RunStep) -> int {
    match step {
        RunStep::AcquireLock => 0,
        RunStep::SmokeCheck => 1,
        RunStep::PidCheck => 2,
        RunStep::PrepareStore => 3,
        RunStep::DetermineMode => 4,
        RunStep::ExecuteRestore => 5,
        RunStep::ExecuteColdStart => 5,
        RunStep::ReleaseLock => 6,
        RunStep::FireReadyCmd => 7,
        RunStep::MonitorApp => 8,
        RunStep::Detached => 8,
    }
}

/// The stage that follows a completed stage. `restore_mode` is what mode
/// determination yielded (meaningful only there): restore runs the restore
/// pipeline, everything else cold-starts. Disabling restore skips mode
/// determination entirely, and absence of a ready command skips firing it.
pub open spec fn run_successor(step: RunStep, run: Run, restore_mode: bool) -> RunStep {
    match step {
        RunStep::AcquireLock => RunStep::SmokeCheck,
        RunStep::SmokeCheck => RunStep::PidCheck,
        RunStep::PidCheck => RunStep::PrepareStore,
        RunStep::PrepareStore => if run.no_restore {
            RunStep::ExecuteColdStart
        } else {
            RunStep::DetermineMode
        },
        RunStep::DetermineMode => if restore_mode {
            RunStep::ExecuteRestore
        } else {
            RunStep::ExecuteColdStart
        },
        RunStep::ExecuteRestore => RunStep::ReleaseLock,
        RunStep::ExecuteColdStart => RunStep::ReleaseLock,
        RunStep::ReleaseLock => if run.on_app_ready_cmd is Some {
            RunStep::FireReadyCmd
        } else if run.detach {
            RunStep::Detached
        } else {
            RunStep::MonitorApp
        },
        RunStep::FireReadyCmd => if run.detach {
            RunStep::Detached
        } else {
            RunStep::MonitorApp
        },
        RunStep::MonitorApp => RunStep::MonitorApp,
        RunStep::Detached => RunStep::Detached,
    }
}

/// One run invocation's progress.
pub struct RunSession {
    pub step: RunStep,
}

impl RunSession {
    /// A run begins by taking the host-scoped lock.
    pub fn start() -> (s: RunSession)
        ensures
            s.step == RunStep::AcquireLock,
    {
        RunSession { step: RunStep::AcquireLock }
    }

    /// The stage to perform next.
    pub fn current_step(&self) -> (s: RunStep)
        ensures
            s == self.step,
    {
        self.step
    }

    /// Marks the current stage complete and moves to its successor.
    /// `restore_mode` says whether mode determination chose restore; it is
    /// ignored at every other stage.
    pub fn advance(&mut self, run: &Run, restore_mode: bool)
        ensures
            final(self).step == run_successor(old(self).step, *run, restore_mode),
    {
        let next = match self.step {
            RunStep::AcquireLock => RunStep::SmokeCheck,
            RunStep::SmokeCheck => RunStep::PidCheck,
            RunStep::PidCheck => RunStep::PrepareStore,
            RunStep::PrepareStore => if run.no_restore {
                RunStep::ExecuteColdStart
            } else {
                RunStep::DetermineMode
            },
            RunStep::DetermineMode => if restore_mode {
                RunStep::ExecuteRestore
            } else {
                RunStep::ExecuteColdStart
            },
            RunStep::ExecuteRestore => RunStep::ReleaseLock,
            RunStep::ExecuteColdStart => RunStep::ReleaseLock,
            RunStep::ReleaseLock => match &run.on_app_ready_cmd {
                Option::Some(_) => RunStep::FireReadyCmd,
                Option::None => if run.detach {
                    RunStep::Detached
                } else {
                    RunStep::MonitorApp
                },
            },
            RunStep::FireReadyCmd => if run.detach {
                RunStep::Detached
            } else {
                RunStep::MonitorApp
            },
            RunStep::MonitorApp => RunStep::MonitorApp,
            RunStep::Detached => RunStep::Detached,
        };
        self.step = next;
    }
}

/// The run only moves forward; in particular the lock, taken first, is
/// released after the pipeline and before monitoring begins, and the
/// application is running (its pipeline finished) before the init role
/// forwards any signal.
pub proof fn lemma_run_order(step: RunStep, run: Run, restore_mode: bool)
    ensures
        !(step == RunStep::MonitorApp || step == RunStep::Detached) ==> run_rank(
            run_successor(step, run, restore_mode),
        ) > run_rank(step),
        run_rank(RunStep::ExecuteRestore) < run_rank(RunStep::ReleaseLock),
        run_rank(RunStep::ExecuteColdStart) < run_rank(RunStep::ReleaseLock),
        run_rank(RunStep::ReleaseLock) < run_rank(RunStep::MonitorApp),
{
}

/// Disabling restore never determines a mode and always cold-starts.
pub proof fn lemma_no_restore_cold_starts(run: Run, restore_mode: bool)
    requires
        run.no_restore,
    ensures
        run_successor(RunStep::PrepareStore, run, restore_mode) == RunStep::ExecuteColdStart,
{
}

} // verus!
