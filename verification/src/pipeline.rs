//! The restore and cold-start pipelines as state machines: each pipeline
//! hands the front end one step at a time, in a fixed order, so the ordering
//! guarantees (filesystem before configuration, configuration before the PID
//! daemon, socket readiness before the engine, virtualization before the
//! application) hold by construction.

use vstd::prelude::*;
use crate::command::env_plan_view;
use crate::command::ops_view;
use crate::command::plan_app_env;
use crate::command::Command;
use crate::consts::APP_ROOT_PID;
use crate::consts::EXIT_CODE_RESTORE_FAILURE;
use crate::error::Error;
use crate::error::ErrorKind;
use crate::supervisor::SIGKILL;

verus! {

/// The steps of the restore pipeline, in the order they are issued.
#[derive(Clone, Copy, Debug, PartialEq, Eq, Structural)]
pub enum RestoreStep {
    /// Spawn the image streamer in serve mode with the shard count.
    SpawnStreamer,
    /// Spawn the shell child downloading shard `index` into its shard pipe;
    /// the pairing is positional by shard order in the manifest.
    SpawnDownloader { index: usize },
    /// Spawn the untar stage on the tar-fs pipe and wait for it to exit
    /// successfully: the configuration and time offset must be on disk
    /// before anything later runs.
    RunUntar,
    /// Load the restored configuration, merge the caller's preserved paths
    /// and the restore-time URL into it, and save it back.
    MergeConfig,
    /// Re-write the virtual-clock offsets from the merged clock.
    AdjustClock,
    /// Start the PID-injection helper as a daemon member.
    SpawnPidDaemon,
    /// Wait for the streamer's statistics and surface them.
    AwaitStats,
    /// Wait for the streamer to report its socket ready.
    AwaitSocket,
    /// Spawn the restore engine; it re-creates the process tree, reparenting
    /// the application root to the supervisor.
    SpawnEngine,
    /// Wait for every monitored group member to succeed.
    AwaitGroup,
    /// The restore finished: the application is ready.
    RestoreDone,
}

/// The position of a step in the pipeline's order; downloader steps are
/// ordered by shard index between the streamer and the untar stage.
pub open spec fn restore_rank(step: RestoreStep, num_shards: int) -> int {
    match step {
        RestoreStep::SpawnStreamer => 0,
        RestoreStep::SpawnDownloader { index } => 1 + index,
        RestoreStep::RunUntar => 1 + num_shards,
        RestoreStep::MergeConfig => 2 + num_shards,
        RestoreStep::AdjustClock => 3 + num_shards,
        RestoreStep::SpawnPidDaemon => 4 + num_shards,
        RestoreStep::AwaitStats => 5 + num_shards,
        RestoreStep::AwaitSocket => 6 + num_shards,
        RestoreStep::SpawnEngine => 7 + num_shards,
        RestoreStep::AwaitGroup => 8 + num_shards,
        RestoreStep::RestoreDone => 9 + num_shards,
    }
}

/// The step that follows a completed step.
pub open spec fn restore_successor(step: RestoreStep, num_shards: int) -> RestoreStep {
    match step {
        RestoreStep::SpawnStreamer => if num_shards == 0 {
            RestoreStep::RunUntar
        } else {
            RestoreStep::SpawnDownloader { index: 0 }
        },
        RestoreStep::SpawnDownloader { index } => if index + 1 < num_shards {
            RestoreStep::SpawnDownloader { index: (index + 1) as usize }
        } else {
            RestoreStep::RunUntar
        },
        RestoreStep::RunUntar => RestoreStep::MergeConfig,
        RestoreStep::MergeConfig => RestoreStep::AdjustClock,
        RestoreStep::AdjustClock => RestoreStep::SpawnPidDaemon,
        RestoreStep::SpawnPidDaemon => RestoreStep::AwaitStats,
        RestoreStep::AwaitStats => RestoreStep::AwaitSocket,
        RestoreStep::AwaitSocket => RestoreStep::SpawnEngine,
        RestoreStep::SpawnEngine => RestoreStep::AwaitGroup,
        RestoreStep::AwaitGroup => RestoreStep::RestoreDone,
        RestoreStep::RestoreDone => RestoreStep::RestoreDone,
    }
}

/// The restore pipeline: how many shards the image has and the step the
/// front end must perform next.
pub struct RestorePipeline {
    pub num_shards: usize,
    pub step: RestoreStep,
}

impl RestorePipeline {
    /// A downloader step never addresses a shard the image does not have.
    pub open spec fn wf(&self) -> bool {
        self.step matches RestoreStep::SpawnDownloader { index } ==> index < self.num_shards
    }

    /// Begins a restore over an image of `num_shards` shards: the streamer
    /// is spawned first.
    pub fn start(num_shards: usize) -> (p: RestorePipeline)
        ensures
            p.num_shards == num_shards,
            p.step == RestoreStep::SpawnStreamer,
            p.wf(),
    {
        RestorePipeline { num_shards, step: RestoreStep::SpawnStreamer }
    }

    /// The step to perform next.
    pub fn current_step(&self) -> (s: RestoreStep)
        ensures
            s == self.step,
    {
        self.step
    }

    /// Marks the current step complete and moves to its successor.
    pub fn advance(&mut self)
        requires
            old(self).wf(),
        ensures
            final(self).num_shards == old(self).num_shards,
            final(self).step == restore_successor(old(self).step, old(self).num_shards as int),
            final(self).wf(),
    {
        let next = match self.step {
            RestoreStep::SpawnStreamer => if self.num_shards == 0 {
                RestoreStep::RunUntar
            } else {
                RestoreStep::SpawnDownloader { index: 0 }
            },
            RestoreStep::SpawnDownloader { index } => if index + 1 < self.num_shards {
                RestoreStep::SpawnDownloader { index: index + 1 }
            } else {
                RestoreStep::RunUntar
            },
            RestoreStep::RunUntar => RestoreStep::MergeConfig,
            RestoreStep::MergeConfig => RestoreStep::AdjustClock,
            RestoreStep::AdjustClock => RestoreStep::SpawnPidDaemon,
            RestoreStep::SpawnPidDaemon => RestoreStep::AwaitStats,
            RestoreStep::AwaitStats => RestoreStep::AwaitSocket,
            RestoreStep::AwaitSocket => RestoreStep::SpawnEngine,
            RestoreStep::SpawnEngine => RestoreStep::AwaitGroup,
            RestoreStep::AwaitGroup => RestoreStep::RestoreDone,
            RestoreStep::RestoreDone => RestoreStep::RestoreDone,
        };
        self.step = next;
    }
}

/// The pipeline only moves forward, and the order encodes the guarantees:
/// the filesystem is untarred before the configuration is read; the
/// configuration is saved before the PID daemon starts; the streamer's
/// socket is ready before the engine is spawned.
pub proof fn lemma_restore_order(step: RestoreStep, num_shards: usize)
    requires
        step matches RestoreStep::SpawnDownloader { index } ==> index < num_shards,
    ensures
        step != RestoreStep::RestoreDone ==> restore_rank(
            restore_successor(step, num_shards as int),
            num_shards as int,
        ) > restore_rank(step, num_shards as int),
        restore_rank(RestoreStep::RunUntar, num_shards as int) < restore_rank(
            RestoreStep::MergeConfig,
            num_shards as int,
        ),
        restore_rank(RestoreStep::MergeConfig, num_shards as int) < restore_rank(
            RestoreStep::SpawnPidDaemon,
            num_shards as int,
        ),
        restore_rank(RestoreStep::AwaitSocket, num_shards as int) < restore_rank(
            RestoreStep::SpawnEngine,
            num_shards as int,
        ),
{
}

/// The step the pipeline issues `k` steps after starting.
pub open spec fn restore_step_at(num_shards: int, k: int) -> RestoreStep
    decreases k,
{
    if k <= 0 {
        RestoreStep::SpawnStreamer
    } else {
        restore_successor(restore_step_at(num_shards, k - 1), num_shards)
    }
}

/// The schedule is complete: every shard gets its downloader step, one per
/// shard in shard order, and the untar stage follows the last of them.
pub proof fn lemma_restore_schedule_covers_shards(num_shards: usize, i: usize)
    requires
        i < num_shards,
    ensures
        restore_step_at(num_shards as int, 1 + i as int) == (RestoreStep::SpawnDownloader {
            index: i,
        }),
        restore_step_at(num_shards as int, 1 + num_shards as int) == RestoreStep::RunUntar,
    decreases i,
{
    if i == 0 {
        assert(restore_step_at(num_shards as int, 0) == RestoreStep::SpawnStreamer);
        assert(restore_step_at(num_shards as int, 1) == restore_successor(
            RestoreStep::SpawnStreamer,
            num_shards as int,
        ));
    } else {
        lemma_restore_schedule_covers_shards(num_shards, (i - 1) as usize);
    }
    lemma_restore_schedule_ends_in_untar(num_shards, (num_shards - 1) as usize);
}

/// After the last shard's downloader, the next step is the untar stage.
proof fn lemma_restore_schedule_ends_in_untar(num_shards: usize, last: usize)
    requires
        num_shards >= 1,
        last + 1 == num_shards,
    ensures
        restore_step_at(num_shards as int, 1 + last as int) == (RestoreStep::SpawnDownloader {
            index: last,
        }),
        restore_step_at(num_shards as int, 1 + num_shards as int) == RestoreStep::RunUntar,
    decreases last,
{
    if last == 0 {
        assert(restore_step_at(num_shards as int, 0) == RestoreStep::SpawnStreamer);
        assert(restore_step_at(num_shards as int, 1) == restore_successor(
            RestoreStep::SpawnStreamer,
            num_shards as int,
        ));
    } else {
        lemma_restore_schedule_ends_in_untar_helper(num_shards, last);
    }
}

/// Each downloader step follows the previous one.
proof fn lemma_restore_schedule_ends_in_untar_helper(num_shards: usize, i: usize)
    requires
        1 <= i < num_shards,
    ensures
        restore_step_at(num_shards as int, 1 + i as int) == (RestoreStep::SpawnDownloader {
            index: i,
        }),
    decreases i,
{
    if i == 1 {
        assert(restore_step_at(num_shards as int, 0) == RestoreStep::SpawnStreamer);
        assert(restore_step_at(num_shards as int, 1) == restore_successor(
            RestoreStep::SpawnStreamer,
            num_shards as int,
        ));
    } else {
        lemma_restore_schedule_ends_in_untar_helper(num_shards, (i - 1) as usize);
    }
}

/// On any restore failure the whole process group rooted at the application
/// root is killed outright, and the failure surfaces with the
/// restore-failure exit code.
pub struct KillGroup {
    pub pgid: i32,
    pub sig: i32,
}

/// What a failed restore does: SIGKILL to the group rooted at the
/// application root PID (best effort), and the error to surface.
pub fn restore_failure_action() -> (r: (KillGroup, Error))
    ensures
        r.0.pgid == APP_ROOT_PID,
        r.0.sig == SIGKILL,
        r.1.kind == ErrorKind::PipelineError,
        r.1.exit_code == EXIT_CODE_RESTORE_FAILURE,
{
    (
        KillGroup { pgid: APP_ROOT_PID, sig: SIGKILL },
        Error::restore_failure(ErrorKind::PipelineError),
    )
}

/// The steps of the cold-start pipeline, in the order they are issued.
#[derive(Clone, Copy, Debug, PartialEq, Eq, Structural)]
pub enum ColdStartStep {
    /// Save the initial configuration (clock zero).
    SaveConfig,
    /// Write the initial (zero) virtual-clock offsets.
    WriteClock,
    /// Enable system-wide virtualization; idempotent, and any failure is
    /// surfaced, never swallowed.
    EnableVirtualization,
    /// Spawn the application at the reserved root PID, in its own session.
    SpawnApp,
    /// Check the PID the spawn actually landed on.
    ConfirmPid,
    /// The application runs at the reserved root PID.
    Ready,
}

/// The position of a cold-start step in the pipeline's order.
pub open spec fn cold_rank(step: ColdStartStep) -> int {
    match step {
        ColdStartStep::SaveConfig => 0,
        ColdStartStep::WriteClock => 1,
        ColdStartStep::EnableVirtualization => 2,
        ColdStartStep::SpawnApp => 3,
        ColdStartStep::ConfirmPid => 4,
        ColdStartStep::Ready => 5,
    }
}

/// The step that follows a completed cold-start step. Spawning hands over
/// to the PID check; only the check moves the pipeline to ready.
pub open spec fn cold_successor(step: ColdStartStep) -> ColdStartStep {
    match step {
        ColdStartStep::SaveConfig => ColdStartStep::WriteClock,
        ColdStartStep::WriteClock => ColdStartStep::EnableVirtualization,
        ColdStartStep::EnableVirtualization => ColdStartStep::SpawnApp,
        ColdStartStep::SpawnApp => ColdStartStep::ConfirmPid,
        ColdStartStep::ConfirmPid => ColdStartStep::ConfirmPid,
        ColdStartStep::Ready => ColdStartStep::Ready,
    }
}

/// The cold-start pipeline: the next step, and, once confirmed, the PID the
/// application root runs at.
pub struct ColdStartPipeline {
    pub step: ColdStartStep,
    pub root_pid: Option<i32>,
}

impl ColdStartPipeline {
    /// Once ready, the application root runs at exactly the reserved PID.
    pub open spec fn wf(&self) -> bool {
        self.step == ColdStartStep::Ready ==> self.root_pid == Option::Some(APP_ROOT_PID)
    }

    /// Begins a cold start: the configuration is saved first.
    pub fn start() -> (p: ColdStartPipeline)
        ensures
            p.step == ColdStartStep::SaveConfig,
            p.root_pid is None,
            p.wf(),
    {
        ColdStartPipeline { step: ColdStartStep::SaveConfig, root_pid: Option::None }
    }

    /// The step to perform next.
    pub fn current_step(&self) -> (s: ColdStartStep)
        ensures
            s == self.step,
    {
        self.step
    }

    /// The PID the application must be spawned at: always the reserved root
    /// PID.
    pub fn spawn_target_pid(&self) -> (pid: i32)
        ensures
            pid == APP_ROOT_PID,
    {
        APP_ROOT_PID
    }

    /// Marks the current step complete and moves to its successor; the PID
    /// check itself only completes through [`Self::confirm_pid`].
    pub fn advance(&mut self)
        requires
            old(self).wf(),
        ensures
            final(self).step == cold_successor(old(self).step),
            final(self).root_pid == old(self).root_pid,
            final(self).wf(),
    {
        let next = match self.step {
            ColdStartStep::SaveConfig => ColdStartStep::WriteClock,
            ColdStartStep::WriteClock => ColdStartStep::EnableVirtualization,
            ColdStartStep::EnableVirtualization => ColdStartStep::SpawnApp,
            ColdStartStep::SpawnApp => ColdStartStep::ConfirmPid,
            ColdStartStep::ConfirmPid => ColdStartStep::ConfirmPid,
            ColdStartStep::Ready => ColdStartStep::Ready,
        };
        self.step = next;
    }

    /// Checks the PID the spawn landed on: the pipeline becomes ready
    /// exactly when it is the reserved root PID; any other PID is a PID
    /// allocation failure and the pipeline stays where it was.
    pub fn confirm_pid(&mut self, actual_pid: i32) -> (r: Result<(), Error>)
        requires
            old(self).step == ColdStartStep::ConfirmPid,
            old(self).wf(),
        ensures
            final(self).wf(),
            actual_pid == APP_ROOT_PID <==> r is Ok,
            r is Ok ==> final(self).step == ColdStartStep::Ready && final(self).root_pid
                == Option::Some(APP_ROOT_PID),
            r matches Err(e) ==> e.kind == ErrorKind::PidAllocationError && e.exit_code
                == crate::consts::EXIT_CODE_FAILURE && *final(self) == *old(self),
    {
        if actual_pid == APP_ROOT_PID {
            self.step = ColdStartStep::Ready;
            self.root_pid = Option::Some(actual_pid);
            Ok(())
        } else {
            Err(Error::pre_ready(ErrorKind::PidAllocationError))
        }
    }
}

/// Every successful cold start has the application root at exactly the
/// reserved root PID.
pub proof fn lemma_cold_start_root_pid(p: ColdStartPipeline)
    requires
        p.wf(),
        p.step == ColdStartStep::Ready,
    ensures
        p.root_pid == Option::Some(APP_ROOT_PID),
{
}

/// The cold-start order encodes its guarantee: virtualization is enabled
/// before the application is spawned, and the pipeline only moves forward.
pub proof fn lemma_cold_start_order(step: ColdStartStep)
    ensures
        !(step == ColdStartStep::ConfirmPid || step == ColdStartStep::Ready) ==> cold_rank(
            cold_successor(step),
        ) > cold_rank(step),
        cold_rank(ColdStartStep::EnableVirtualization) < cold_rank(ColdStartStep::SpawnApp),
{
}

/// Builds the application's command for a cold start: the given arguments,
/// run in a fresh session, with the supervisor environment's dedicated and
/// injected variables applied to the child.
pub fn build_app_command(app_cmd: Vec<String>, env: &Vec<(String, String)>) -> (c: Command)
    requires
        app_cmd@.len() >= 1,
    ensures
        c.argv@ == app_cmd@,
        c.new_session == true,
        c.show_cmd_on_spawn == true,
        ops_view(c.env_ops@) == env_plan_view(env@),
{
    let mut cmd = Command::new(app_cmd);
    plan_app_env(&mut cmd, env);
    cmd.setsid();
    proof {
        assert(ops_view(cmd.env_ops@) =~= env_plan_view(env@));
    }
    cmd
}

} // verus!
