use fastfreeze::command::Command;
use fastfreeze::command::EnvOp;
use fastfreeze::consts::APP_ROOT_PID;
use fastfreeze::consts::EXIT_CODE_FAILURE;
use fastfreeze::consts::EXIT_CODE_RESTORE_FAILURE;
use fastfreeze::error::ErrorKind;
use fastfreeze::pgroup::note_reaped;
use fastfreeze::pgroup::unreaped_members;
use fastfreeze::pgroup::ChildStatus;
use fastfreeze::pgroup::GroupVerdict;
use fastfreeze::pgroup::Process;
use fastfreeze::pgroup::ProcessGroup;
use fastfreeze::pipeline::build_app_command;
use fastfreeze::pipeline::restore_failure_action;
use fastfreeze::pipeline::ColdStartPipeline;
use fastfreeze::pipeline::ColdStartStep;
use fastfreeze::pipeline::RestorePipeline;
use fastfreeze::pipeline::RestoreStep;
use fastfreeze::run::Run;
use fastfreeze::run::RunSession;
use fastfreeze::run::RunStep;
use fastfreeze::supervisor::SIGKILL;

fn strings(ps: &[&str]) -> Vec<String> {
    ps.iter().map(|p| String::from(*p)).collect()
}

#[test]
fn command_new_keeps_argv_and_display() {
    let c = Command::new(strings(&["/bin/echo", "hello"]));
    assert_eq!(c.argv, strings(&["/bin/echo", "hello"]));
    assert_eq!(c.display_args, strings(&["/bin/echo", "hello"]));
    assert!(!c.new_session);
    assert!(c.show_cmd_on_spawn);
    assert!(c.env_ops.is_empty());
}

#[test]
fn command_new_shell_wraps_in_bash_with_pipefail() {
    let c = Command::new_shell("cat /tmp/img/1.ffs");
    assert_eq!(c.argv, strings(&["/bin/bash", "-o", "pipefail", "-c", "cat /tmp/img/1.ffs"]));
    assert_eq!(c.display_args, strings(&["cat /tmp/img/1.ffs"]));
}

#[test]
fn display_cmd_joins_with_spaces() {
    let mut c = Command::new(strings(&["tar", "-xf"]));
    c.arg(String::from("-"));
    assert_eq!(c.display_cmd(), "tar -xf -");
    let empty_display = Command::new(strings(&["x"]));
    assert_eq!(empty_display.display_cmd(), "x");
}

#[test]
fn command_env_edits_are_recorded_in_order() {
    let mut c = Command::new(strings(&["app"]));
    c.env(String::from("A"), String::from("1"));
    c.env_remove(String::from("B"));
    c.env_clear();
    c.envs(vec![(String::from("C"), String::from("3"))]);
    assert_eq!(c.env_ops.len(), 4);
    assert!(matches!(&c.env_ops[0], EnvOp::SetVar { key, val } if key == "A" && val == "1"));
    assert!(matches!(&c.env_ops[1], EnvOp::RemoveVar { key } if key == "B"));
    assert!(matches!(&c.env_ops[2], EnvOp::ClearAll));
    assert!(matches!(&c.env_ops[3], EnvOp::SetVar { key, val } if key == "C" && val == "3"));
}

#[test]
fn app_command_substitutes_and_injects_environment() {
    let env = vec![
        (String::from("FF_APP_PATH"), String::from("/opt/bin")),
        (String::from("HOME"), String::from("/root")),
        (String::from("FF_APP_LD_LIBRARY_PATH"), String::from("/opt/lib")),
        (String::from("FF_APP_INJECT_LD_PRELOAD"), String::from("/opt/lib/libx.so")),
    ];
    let c = build_app_command(strings(&["/bin/echo", "hello"]), &env);
    assert_eq!(c.argv, strings(&["/bin/echo", "hello"]));
    assert!(c.new_session);
    assert_eq!(c.env_ops.len(), 5);
    assert!(matches!(&c.env_ops[0], EnvOp::RemoveVar { key } if key == "FF_APP_PATH"));
    assert!(
        matches!(&c.env_ops[1], EnvOp::SetVar { key, val } if key == "PATH" && val == "/opt/bin")
    );
    assert!(matches!(&c.env_ops[2], EnvOp::RemoveVar { key } if key == "FF_APP_LD_LIBRARY_PATH"));
    assert!(
        matches!(&c.env_ops[3], EnvOp::SetVar { key, val }
            if key == "LD_LIBRARY_PATH" && val == "/opt/lib")
    );
    assert!(
        matches!(&c.env_ops[4], EnvOp::SetVar { key, val }
            if key == "LD_PRELOAD" && val == "/opt/lib/libx.so")
    );
}

#[test]
fn group_succeeds_when_all_monitored_members_exit_zero() {
    let mut g = ProcessGroup::new();
    let a = Process { pid: 500, display_cmd: String::from("streamer") };
    let b = Process { pid: 501, display_cmd: String::from("engine") };
    let d = Process { pid: 502, display_cmd: String::from("pid-daemon") };
    let ia = a.join(&mut g);
    let ib = b.join(&mut g);
    let _id = d.join_as_daemon(&mut g);
    assert_eq!(note_reaped(&mut g, ia, ChildStatus::Exited { code: 0 }), GroupVerdict::Pending);
    assert_eq!(
        note_reaped(&mut g, ib, ChildStatus::Exited { code: 0 }),
        GroupVerdict::AllSucceeded
    );
}

#[test]
fn first_monitored_failure_tears_the_group_down() {
    let mut g = ProcessGroup::new();
    let a = Process { pid: 500, display_cmd: String::from("streamer") };
    let b = Process { pid: 501, display_cmd: String::from("downloader") };
    let ia = a.join(&mut g);
    let ib = b.join(&mut g);
    let v = note_reaped(&mut g, ib, ChildStatus::Exited { code: 3 });
    assert_eq!(v, GroupVerdict::MemberFailed { index: ib });
    let live = unreaped_members(&g);
    assert_eq!(live, vec![ia]);
}

#[test]
fn daemon_death_does_not_fail_the_group() {
    let mut g = ProcessGroup::new();
    let a = Process { pid: 500, display_cmd: String::from("engine") };
    let d = Process { pid: 502, display_cmd: String::from("pid-daemon") };
    let ia = a.join(&mut g);
    let id = d.join_as_daemon(&mut g);
    assert_eq!(
        note_reaped(&mut g, id, ChildStatus::Signaled { sig: SIGKILL }),
        GroupVerdict::Pending
    );
    assert_eq!(
        note_reaped(&mut g, ia, ChildStatus::Exited { code: 0 }),
        GroupVerdict::AllSucceeded
    );
}

#[test]
fn restore_pipeline_issues_steps_in_order() {
    let mut p = RestorePipeline::start(2);
    let mut steps = Vec::new();
    for _ in 0..12 {
        steps.push(p.current_step());
        if p.current_step() == RestoreStep::RestoreDone {
            break;
        }
        p.advance();
    }
    assert_eq!(
        steps,
        vec![
            RestoreStep::SpawnStreamer,
            RestoreStep::SpawnDownloader { index: 0 },
            RestoreStep::SpawnDownloader { index: 1 },
            RestoreStep::RunUntar,
            RestoreStep::MergeConfig,
            RestoreStep::AdjustClock,
            RestoreStep::SpawnPidDaemon,
            RestoreStep::AwaitStats,
            RestoreStep::AwaitSocket,
            RestoreStep::SpawnEngine,
            RestoreStep::AwaitGroup,
            RestoreStep::RestoreDone,
        ]
    );
}

#[test]
fn restore_pipeline_without_shards_skips_downloaders() {
    let mut p = RestorePipeline::start(0);
    assert_eq!(p.current_step(), RestoreStep::SpawnStreamer);
    p.advance();
    assert_eq!(p.current_step(), RestoreStep::RunUntar);
}

#[test]
fn restore_failure_kills_the_app_group_and_exits_171() {
    let (kill, e) = restore_failure_action();
    assert_eq!(kill.pgid, APP_ROOT_PID);
    assert_eq!(kill.sig, SIGKILL);
    assert_eq!(e.kind, ErrorKind::PipelineError);
    assert_eq!(e.exit_code, EXIT_CODE_RESTORE_FAILURE);
}

#[test]
fn cold_start_spawns_at_the_reserved_pid() {
    let mut p = ColdStartPipeline::start();
    assert_eq!(p.current_step(), ColdStartStep::SaveConfig);
    p.advance();
    assert_eq!(p.current_step(), ColdStartStep::WriteClock);
    p.advance();
    assert_eq!(p.current_step(), ColdStartStep::EnableVirtualization);
    p.advance();
    assert_eq!(p.current_step(), ColdStartStep::SpawnApp);
    assert_eq!(p.spawn_target_pid(), APP_ROOT_PID);
    p.advance();
    assert_eq!(p.current_step(), ColdStartStep::ConfirmPid);
    p.confirm_pid(APP_ROOT_PID).unwrap();
    assert_eq!(p.current_step(), ColdStartStep::Ready);
    assert_eq!(p.root_pid, Some(APP_ROOT_PID));
}

#[test]
fn wrong_spawn_pid_is_a_pid_allocation_error() {
    let mut p = ColdStartPipeline::start();
    p.advance();
    p.advance();
    p.advance();
    p.advance();
    let e = p.confirm_pid(APP_ROOT_PID + 1).unwrap_err();
    assert_eq!(e.kind, ErrorKind::PidAllocationError);
    assert_eq!(e.exit_code, EXIT_CODE_FAILURE);
    assert_eq!(p.current_step(), ColdStartStep::ConfirmPid);
}

fn run_args(no_restore: bool, ready: Option<&str>, detach: bool) -> Run {
    Run {
        image_url: String::from("file:/tmp/img"),
        app_args: strings(&["/bin/echo", "hello"]),
        on_app_ready_cmd: ready.map(String::from),
        no_restore,
        allow_bad_image_version: false,
        preserved_paths: strings(&[]),
        leave_stopped: false,
        verbose: 0,
        detach,
    }
}

#[test]
fn run_session_walks_to_monitoring() {
    let run = run_args(false, None, false);
    let mut s = RunSession::start();
    assert_eq!(s.current_step(), RunStep::AcquireLock);
    s.advance(&run, false);
    assert_eq!(s.current_step(), RunStep::SmokeCheck);
    s.advance(&run, false);
    assert_eq!(s.current_step(), RunStep::PidCheck);
    s.advance(&run, false);
    assert_eq!(s.current_step(), RunStep::PrepareStore);
    s.advance(&run, false);
    assert_eq!(s.current_step(), RunStep::DetermineMode);
    s.advance(&run, true);
    assert_eq!(s.current_step(), RunStep::ExecuteRestore);
    s.advance(&run, true);
    assert_eq!(s.current_step(), RunStep::ReleaseLock);
    s.advance(&run, true);
    assert_eq!(s.current_step(), RunStep::MonitorApp);
}

#[test]
fn run_session_skips_mode_determination_when_restore_is_disabled() {
    let run = run_args(true, None, false);
    let mut s = RunSession::start();
    s.advance(&run, false);
    s.advance(&run, false);
    s.advance(&run, false);
    assert_eq!(s.current_step(), RunStep::PrepareStore);
    s.advance(&run, false);
    assert_eq!(s.current_step(), RunStep::ExecuteColdStart);
}

#[test]
fn run_session_fires_ready_command_then_detaches() {
    let run = run_args(false, Some("curl localhost"), true);
    let mut s = RunSession { step: RunStep::ReleaseLock };
    s.advance(&run, false);
    assert_eq!(s.current_step(), RunStep::FireReadyCmd);
    s.advance(&run, false);
    assert_eq!(s.current_step(), RunStep::Detached);
}

#[test]
fn cold_start_mode_goes_through_cold_pipeline() {
    let run = run_args(false, None, false);
    let mut s = RunSession { step: RunStep::DetermineMode };
    s.advance(&run, false);
    assert_eq!(s.current_step(), RunStep::ExecuteColdStart);
}
