use steward::cmd::{Cmd, KillTimeout};
use steward::dep::WaitError;
use steward::env::Env;
use steward::process::{
    CapturedOutput, EntryOutcome, ExitResult, FirstEvent, GraceEvent, KillOutcome, PoolEntry,
    ProcessPool, RunningProcess, ShutdownDecision, StopEvent, SupervisionEvent, WaitScript,
};
use steward::{Dependency, Error, Location, Process};

struct TestLoc(String);

impl Location for TestLoc {
    fn apex() -> Self {
        TestLoc("/home/me/proj".to_string())
    }

    fn as_path(&self) -> String {
        self.0.clone()
    }

    fn display(&self) -> String {
        steward::loc::display_relative(&self.0, &Self::apex().as_path())
    }
}

struct NeverDep;

impl Dependency for NeverDep {
    fn tag(&self) -> String {
        "never".to_string()
    }

    fn check(&self) -> Result<(), ()> {
        Err(())
    }

    fn wait(&self) -> Result<(), WaitError> {
        Err(WaitError::Timeout)
    }
}

fn sample_cmd(exe: &str) -> Cmd<TestLoc> {
    Cmd {
        exe: exe.to_string(),
        env: Env::empty(),
        pwd: TestLoc("/home/me/proj/server".to_string()),
        msg: None,
    }
}

fn sample_process(tag: &str, timeout_ms: u64) -> Process<TestLoc> {
    Process::new(tag.to_string(), sample_cmd("sleep 1000"), KillTimeout::new(timeout_ms))
}

fn captured(code: Option<i32>, stdout: &[u8]) -> CapturedOutput {
    CapturedOutput { code, stdout: stdout.to_vec(), stderr: Vec::new() }
}

#[test]
fn zero_exit_returns_captured_output() {
    let handle = RunningProcess::new(Some(41), 10_000);
    let script = WaitScript {
        first: FirstEvent::ChildDone(Ok(captured(Some(0), b"written by the child\n"))),
        grace: GraceEvent::ExitedWithinGrace,
        kill: KillOutcome::Delivered,
    };
    match handle.wait_outcome(script) {
        Ok(ExitResult::Output(out)) => {
            assert_eq!(out.code, Some(0));
            assert_eq!(out.stdout, b"written by the child\n");
        },
        _ => panic!("a zero exit must return the captured output"),
    }
}

#[test]
fn nonzero_exit_code_seven() {
    let handle = RunningProcess::new(Some(41), 10_000);
    let script = WaitScript {
        first: FirstEvent::ChildDone(Ok(captured(Some(7), b"partial"))),
        grace: GraceEvent::ExitedWithinGrace,
        kill: KillOutcome::Delivered,
    };
    match handle.wait_outcome(script) {
        Err(Error::NonZeroExitCode { code, output }) => {
            assert_eq!(code, Some(7));
            assert_eq!(output.stdout, b"partial");
        },
        _ => panic!("exit code 7 must be reported as a non-zero exit"),
    }
}

#[test]
fn signal_killed_child_is_nonzero_exit_without_code() {
    let handle = RunningProcess::new(Some(41), 10_000);
    let script = WaitScript {
        first: FirstEvent::ChildDone(Ok(captured(None, b""))),
        grace: GraceEvent::ExitedWithinGrace,
        kill: KillOutcome::Delivered,
    };
    assert!(matches!(
        handle.wait_outcome(script),
        Err(Error::NonZeroExitCode { code: None, .. })
    ));
}

#[test]
fn interrupt_with_exit_in_grace_is_graceful() {
    let handle = RunningProcess::new(Some(41), 10_000);
    let script = WaitScript {
        first: FirstEvent::Interrupt,
        grace: GraceEvent::ExitedWithinGrace,
        kill: KillOutcome::Delivered,
    };
    assert!(matches!(handle.wait_outcome(script), Ok(ExitResult::Interrupted)));
}

#[test]
fn interrupt_past_grace_is_force_killed() {
    let handle = RunningProcess::new(Some(41), 10_000);
    let script = WaitScript {
        first: FirstEvent::Interrupt,
        grace: GraceEvent::GraceElapsed,
        kill: KillOutcome::Delivered,
    };
    assert!(matches!(handle.wait_outcome(script), Ok(ExitResult::Killed { pid: 41 })));
}

#[test]
fn failed_kill_is_reported_as_zombie() {
    let handle = RunningProcess::new(Some(41), 10_000);
    let script = WaitScript {
        first: FirstEvent::Interrupt,
        grace: GraceEvent::GraceElapsed,
        kill: KillOutcome::Failed(3),
    };
    assert!(matches!(handle.wait_outcome(script), Err(Error::Zombie { pid: 41, err: 3 })));
}

#[test]
fn io_failure_is_surfaced() {
    let handle = RunningProcess::new(Some(41), 10_000);
    let script = WaitScript {
        first: FirstEvent::ChildDone(Err("spawn read failed".to_string())),
        grace: GraceEvent::ExitedWithinGrace,
        kill: KillOutcome::Delivered,
    };
    match handle.wait_outcome(script) {
        Err(Error::IoError(msg)) => assert_eq!(msg, "spawn read failed"),
        _ => panic!("an I/O failure must be surfaced"),
    }
}

#[test]
fn missing_pid_is_process_vanished() {
    let handle = RunningProcess::new(None, 10_000);
    let script = WaitScript {
        first: FirstEvent::Interrupt,
        grace: GraceEvent::ExitedWithinGrace,
        kill: KillOutcome::Delivered,
    };
    assert!(matches!(handle.wait_outcome(script), Err(Error::ProcessVanished)));
}

#[test]
fn stop_outcomes() {
    let handle = RunningProcess::new(Some(9), 10_000);
    assert!(matches!(
        handle.stop_outcome(StopEvent::ExitedWithinGrace, KillOutcome::Delivered),
        Ok(ExitResult::Interrupted)
    ));
    assert!(matches!(
        handle.stop_outcome(StopEvent::GraceElapsed, KillOutcome::Delivered),
        Ok(ExitResult::Killed { pid: 9 })
    ));
    assert!(matches!(
        handle.stop_outcome(StopEvent::IoFailure, KillOutcome::Failed(13)),
        Err(Error::Zombie { pid: 9, err: 13 })
    ));
}

#[test]
fn error_from_failed_output() {
    let out = captured(Some(2), b"x");
    assert!(matches!(
        Error::from_output(out),
        Error::NonZeroExitCode { code: Some(2), .. }
    ));
}

#[test]
fn process_accessors() {
    let p = sample_process("server", 20_000);
    assert_eq!(p.tag(), "server");
    assert_eq!(p.cmd().exe(), "sleep 1000");
    assert_eq!(p.timeout().duration(), 20_000);
}

#[test]
fn pool_planning_over_entries() {
    let entries: Vec<PoolEntry<TestLoc, NeverDep>> = vec![
        PoolEntry::Process(sample_process("web", 5_000)),
        PoolEntry::ProcessWithDep {
            process: sample_process("worker", 30_000),
            dependency: NeverDep,
        },
        PoolEntry::Process(sample_process("db", 10_000)),
    ];
    assert_eq!(ProcessPool::tag_column_width(&entries), 6);
    assert_eq!(ProcessPool::grace_window_ms(&entries), 30_000);
    assert!(entries[1].has_dependency());
    assert!(!entries[0].has_dependency());
    assert_eq!(entries[1].process().tag(), "worker");
}

#[test]
fn wrapping_bare_processes() {
    let pool = vec![sample_process("a", 1000), sample_process("b", 2000)];
    let entries: Vec<PoolEntry<TestLoc, NeverDep>> = ProcessPool::wrap_bare(pool);
    assert_eq!(entries.len(), 2);
    assert!(entries.iter().all(|e| !e.has_dependency()));
    assert_eq!(entries[0].process().tag(), "a");
    assert_eq!(entries[1].process().tag(), "b");
}

#[test]
fn pad_width_aligns_columns() {
    assert_eq!(ProcessPool::pad_width(3, 6), 5);
    assert_eq!(ProcessPool::pad_width(6, 6), 2);
    assert_eq!(ProcessPool::pad_width(9, 6), 2);
}

#[test]
fn pool_of_three_with_one_dependency_timeout() {
    let events = vec![
        SupervisionEvent::Completed(Ok(ExitResult::Interrupted)),
        SupervisionEvent::DependencyFailed(WaitError::Timeout),
        SupervisionEvent::Completed(Ok(ExitResult::Killed { pid: 7 })),
    ];
    let (outcomes, tally) = ProcessPool::run_model(events);
    assert_eq!(outcomes.len(), 3);
    let ran = outcomes
        .iter()
        .filter(|o| matches!(o, EntryOutcome::Ran(_)))
        .count();
    let skipped = outcomes
        .iter()
        .filter(|o| matches!(o, EntryOutcome::SkippedDependency(WaitError::Timeout)))
        .count();
    assert_eq!(ran, 2);
    assert_eq!(skipped, 1);
    assert_eq!(tally.count(), 3);
    assert!(tally.all_exited());
}

#[test]
fn shutdown_wait_decisions() {
    let events = vec![SupervisionEvent::Completed(Ok(ExitResult::Interrupted))];
    let (_, done_tally) = ProcessPool::run_model(events);
    assert_eq!(ProcessPool::shutdown_step(&done_tally, 0, 1000), ShutdownDecision::Done);

    let pending = steward::process::ExitTally::new(2);
    assert_eq!(ProcessPool::shutdown_step(&pending, 500, 1000), ShutdownDecision::Sleep);
    assert_eq!(ProcessPool::shutdown_step(&pending, 1001, 1000), ShutdownDecision::TimedOut);
    assert_eq!(ProcessPool::shutdown_step(&pending, 1000, 1000), ShutdownDecision::Sleep);
}
