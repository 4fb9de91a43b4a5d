//! Long running processes: the wait/kill protocol of one spawned
//! child, and the pool that supervises many of them.
//!
//! The host application owns the child handles and the runtime; it
//! reports what it observed (which race finished first, whether a
//! kill was delivered) and these functions decide the terminal
//! outcome exactly as the protocol demands.

use vstd::prelude::*;
use vstd::string::StrSliceExecFns;
use crate::cmd::{Cmd, KillTimeout};
use crate::dep::{Dependency, WaitError};
use crate::loc::Location;
use crate::result::Error;

verus! {

/// Captured terminal state of a finished child process: the exit
/// status and the collected output streams.
#[derive(Debug)]
pub struct CapturedOutput {
    /// Exit code; `None` when the process was terminated by a signal.
    pub code: Option<i32>,
    /// Bytes collected from stdout.
    pub stdout: Vec<u8>,
    /// Bytes collected from stderr.
    pub stderr: Vec<u8>,
}

impl CapturedOutput {
    /// A successful status is exactly exit code zero.
    pub open spec fn success(&self) -> bool {
        self.code == Some(0i32)
    }

    /// Whether the status counts as success.
    pub fn is_success(&self) -> (r: bool)
        ensures
            r == self.success(),
    {
        match self.code {
            Some(c) => c == 0,
            None => false,
        }
    }
}

/// Terminal result of waiting on a running process.
#[derive(Debug)]
pub enum ExitResult {
    /// The process exited on its own with status zero.
    Output(CapturedOutput),
    /// An interrupt arrived and the process exited within the grace
    /// window on its own.
    Interrupted,
    /// The grace window elapsed and the process was force-killed.
    Killed { pid: u32 },
}

/// What the race between the child's completion and the process-wide
/// interrupt signal reported first.
pub enum FirstEvent {
    /// The child finished: its captured state, or the I/O error
    /// message if collecting it failed.
    ChildDone(Result<CapturedOutput, String>),
    /// The interrupt signal fired while the child was still running.
    Interrupt,
}

/// What the grace window race reported after an interrupt: either the
/// child exited in time, or the window elapsed first.
pub enum GraceEvent {
    ExitedWithinGrace,
    GraceElapsed,
}

/// Result of a forced-kill attempt; a failure carries the OS error
/// number.
pub enum KillOutcome {
    Delivered,
    Failed(i32),
}

/// One complete run of the wait protocol, as observed by the handle:
/// which race ended first, what the grace window saw if an interrupt
/// came, and how the kill went if it was attempted.
pub struct WaitScript {
    pub first: FirstEvent,
    pub grace: GraceEvent,
    pub kill: KillOutcome,
}

/// The terminal outcome the wait protocol assigns to a run.
///
/// A child that finishes first succeeds exactly on status zero. An
/// interrupt gives the child the grace window: exiting within it is a
/// graceful interruption; outliving it forces a kill, which either
/// reports the killed pid or, if the kill itself failed, a zombie.
pub open spec fn wait_outcome_spec(pid: Option<u32>, s: WaitScript) -> Result<ExitResult, Error> {
    match pid {
        None => Err(Error::ProcessVanished),
        Some(p) => match s.first {
            FirstEvent::ChildDone(r) => match r {
                Ok(out) => if out.success() {
                    Ok(ExitResult::Output(out))
                } else {
                    Err(Error::NonZeroExitCode { code: out.code, output: out })
                },
                Err(msg) => Err(Error::IoError(msg)),
            },
            FirstEvent::Interrupt => match s.grace {
                GraceEvent::ExitedWithinGrace => Ok(ExitResult::Interrupted),
                GraceEvent::GraceElapsed => match s.kill {
                    KillOutcome::Delivered => Ok(ExitResult::Killed { pid: p }),
                    KillOutcome::Failed(e) => Err(Error::Zombie { pid: p, err: e }),
                },
            },
        },
    }
}

/// The outcome the cooperative stop protocol assigns: the child
/// exiting within the grace window is a graceful interruption; an I/O
/// failure or an elapsed window escalates to a forced kill, whose own
/// failure is reported as a zombie.
pub open spec fn stop_outcome_spec(pid: Option<u32>, ev: StopEvent, kill: KillOutcome) -> Result<
    ExitResult,
    Error,
> {
    match pid {
        None => Err(Error::ProcessVanished),
        Some(p) => match ev {
            StopEvent::ExitedWithinGrace => Ok(ExitResult::Interrupted),
            StopEvent::IoFailure | StopEvent::GraceElapsed => match kill {
                KillOutcome::Delivered => Ok(ExitResult::Killed { pid: p }),
                KillOutcome::Failed(e) => Err(Error::Zombie { pid: p, err: e }),
            },
        },
    }
}

/// What the cooperative stop observed after sending the
/// interrupt-class signal.
pub enum StopEvent {
    /// The child exited within the grace window.
    ExitedWithinGrace,
    /// Signalling or waiting failed with an I/O error.
    IoFailure,
    /// The grace window elapsed with the child still running.
    GraceElapsed,
}

/// A handle on one spawned OS child: the process id as the OS
/// reported it, and the grace period (in milliseconds) the child is
/// allowed after an interrupt before it is force-killed.
pub struct RunningProcess {
    pub pid: Option<u32>,
    pub timeout_ms: u64,
}

impl RunningProcess {
    /// Records a freshly spawned child.
    pub fn new(pid: Option<u32>, timeout_ms: u64) -> (r: Self)
        ensures
            r.pid == pid,
            r.timeout_ms == timeout_ms,
    {
        RunningProcess { pid, timeout_ms }
    }

    /// Resolves one complete run of the wait protocol to its terminal
    /// outcome.
    pub fn wait_outcome(&self, script: WaitScript) -> (r: Result<ExitResult, Error>)
        ensures
            r == wait_outcome_spec(self.pid, script),
    {
        match self.pid {
            None => Err(Error::ProcessVanished),
            Some(p) => match script.first {
                FirstEvent::ChildDone(res) => match res {
                    Ok(out) => {
                        if out.is_success() {
                            Ok(ExitResult::Output(out))
                        } else {
                            Err(Error::from_output(out))
                        }
                    },
                    Err(msg) => Err(Error::IoError(msg)),
                },
                FirstEvent::Interrupt => match script.grace {
                    GraceEvent::ExitedWithinGrace => Ok(ExitResult::Interrupted),
                    GraceEvent::GraceElapsed => match script.kill {
                        KillOutcome::Delivered => Ok(ExitResult::Killed { pid: p }),
                        KillOutcome::Failed(e) => Err(Error::Zombie { pid: p, err: e }),
                    },
                },
            },
        }
    }

    /// Resolves the cooperative stop protocol to its terminal
    /// outcome.
    pub fn stop_outcome(&self, ev: StopEvent, kill: KillOutcome) -> (r: Result<ExitResult, Error>)
        ensures
            r == stop_outcome_spec(self.pid, ev, kill),
    {
        match self.pid {
            None => Err(Error::ProcessVanished),
            Some(p) => match ev {
                StopEvent::ExitedWithinGrace => Ok(ExitResult::Interrupted),
                StopEvent::IoFailure | StopEvent::GraceElapsed => match kill {
                    KillOutcome::Delivered => Ok(ExitResult::Killed { pid: p }),
                    KillOutcome::Failed(e) => Err(Error::Zombie { pid: p, err: e }),
                },
            },
        }
    }
}

/// A child that finishes before any interrupt and exits with status
/// zero yields success, with the captured output handed back
/// unchanged.
pub proof fn lemma_wait_success(pid: u32, out: CapturedOutput, s: WaitScript)
    requires
        s.first == FirstEvent::ChildDone(Ok::<CapturedOutput, String>(out)),
        out.code == Some(0i32),
    ensures
        wait_outcome_spec(Some(pid), s) == Ok::<ExitResult, Error>(ExitResult::Output(out)),
{
}

/// A child that finishes before any interrupt with a failing status
/// yields the non-zero-exit error, carrying that status and the
/// captured output unchanged.
pub proof fn lemma_wait_nonzero_exit(pid: u32, out: CapturedOutput, s: WaitScript)
    requires
        s.first == FirstEvent::ChildDone(Ok::<CapturedOutput, String>(out)),
        !out.success(),
    ensures
        wait_outcome_spec(Some(pid), s) == Err::<ExitResult, Error>(
            Error::NonZeroExitCode { code: out.code, output: out },
        ),
{
}

/// After an interrupt, a child that exits within the grace window is
/// reported as gracefully interrupted, and no kill outcome matters.
pub proof fn lemma_wait_interrupted(pid: u32, s: WaitScript)
    requires
        s.first == FirstEvent::Interrupt,
        s.grace == GraceEvent::ExitedWithinGrace,
    ensures
        wait_outcome_spec(Some(pid), s) == Ok::<ExitResult, Error>(ExitResult::Interrupted),
{
}

/// After an interrupt, a child that outlives the grace window is
/// force-killed: a delivered kill reports the killed pid, a failed
/// kill reports a zombie with the OS error.
pub proof fn lemma_wait_force_killed(pid: u32, s: WaitScript)
    requires
        s.first == FirstEvent::Interrupt,
        s.grace == GraceEvent::GraceElapsed,
    ensures
        s.kill == KillOutcome::Delivered ==> wait_outcome_spec(Some(pid), s) == Ok::<
            ExitResult,
            Error,
        >(ExitResult::Killed { pid }),
        s.kill matches KillOutcome::Failed(e) ==> wait_outcome_spec(Some(pid), s) == Err::<
            ExitResult,
            Error,
        >(Error::Zombie { pid, err: e }),
{
}

/// Long running process: a tag to attribute its output, the command
/// to run, and the grace period it is allowed on shutdown.
pub struct Process<Loc> {
    /// Tag used as an identificator in output when the process runs
    /// as part of a [`ProcessPool`](ProcessPool).
    pub tag: String,
    /// Command to run the process.
    pub cmd: Cmd<Loc>,
    /// Amount of time to wait before killing the process when it
    /// hangs on shutdown.
    pub timeout: KillTimeout,
}

impl<Loc> Process<Loc> where Loc: Location {
    /// Constructs a new process.
    pub fn new(tag: String, cmd: Cmd<Loc>, timeout: KillTimeout) -> (r: Self)
        ensures
            r.tag == tag,
            r.cmd == cmd,
            r.timeout == timeout,
    {
        Process { tag, cmd, timeout }
    }

    /// Returns the tag of a process.
    pub fn tag(&self) -> (r: &str)
        ensures
            r@ == self.tag@,
    {
        self.tag.as_str()
    }

    /// Returns the command of a process.
    pub fn cmd(&self) -> (r: &Cmd<Loc>)
        ensures
            *r == self.cmd,
    {
        &self.cmd
    }

    /// Returns the shutdown grace period of a process.
    pub fn timeout(&self) -> (r: KillTimeout)
        ensures
            r == self.timeout,
    {
        self.timeout
    }
}

/// Unit submitted to the pool: a bare process, or a process paired
/// with a dependency it must wait for before its command is spawned.
pub enum PoolEntry<Loc, D> {
    Process(Process<Loc>),
    ProcessWithDep { process: Process<Loc>, dependency: D },
}

/// The process of a pool entry.
pub open spec fn entry_process<Loc, D>(e: PoolEntry<Loc, D>) -> Process<Loc> {
    match e {
        PoolEntry::Process(p) => p,
        PoolEntry::ProcessWithDep { process, .. } => process,
    }
}

impl<Loc, D> PoolEntry<Loc, D> where Loc: Location, D: Dependency {
    /// The process of this entry.
    pub fn process(&self) -> (r: &Process<Loc>)
        ensures
            *r == entry_process(*self),
    {
        match self {
            PoolEntry::Process(p) => p,
            PoolEntry::ProcessWithDep { process, .. } => process,
        }
    }

    /// Whether this entry must wait for a dependency first.
    pub fn has_dependency(&self) -> (r: bool)
        ensures
            r == (self is ProcessWithDep),
    {
        match self {
            PoolEntry::Process(_) => false,
            PoolEntry::ProcessWithDep { .. } => true,
        }
    }
}

/// The widest tag of the entries, in characters.
pub open spec fn max_tag_len<Loc, D>(s: Seq<PoolEntry<Loc, D>>) -> int
    decreases s.len(),
{
    if s.len() == 0 {
        0
    } else {
        let rest = max_tag_len(s.drop_last());
        let l = entry_process(s.last()).tag@.len() as int;
        if l > rest {
            l
        } else {
            rest
        }
    }
}

/// The largest shutdown grace period of the entries, in milliseconds.
pub open spec fn max_timeout_ms<Loc, D>(s: Seq<PoolEntry<Loc, D>>) -> int
    decreases s.len(),
{
    if s.len() == 0 {
        0
    } else {
        let rest = max_timeout_ms(s.drop_last());
        let t = entry_process(s.last()).timeout.millis as int;
        if t > rest {
            t
        } else {
            rest
        }
    }
}

/// What one supervising unit reported for its entry.
pub enum SupervisionEvent {
    /// The entry's dependency failed, so its command never ran.
    DependencyFailed(WaitError),
    /// The entry ran — its dependency, if any, resolved first — to
    /// this terminal outcome.
    Completed(Result<ExitResult, Error>),
}

/// The per-entry outcome the pool reports.
#[derive(Debug)]
pub enum EntryOutcome {
    /// The dependency failed; the command was never spawned. Counts
    /// as exited without running.
    SkippedDependency(WaitError),
    /// The command ran to this terminal outcome.
    Ran(Result<ExitResult, Error>),
}

/// The outcome a unit's report maps to: a dependency failure skips
/// the command, everything else is the run's own result.
pub open spec fn outcome_of(ev: SupervisionEvent) -> EntryOutcome {
    match ev {
        SupervisionEvent::DependencyFailed(e) => EntryOutcome::SkippedDependency(e),
        SupervisionEvent::Completed(res) => EntryOutcome::Ran(res),
    }
}

/// Monotonic tally of exited pool entries: how many of the pool's
/// units have reported a terminal outcome, never more than the pool
/// size.
pub struct ExitTally {
    count: usize,
    size: usize,
}

impl ExitTally {
    #[verifier::type_invariant]
    spec fn wf(&self) -> bool {
        self.count <= self.size
    }

    /// How many units have reported so far.
    pub closed spec fn spec_count(&self) -> int {
        self.count as int
    }

    /// The pool size the tally was made for.
    pub closed spec fn spec_size(&self) -> int {
        self.size as int
    }

    /// A fresh tally for a pool of `size` entries.
    pub fn new(size: usize) -> (r: Self)
        ensures
            r.spec_count() == 0,
            r.spec_size() == size,
    {
        ExitTally { count: 0, size }
    }

    /// How many units have reported so far.
    pub fn count(&self) -> (r: usize)
        ensures
            r == self.spec_count(),
    {
        self.count
    }

    /// Records that one more unit reported a terminal outcome,
    /// whatever the outcome was.
    pub fn record_exit(&mut self)
        requires
            old(self).spec_count() < old(self).spec_size(),
        ensures
            final(self).spec_count() == old(self).spec_count() + 1,
            final(self).spec_size() == old(self).spec_size(),
    {
        self.count = self.count + 1;
    }

    /// Whether every unit of the pool has reported.
    pub fn all_exited(&self) -> (r: bool)
        ensures
            r == (self.spec_count() == self.spec_size()),
    {
        self.count == self.size
    }
}

/// What the orchestrator's bounded shutdown wait does next: done once
/// every unit has reported; a timeout warning once the grace window
/// has passed — the pool then returns anyway rather than hang; else
/// another sleep.
#[derive(Clone, Copy, Debug, PartialEq, Eq, Structural)]
pub enum ShutdownDecision {
    Done,
    TimedOut,
    Sleep,
}

/// The decision of one round of the shutdown wait.
pub open spec fn shutdown_step_spec(exited: int, size: int, now_ms: int, expire_ms: int) -> ShutdownDecision {
    if exited >= size {
        ShutdownDecision::Done
    } else if now_ms > expire_ms {
        ShutdownDecision::TimedOut
    } else {
        ShutdownDecision::Sleep
    }
}

/// Struct to run a pool of long running processes.
pub struct ProcessPool;

impl ProcessPool {
    /// Wraps plain processes as dependency-less pool entries:
    /// running a pool without dependencies is running the general
    /// form on these.
    pub fn wrap_bare<Loc, D>(pool: Vec<Process<Loc>>) -> (r: Vec<PoolEntry<Loc, D>>) where
        Loc: Location,
        D: Dependency,

        ensures
            r@.len() == pool@.len(),
            forall|i: int| 0 <= i < pool@.len() ==> r@[i] == PoolEntry::<Loc, D>::Process(
                pool@[i],
            ),
    {
        let ghost all = pool@;
        let mut rest = pool;
        let mut out: Vec<PoolEntry<Loc, D>> = Vec::new();
        while rest.len() > 0
            invariant
                out@.len() + rest@.len() == all.len(),
                rest@ == all.subrange(out@.len() as int, all.len() as int),
                forall|i: int| 0 <= i < out@.len() ==> out@[i] == PoolEntry::<Loc, D>::Process(
                    all[i],
                ),
            decreases rest@.len(),
    {
            let ghost done = out@.len() as int;
            let p = rest.remove(0);
            proof {
                assert(p == all[done]);
                assert(rest@ =~= all.subrange(done + 1, all.len() as int));
            }
            out.push(PoolEntry::Process(p));
        }
        out
    }

    /// The width of the tag column: the widest tag of the pool, for
    /// alignment of every entry's output.
    pub fn tag_column_width<Loc, D>(entries: &Vec<PoolEntry<Loc, D>>) -> (w: usize) where
        Loc: Location,
        D: Dependency,

        ensures
            w == max_tag_len(entries@),
    {
        let n = entries.len();
        let mut acc: usize = 0;
        let mut i: usize = 0;
        while i < n
            invariant
                i <= n,
                n == entries@.len(),
                acc == max_tag_len(entries@.subrange(0, i as int)),
            decreases n - i,
        {
            let l = entries[i].process().tag.as_str().unicode_len();
            proof {
                let cur = entries@.subrange(0, i + 1);
                assert(cur.drop_last() =~= entries@.subrange(0, i as int));
                assert(cur.last() == entries@[i as int]);
            }
            if l > acc {
                acc = l;
            }
            i = i + 1;
        }
        proof {
            assert(entries@.subrange(0, n as int) =~= entries@);
        }
        acc
    }

    /// The pool's global shutdown grace window: the largest kill
    /// timeout across its entries, in milliseconds.
    pub fn grace_window_ms<Loc, D>(entries: &Vec<PoolEntry<Loc, D>>) -> (w: u64) where
        Loc: Location,
        D: Dependency,

        ensures
            w == max_timeout_ms(entries@),
    {
        let n = entries.len();
        let mut acc: u64 = 0;
        let mut i: usize = 0;
        while i < n
            invariant
                i <= n,
                n == entries@.len(),
                acc == max_timeout_ms(entries@.subrange(0, i as int)),
            decreases n - i,
        {
            let t = entries[i].process().timeout.millis;
            proof {
                let cur = entries@.subrange(0, i + 1);
                assert(cur.drop_last() =~= entries@.subrange(0, i as int));
                assert(cur.last() == entries@[i as int]);
            }
            if t > acc {
                acc = t;
            }
            i = i + 1;
        }
        proof {
            assert(entries@.subrange(0, n as int) =~= entries@);
        }
        acc
    }

    /// Padding after a tag so every entry's pipe lines up: two spaces
    /// past the widest tag.
    pub fn pad_width(len: usize, col: usize) -> (r: usize)
        requires
            col < usize::MAX - 1,
        ensures
            r == (if len < col {
                col - len + 2
            } else {
                2int
            }),
    {
        if len < col {
            col - len + 2
        } else {
            2
        }
    }

    /// One round of the bounded shutdown wait that follows the
    /// interrupt.
    pub fn shutdown_step(tally: &ExitTally, now_ms: u64, expire_ms: u64) -> (d: ShutdownDecision)
        ensures
            d == shutdown_step_spec(
                tally.spec_count(),
                tally.spec_size(),
                now_ms as int,
                expire_ms as int,
            ),
    {
        proof {
            use_type_invariant(tally);
        }
        if tally.all_exited() {
            ShutdownDecision::Done
        } else if now_ms > expire_ms {
            ShutdownDecision::TimedOut
        } else {
            ShutdownDecision::Sleep
        }
    }

    /// The bookkeeping of a whole pool run: every unit reports
    /// exactly one outcome, a dependency failure aborts only its own
    /// entry's command, and the exited tally reaches the pool size
    /// whatever the outcomes were — no failure is propagated as a
    /// pool-level failure.
    pub fn run_model(events: Vec<SupervisionEvent>) -> (r: (Vec<EntryOutcome>, ExitTally))
        ensures
            r.0@.len() == events@.len(),
            forall|i: int| 0 <= i < events@.len() ==> r.0@[i] == outcome_of(events@[i]),
            r.1.spec_count() == events@.len(),
            r.1.spec_size() == events@.len(),
    {
        let n = events.len();
        let ghost all = events@;
        let mut rest = events;
        let mut outcomes: Vec<EntryOutcome> = Vec::new();
        let mut tally = ExitTally::new(n);
        while rest.len() > 0
            invariant
                n == all.len(),
                outcomes@.len() + rest@.len() == all.len(),
                rest@ == all.subrange(outcomes@.len() as int, all.len() as int),
                forall|i: int| 0 <= i < outcomes@.len() ==> outcomes@[i] == outcome_of(all[i]),
                tally.spec_count() == outcomes@.len(),
                tally.spec_size() == n,
            decreases rest@.len(),
        {
            let ghost done = outcomes@.len() as int;
            let ev = rest.remove(0);
            proof {
                assert(ev == all[done]);
                assert(rest@ =~= all.subrange(done + 1, all.len() as int));
            }
            let out = match ev {
                SupervisionEvent::DependencyFailed(e) => EntryOutcome::SkippedDependency(e),
                SupervisionEvent::Completed(res) => EntryOutcome::Ran(res),
            };
            outcomes.push(out);
            tally.record_exit();
        }
        (outcomes, tally)
    }
}

} // verus!
