//! The daemon's lifecycle as a state machine. Each step takes what the last
//! action came to and says what to do next; whoever drives it performs the
//! actions (probing, spawning, killing, sleeping) and reports their outcome.
use vstd::prelude::*;

verus! {

/// Bandwidth limits in KiB per second; zero means unlimited.
#[derive(Debug, Clone, Copy, PartialEq, Eq, Structural)]
pub struct Limits {
    pub overall: u64,
    pub per_download: u64,
}

/// Where a start is.
#[derive(Debug, Clone, Copy, PartialEq, Eq, Structural)]
pub enum StartStage {
    /// Asking whether a daemon already answers.
    CheckReachable,
    /// Asking whether the bundled executable at this place exists.
    ProbePath(usize),
    /// Asking whether the executable can be run from the search path.
    SearchPath,
    /// Spawning the program with this index.
    Spawning(usize),
    /// Waiting for the spawned daemon to answer.
    Polling,
}

/// Where a stop is.
#[derive(Debug, Clone, Copy, PartialEq, Eq, Structural)]
pub enum StopStage {
    /// Terminating the held process and waiting for it.
    Killing,
    /// Asking the daemon to shut down.
    ShuttingDown,
}

/// The compound operation in progress.
#[derive(Debug, Clone, Copy, PartialEq, Eq, Structural)]
pub enum Task {
    Idle,
    /// A limit change, asking whether the daemon runs.
    Reconfiguring(Limits),
    Starting(StartStage),
    /// A stop; with limits, one that applies them and starts again afterwards.
    Stopping(StopStage, Option<Limits>),
}

/// The supervisor's whole state.
#[derive(Debug, Clone, Copy, PartialEq, Eq, Structural)]
pub struct Supervisor {
    /// The limits the next spawn starts the daemon with.
    pub limits: Limits,
    /// Whether a process spawned here is held.
    pub holds_process: bool,
    pub task: Task,
}

/// How an action turned out.
#[derive(Debug, Clone, Copy, PartialEq, Eq, Structural)]
pub enum DaemonEvent {
    /// Whether a trivial call to the daemon succeeded.
    Reachable(bool),
    /// Whether the executable at the probed place exists.
    PathExists(bool),
    /// Whether the executable on the search path ran successfully.
    SearchPathOk(bool),
    /// Whether the spawn succeeded.
    Spawned(bool),
    /// A pause ended; the milliseconds since the spawn.
    Slept(u64),
    /// The held process was terminated and reaped (or failed to be).
    Killed,
    /// The shutdown call was made, whatever came of it.
    ShutdownSent,
}

/// Why an operation on the daemon's lifecycle failed.
#[derive(Debug, Clone, Copy, PartialEq, Eq, Structural)]
pub enum DaemonFailure {
    DaemonNotFound,
    StartupTimeout,
    SpawnFailed,
    Busy,
    UnexpectedEvent,
}

/// What to do next.
#[derive(Debug, Clone, Copy, PartialEq, Eq, Structural)]
pub enum DaemonAction {
    /// Make a trivial call and report whether it succeeded.
    ProbeReachable,
    /// Report whether the bundled executable at this place exists.
    ProbePath(usize),
    /// Run the executable from the search path with its version flag.
    ProbeSearchPath,
    /// Spawn the program with this index, with the startup arguments.
    Spawn(usize),
    /// Pause this many milliseconds, then report the time since the spawn.
    Sleep(u64),
    /// Terminate the held process and wait for it.
    Kill,
    /// Ask the daemon to shut down, ignoring the outcome.
    SendShutdown,
    /// The operation succeeded.
    Done,
    /// The operation failed.
    Failed(DaemonFailure),
}

/// How many bundled places are probed; the program with this index is the one
/// found on the search path.
pub const BUNDLED_PLACES: usize = 4;

/// How long to wait between readiness probes.
pub const POLL_INTERVAL_MS: u64 = 200;

/// How long a spawned daemon may take to answer.
pub const STARTUP_TIMEOUT_MS: u64 = 5000;

impl Supervisor {
    /// Every place a start is at names a bundled place, or the search path
    /// for a spawn.
    pub open spec fn wf(self) -> bool {
        match self.task {
            Task::Starting(StartStage::ProbePath(i)) => i < BUNDLED_PLACES,
            Task::Starting(StartStage::Spawning(p)) => p <= BUNDLED_PLACES,
            _ => true,
        }
    }
}

/// The first step of a stop: kill the process held, if any, else go straight
/// to the shutdown call; `restart` carries the limits to start again with.
pub open spec fn begin_stop_spec(s: Supervisor, restart: Option<Limits>) -> (Supervisor, DaemonAction) {
    if s.holds_process {
        (Supervisor { task: Task::Stopping(StopStage::Killing, restart), ..s }, DaemonAction::Kill)
    } else {
        (Supervisor { task: Task::Stopping(StopStage::ShuttingDown, restart), ..s }, DaemonAction::SendShutdown)
    }
}

/// Starting: a daemon that already answers is left alone.
pub open spec fn start_spec(s: Supervisor) -> (Supervisor, DaemonAction) {
    if s.task == Task::Idle {
        (Supervisor { task: Task::Starting(StartStage::CheckReachable), ..s }, DaemonAction::ProbeReachable)
    } else {
        (s, DaemonAction::Failed(DaemonFailure::Busy))
    }
}

/// Stopping: kill the process held, then ask for a shutdown in any case.
pub open spec fn stop_spec(s: Supervisor) -> (Supervisor, DaemonAction) {
    if s.task == Task::Idle {
        begin_stop_spec(s, None)
    } else {
        (s, DaemonAction::Failed(DaemonFailure::Busy))
    }
}

/// Changing the limits: first ask whether the daemon runs.
pub open spec fn reconfigure_spec(s: Supervisor, limits: Limits) -> (Supervisor, DaemonAction) {
    if s.task == Task::Idle {
        (Supervisor { task: Task::Reconfiguring(limits), ..s }, DaemonAction::ProbeReachable)
    } else {
        (s, DaemonAction::Failed(DaemonFailure::Busy))
    }
}

/// Ends the operation in progress with its last action.
pub open spec fn finish(s: Supervisor, a: DaemonAction) -> (Supervisor, DaemonAction) {
    (Supervisor { task: Task::Idle, ..s }, a)
}

/// An event the operation in progress did not ask for changes nothing.
pub open spec fn unexpected(s: Supervisor) -> (Supervisor, DaemonAction) {
    (s, DaemonAction::Failed(DaemonFailure::UnexpectedEvent))
}

/// One step of a start: probe, look for the executable, spawn it, then poll
/// until it answers or the time is up.
pub open spec fn start_step_spec(s: Supervisor, stage: StartStage, ev: DaemonEvent) -> (Supervisor, DaemonAction) {
    match (stage, ev) {
        (StartStage::CheckReachable, DaemonEvent::Reachable(up)) => if up {
            finish(s, DaemonAction::Done)
        } else {
            (Supervisor { task: Task::Starting(StartStage::ProbePath(0)), ..s }, DaemonAction::ProbePath(0))
        },
        (StartStage::ProbePath(i), DaemonEvent::PathExists(found)) => if found {
            (Supervisor { task: Task::Starting(StartStage::Spawning(i)), ..s }, DaemonAction::Spawn(i))
        } else if i + 1 < BUNDLED_PLACES {
            (Supervisor { task: Task::Starting(StartStage::ProbePath((i + 1) as usize)), ..s },
             DaemonAction::ProbePath((i + 1) as usize))
        } else {
            (Supervisor { task: Task::Starting(StartStage::SearchPath), ..s }, DaemonAction::ProbeSearchPath)
        },
        (StartStage::SearchPath, DaemonEvent::SearchPathOk(found)) => if found {
            (Supervisor { task: Task::Starting(StartStage::Spawning(BUNDLED_PLACES)), ..s },
             DaemonAction::Spawn(BUNDLED_PLACES))
        } else {
            finish(s, DaemonAction::Failed(DaemonFailure::DaemonNotFound))
        },
        (StartStage::Spawning(_), DaemonEvent::Spawned(ok)) => if ok {
            (Supervisor { holds_process: true, task: Task::Starting(StartStage::Polling), ..s }, DaemonAction::ProbeReachable)
        } else {
            finish(s, DaemonAction::Failed(DaemonFailure::SpawnFailed))
        },
        (StartStage::Polling, DaemonEvent::Reachable(up)) => if up {
            finish(s, DaemonAction::Done)
        } else {
            (s, DaemonAction::Sleep(POLL_INTERVAL_MS))
        },
        (StartStage::Polling, DaemonEvent::Slept(elapsed)) => if elapsed < STARTUP_TIMEOUT_MS {
            (s, DaemonAction::ProbeReachable)
        } else {
            finish(s, DaemonAction::Failed(DaemonFailure::StartupTimeout))
        },
        _ => unexpected(s),
    }
}

/// One step of the supervisor: the state after `ev` and what to do next.
pub open spec fn step_spec(s: Supervisor, ev: DaemonEvent) -> (Supervisor, DaemonAction) {
    match s.task {
        Task::Idle => unexpected(s),
        Task::Reconfiguring(limits) => match ev {
            DaemonEvent::Reachable(up) => if up {
                begin_stop_spec(s, Some(limits))
            } else {
                finish(Supervisor { limits, ..s }, DaemonAction::Done)
            },
            _ => unexpected(s),
        },
        Task::Starting(stage) => start_step_spec(s, stage, ev),
        Task::Stopping(stage, restart) => match (stage, ev) {
            (StopStage::Killing, DaemonEvent::Killed) => (
                Supervisor { holds_process: false, task: Task::Stopping(StopStage::ShuttingDown, restart), ..s },
                DaemonAction::SendShutdown,
            ),
            (StopStage::ShuttingDown, DaemonEvent::ShutdownSent) => match restart {
                None => finish(s, DaemonAction::Done),
                Some(limits) => (
                    Supervisor { limits, task: Task::Starting(StartStage::CheckReachable), ..s },
                    DaemonAction::ProbeReachable,
                ),
            },
            _ => unexpected(s),
        },
    }
}

/// Every operation and every step keeps the supervisor well formed.
pub proof fn steps_keep_wf(s: Supervisor, ev: DaemonEvent, limits: Limits)
    requires
        s.wf(),
    ensures
        step_spec(s, ev).0.wf(),
        start_spec(s).0.wf(),
        stop_spec(s).0.wf(),
        reconfigure_spec(s, limits).0.wf(),
{
}

/// Starting while a daemon already answers spawns nothing and leaves the state
/// as it was, and a second start does the same: at most one process is held.
pub proof fn start_twice_when_reachable(s: Supervisor)
    requires
        s.task == Task::Idle,
    ensures
        ({
            let (s1, a1) = start_spec(s);
            let (s2, a2) = step_spec(s1, DaemonEvent::Reachable(true));
            let (s3, a3) = start_spec(s2);
            let (s4, a4) = step_spec(s3, DaemonEvent::Reachable(true));
            &&& a1 == DaemonAction::ProbeReachable
            &&& a2 == DaemonAction::Done
            &&& s2 == s
            &&& a3 == DaemonAction::ProbeReachable
            &&& a4 == DaemonAction::Done
            &&& s4 == s
        }),
{
}

/// Stopping when no process was ever spawned only asks the daemon to shut down,
/// and succeeds.
pub proof fn stop_when_never_started(s: Supervisor)
    requires
        s.task == Task::Idle,
        !s.holds_process,
    ensures
        ({
            let (s1, a1) = stop_spec(s);
            let (s2, a2) = step_spec(s1, DaemonEvent::ShutdownSent);
            &&& a1 == DaemonAction::SendShutdown
            &&& a2 == DaemonAction::Done
            &&& s2 == s
        }),
{
}

/// A stop kills the process held, if any, then asks for a shutdown, and
/// always succeeds, holding no process afterwards.
pub proof fn stop_always_succeeds(s: Supervisor)
    requires
        s.task == Task::Idle,
    ensures
        ({
            let (s1, a1) = stop_spec(s);
            let (s2, a2) = if s.holds_process { step_spec(s1, DaemonEvent::Killed) } else { (s1, a1) };
            let (s3, a3) = step_spec(s2, DaemonEvent::ShutdownSent);
            &&& a1 == (if s.holds_process { DaemonAction::Kill } else { DaemonAction::SendShutdown })
            &&& a2 == DaemonAction::SendShutdown
            &&& a3 == DaemonAction::Done
            &&& s3 == (Supervisor { holds_process: false, ..s })
        }),
{
}

/// A limit change while the daemon is down records the new limits and
/// spawns nothing.
pub proof fn reconfigure_while_stopped(s: Supervisor, limits: Limits)
    requires
        s.task == Task::Idle,
    ensures
        ({
            let (s1, a1) = reconfigure_spec(s, limits);
            let (s2, a2) = step_spec(s1, DaemonEvent::Reachable(false));
            &&& a1 == DaemonAction::ProbeReachable
            &&& a2 == DaemonAction::Done
            &&& s2 == (Supervisor { limits, ..s })
        }),
{
}

/// A limit change while the daemon runs stops it (killing the process held,
/// if any, then asking for a shutdown), records the new limits only then, and
/// begins a start with them.
pub proof fn reconfigure_while_running(s: Supervisor, limits: Limits)
    requires
        s.task == Task::Idle,
    ensures
        ({
            let (s1, a1) = reconfigure_spec(s, limits);
            let (s2, a2) = step_spec(s1, DaemonEvent::Reachable(true));
            let (s3, a3) = if s.holds_process { step_spec(s2, DaemonEvent::Killed) } else { (s2, a2) };
            let (s4, a4) = step_spec(s3, DaemonEvent::ShutdownSent);
            &&& a1 == DaemonAction::ProbeReachable
            &&& a2 == (if s.holds_process { DaemonAction::Kill } else { DaemonAction::SendShutdown })
            &&& s2.limits == s.limits
            &&& a3 == DaemonAction::SendShutdown
            &&& s3.limits == s.limits
            &&& a4 == DaemonAction::ProbeReachable
            &&& s4 == (Supervisor {
                limits,
                holds_process: false,
                task: Task::Starting(StartStage::CheckReachable),
            })
        }),
{
}

/// No step of a start changes the limits, so a spawn during a start uses the
/// limits the start began with.
pub proof fn start_keeps_limits(s: Supervisor, ev: DaemonEvent)
    requires
        s.task is Starting,
    ensures
        step_spec(s, ev).0.limits == s.limits,
{
}

/// A start succeeds only on a report that the daemon answers, and after it
/// no other operation is in progress.
pub proof fn start_succeeds_only_when_reachable(s: Supervisor, ev: DaemonEvent)
    requires
        s.task is Starting,
        step_spec(s, ev).1 == DaemonAction::Done,
    ensures
        ev == DaemonEvent::Reachable(true),
        step_spec(s, ev).0.task == Task::Idle,
{
}

/// A spawn is asked for only after the daemon was found not to answer and an
/// executable was found; the program is a bundled place or the search path.
pub proof fn spawn_only_after_probe(s: Supervisor, ev: DaemonEvent, program: usize)
    requires
        s.wf(),
        step_spec(s, ev).1 == DaemonAction::Spawn(program),
    ensures
        program <= BUNDLED_PLACES,
        (s.task is Starting && s.task->Starting_0 is ProbePath && ev == DaemonEvent::PathExists(true))
            || (s.task == Task::Starting(StartStage::SearchPath) && ev == DaemonEvent::SearchPathOk(true)),
{
}

impl Supervisor {
    /// A supervisor that holds no process and starts daemons with `limits`.
    pub open spec fn new_spec(limits: Limits) -> Supervisor {
        Supervisor { limits, holds_process: false, task: Task::Idle }
    }

    /// A supervisor that holds no process and starts daemons with `limits`.
    pub fn new(limits: Limits) -> (r: Supervisor)
        ensures
            r.wf(),
            r == Supervisor::new_spec(limits),
    {
        Supervisor { limits, holds_process: false, task: Task::Idle }
    }

    fn begin_stop(&mut self, restart: Option<Limits>) -> (r: DaemonAction)
        ensures
            (*final(self), r) == begin_stop_spec(*old(self), restart),
    {
        if self.holds_process {
            self.task = Task::Stopping(StopStage::Killing, restart);
            DaemonAction::Kill
        } else {
            self.task = Task::Stopping(StopStage::ShuttingDown, restart);
            DaemonAction::SendShutdown
        }
    }

    /// Begins a start; refused while another operation is in progress.
    pub fn start(&mut self) -> (r: DaemonAction)
        ensures
            (*final(self), r) == start_spec(*old(self)),
    {
        if self.task == Task::Idle {
            self.task = Task::Starting(StartStage::CheckReachable);
            DaemonAction::ProbeReachable
        } else {
            DaemonAction::Failed(DaemonFailure::Busy)
        }
    }

    /// Begins a stop; refused while another operation is in progress.
    pub fn stop(&mut self) -> (r: DaemonAction)
        ensures
            (*final(self), r) == stop_spec(*old(self)),
    {
        if self.task == Task::Idle {
            self.begin_stop(None)
        } else {
            DaemonAction::Failed(DaemonFailure::Busy)
        }
    }

    /// Begins a change of limits; refused while another operation is in progress.
    pub fn reconfigure(&mut self, limits: Limits) -> (r: DaemonAction)
        ensures
            (*final(self), r) == reconfigure_spec(*old(self), limits),
    {
        if self.task == Task::Idle {
            self.task = Task::Reconfiguring(limits);
            DaemonAction::ProbeReachable
        } else {
            DaemonAction::Failed(DaemonFailure::Busy)
        }
    }

    fn start_step(&mut self, stage: StartStage, ev: DaemonEvent) -> (r: DaemonAction)
        ensures
            (*final(self), r) == start_step_spec(*old(self), stage, ev),
    {
        match (stage, ev) {
            (StartStage::CheckReachable, DaemonEvent::Reachable(up)) => if up {
                self.task = Task::Idle;
                DaemonAction::Done
            } else {
                self.task = Task::Starting(StartStage::ProbePath(0));
                DaemonAction::ProbePath(0)
            },
            (StartStage::ProbePath(i), DaemonEvent::PathExists(found)) => if found {
                self.task = Task::Starting(StartStage::Spawning(i));
                DaemonAction::Spawn(i)
            } else if i < BUNDLED_PLACES - 1 {
                self.task = Task::Starting(StartStage::ProbePath(i + 1));
                DaemonAction::ProbePath(i + 1)
            } else {
                self.task = Task::Starting(StartStage::SearchPath);
                DaemonAction::ProbeSearchPath
            },
            (StartStage::SearchPath, DaemonEvent::SearchPathOk(found)) => if found {
                self.task = Task::Starting(StartStage::Spawning(BUNDLED_PLACES));
                DaemonAction::Spawn(BUNDLED_PLACES)
            } else {
                self.task = Task::Idle;
                DaemonAction::Failed(DaemonFailure::DaemonNotFound)
            },
            (StartStage::Spawning(_), DaemonEvent::Spawned(ok)) => if ok {
                self.holds_process = true;
                self.task = Task::Starting(StartStage::Polling);
                DaemonAction::ProbeReachable
            } else {
                self.task = Task::Idle;
                DaemonAction::Failed(DaemonFailure::SpawnFailed)
            },
            (StartStage::Polling, DaemonEvent::Reachable(up)) => if up {
                self.task = Task::Idle;
                DaemonAction::Done
            } else {
                DaemonAction::Sleep(POLL_INTERVAL_MS)
            },
            (StartStage::Polling, DaemonEvent::Slept(elapsed)) => if elapsed < STARTUP_TIMEOUT_MS {
                DaemonAction::ProbeReachable
            } else {
                self.task = Task::Idle;
                DaemonAction::Failed(DaemonFailure::StartupTimeout)
            },
            _ => DaemonAction::Failed(DaemonFailure::UnexpectedEvent),
        }
    }

    /// Takes the outcome of the last action and gives the next one.
    pub fn step(&mut self, ev: DaemonEvent) -> (r: DaemonAction)
        ensures
            (*final(self), r) == step_spec(*old(self), ev),
    {
        match self.task {
            Task::Idle => DaemonAction::Failed(DaemonFailure::UnexpectedEvent),
            Task::Reconfiguring(limits) => match ev {
                DaemonEvent::Reachable(up) => if up {
                    self.begin_stop(Some(limits))
                } else {
                    self.limits = limits;
                    self.task = Task::Idle;
                    DaemonAction::Done
                },
                _ => DaemonAction::Failed(DaemonFailure::UnexpectedEvent),
            },
            Task::Starting(stage) => self.start_step(stage, ev),
            Task::Stopping(stage, restart) => match (stage, ev) {
                (StopStage::Killing, DaemonEvent::Killed) => {
                    self.holds_process = false;
                    self.task = Task::Stopping(StopStage::ShuttingDown, restart);
                    DaemonAction::SendShutdown
                },
                (StopStage::ShuttingDown, DaemonEvent::ShutdownSent) => match restart {
                    None => {
                        self.task = Task::Idle;
                        DaemonAction::Done
                    },
                    Some(limits) => {
                        self.limits = limits;
                        self.task = Task::Starting(StartStage::CheckReachable);
                        DaemonAction::ProbeReachable
                    },
                },
                _ => DaemonAction::Failed(DaemonFailure::UnexpectedEvent),
            },
        }
    }
}

} // verus!
