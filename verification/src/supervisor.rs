//! The sidecar supervisor: at most one live worker process, a race-free
//! start/status/terminate contract, and the exit-time teardown directive.
//!
//! The supervisor owns the single-occupancy worker slot. Spawning, probing
//! the filesystem and killing are the host's work; the supervisor decides
//! what to do and records the outcome, so every decision is verified here.
//! Callers are expected to hold one lock around a whole plan/act/finish
//! round, as the host application does, so no two rounds interleave.

use vstd::prelude::*;

use crate::platform::Platform;
use crate::platform::TerminationStrategy;
use crate::platform::spec_strategy_for;
use crate::LifecycleError;

verus! {

/// A handle to a live worker process: its identity as the host reported it.
#[derive(Clone, Copy, Debug, PartialEq, Eq, Structural)]
pub struct WorkerHandle {
    pub pid: u32,
}

/// The single-occupancy slot for the worker process. Its view is the
/// identity of the live worker, or `None` where no worker is running.
pub struct Supervisor {
    worker: Option<WorkerHandle>,
}

impl View for Supervisor {
    type V = Option<u32>;

    closed spec fn view(&self) -> Option<u32> {
        match self.worker {
            Some(w) => Some(w.pid),
            None => None,
        }
    }
}

/// What a start request asks the host to do.
pub enum StartPlan {
    /// The slot is occupied: starting again is a successful no-op.
    AlreadyRunning,
    /// No executable was found at either probe location.
    NotFound,
    /// Spawn the executable at this path with the worker's launch arguments.
    Spawn(String),
}

/// The mathematical shape of a start plan.
pub ghost enum StartPlanView {
    AlreadyRunning,
    NotFound,
    Spawn(Seq<char>),
}

impl View for StartPlan {
    type V = StartPlanView;

    open spec fn view(&self) -> StartPlanView {
        match self {
            StartPlan::AlreadyRunning => StartPlanView::AlreadyRunning,
            StartPlan::NotFound => StartPlanView::NotFound,
            StartPlan::Spawn(p) => StartPlanView::Spawn(p@),
        }
    }
}

/// An exit-time kill order: which process to put down, and how.
#[derive(Clone, Copy, Debug, PartialEq, Eq, Structural)]
pub struct KillDirective {
    pub pid: u32,
    pub strategy: TerminationStrategy,
}

/// Where the worker executable is taken from: the directory of the running
/// executable is preferred, the working directory is the fallback, and
/// absence at both is "absent", not an error.
pub open spec fn spec_resolve_worker_path(
    adjacent: Seq<char>,
    adjacent_exists: bool,
    cwd: Seq<char>,
    cwd_exists: bool,
) -> Option<Seq<char>> {
    if adjacent_exists {
        Some(adjacent)
    } else if cwd_exists {
        Some(cwd)
    } else {
        None
    }
}

pub open spec fn spec_start_plan(slot: Option<u32>, located: Option<Seq<char>>) -> StartPlanView {
    if slot is Some {
        StartPlanView::AlreadyRunning
    } else {
        match located {
            Some(p) => StartPlanView::Spawn(p),
            None => StartPlanView::NotFound,
        }
    }
}

pub open spec fn spec_finish_start(
    slot: Option<u32>,
    plan: StartPlanView,
    spawned: Option<u32>,
) -> (Option<u32>, Result<(), LifecycleError>) {
    match plan {
        StartPlanView::AlreadyRunning => (slot, Ok(())),
        StartPlanView::NotFound => (slot, Err(LifecycleError::WorkerNotFound)),
        StartPlanView::Spawn(_) => match spawned {
            Some(pid) => (Some(pid), Ok(())),
            None => (slot, Err(LifecycleError::SpawnFailure)),
        },
    }
}

pub open spec fn spec_terminate(slot: Option<u32>, killed: bool) -> (
    Option<u32>,
    Result<(), LifecycleError>,
) {
    match slot {
        None => (None, Ok(())),
        Some(_) => (
            None,
            if killed {
                Ok(())
            } else {
                Err(LifecycleError::TerminationFailure)
            },
        ),
    }
}

pub open spec fn spec_shutdown(slot: Option<u32>, p: Platform) -> (
    Option<u32>,
    Option<KillDirective>,
) {
    match slot {
        None => (None, None),
        Some(pid) => (None, Some(KillDirective { pid, strategy: spec_strategy_for(p) })),
    }
}

/// Picks the worker executable's location from the two probe results,
/// preferring the path adjacent to the running executable over the
/// working-directory fallback.
pub fn resolve_worker_path(
    adjacent: String,
    adjacent_exists: bool,
    cwd: String,
    cwd_exists: bool,
) -> (r: Option<String>)
    ensures
        r.deep_view() == spec_resolve_worker_path(adjacent@, adjacent_exists, cwd@, cwd_exists),
{
    if adjacent_exists {
        Some(adjacent)
    } else if cwd_exists {
        Some(cwd)
    } else {
        None
    }
}

/// Whether the tagging feature can be offered: true exactly when a probe
/// found the worker executable somewhere.
pub fn worker_available(adjacent_exists: bool, cwd_exists: bool) -> (r: bool)
    ensures
        r == (adjacent_exists || cwd_exists),
{
    adjacent_exists || cwd_exists
}

/// The fixed argument list the worker is launched with: it selects the
/// well-known local port 8002 and nothing else.
pub fn worker_launch_args() -> (r: Vec<String>)
    ensures
        r@.len() == 2,
        r@[0]@ == "--port"@,
        r@[1]@ == "8002"@,
{
    let mut args: Vec<String> = Vec::new();
    args.push("--port".to_owned());
    args.push("8002".to_owned());
    args
}

/// At most one worker is ever live, whatever sequence of start rounds runs:
/// the slot holds at most one handle by construction, and a start round on
/// an occupied slot directs no spawn and leaves the slot exactly as it was,
/// whatever was located and whatever a stray spawn report would say.
pub proof fn lemma_no_double_spawn(
    slot: Option<u32>,
    located: Option<Seq<char>>,
    spawned: Option<u32>,
)
    requires
        slot is Some,
    ensures
        spec_start_plan(slot, located) == StartPlanView::AlreadyRunning,
        spec_finish_start(slot, spec_start_plan(slot, located), spawned) == (
            slot,
            Ok::<(), LifecycleError>(()),
        ),
{
}

/// Termination followed by a start whose executable is located and whose
/// spawn the host grants succeeds and leaves exactly the one new worker,
/// no matter what the slot held before or how the old kill went.
pub proof fn lemma_restart_after_terminate(
    slot: Option<u32>,
    killed: bool,
    path: Seq<char>,
    pid: u32,
)
    ensures
        ({
            let (drained, _) = spec_terminate(slot, killed);
            let plan = spec_start_plan(drained, Some(path));
            let (restarted, outcome) = spec_finish_start(drained, plan, Some(pid));
            plan == StartPlanView::Spawn(path) && outcome == Ok::<(), LifecycleError>(())
                && restarted == Some(pid)
        }),
{
}

/// Exit-time teardown leaves no worker held on any platform, and a held
/// worker is named in the kill directive together with that platform's own
/// termination strategy.
pub proof fn lemma_shutdown_drains(slot: Option<u32>, p: Platform)
    ensures
        spec_shutdown(slot, p).0 is None,
        slot matches Some(pid) ==> spec_shutdown(slot, p).1 == Some(
            (KillDirective { pid, strategy: spec_strategy_for(p) }),
        ),
        slot is None ==> spec_shutdown(slot, p).1 is None,
{
}

/// When the worker executable exists at both probe locations, the path
/// adjacent to the running executable wins over the working-directory
/// fallback.
pub proof fn lemma_adjacent_preferred(adjacent: Seq<char>, cwd: Seq<char>)
    ensures
        spec_resolve_worker_path(adjacent, true, cwd, true) == Some(adjacent),
{
}

/// The availability check agrees with path resolution: some probe found
/// the worker exactly when a path resolves.
pub proof fn lemma_available_iff_resolved(
    adjacent: Seq<char>,
    adjacent_exists: bool,
    cwd: Seq<char>,
    cwd_exists: bool,
)
    ensures
        (adjacent_exists || cwd_exists) == (spec_resolve_worker_path(
            adjacent,
            adjacent_exists,
            cwd,
            cwd_exists,
        ) is Some),
{
}

impl Supervisor {
    /// A supervisor with an empty slot: no worker is running.
    pub fn new() -> (r: Self)
        ensures
            r@ is None,
    {
        Supervisor { worker: None }
    }

    /// Whether the slot holds a live worker.
    pub fn is_running(&self) -> (r: bool)
        ensures
            r == (self@ is Some),
    {
        self.worker.is_some()
    }

    /// The identity of the held worker, if any.
    pub fn worker_pid(&self) -> (r: Option<u32>)
        ensures
            r == self@,
    {
        match &self.worker {
            Some(w) => Some(w.pid),
            None => None,
        }
    }

    /// Decides a start request: an occupied slot makes it a successful
    /// no-op, an absent executable is `NotFound`, and only an empty slot
    /// with a located executable directs a spawn.
    pub fn plan_start(&self, located: Option<String>) -> (r: StartPlan)
        ensures
            r@ == spec_start_plan(self@, located.deep_view()),
    {
        if self.worker.is_some() {
            StartPlan::AlreadyRunning
        } else {
            match located {
                Some(p) => StartPlan::Spawn(p),
                None => StartPlan::NotFound,
            }
        }
    }

    /// Records the outcome of the host's answer to a start plan. Only a
    /// `Spawn` plan mutates the slot, and only when the host reports a
    /// process identity; a failed spawn leaves the slot empty and reports
    /// `SpawnFailure`, an absent executable reports `WorkerNotFound`.
    ///
    /// The plan must be the one made for this supervisor under the lock the
    /// caller holds, so a `Spawn` plan implies the slot is still empty.
    pub fn finish_start(&mut self, plan: &StartPlan, spawned: Option<u32>) -> (r: Result<
        (),
        LifecycleError,
    >)
        requires
            plan@ matches StartPlanView::Spawn(_) ==> old(self)@ is None,
        ensures
            (final(self)@, r) == spec_finish_start(old(self)@, plan@, spawned),
    {
        match plan {
            StartPlan::AlreadyRunning => Ok(()),
            StartPlan::NotFound => Err(LifecycleError::WorkerNotFound),
            StartPlan::Spawn(_) => match spawned {
                Some(pid) => {
                    self.worker = Some(WorkerHandle { pid });
                    Ok(())
                },
                None => Err(LifecycleError::SpawnFailure),
            },
        }
    }

    /// Records an explicit termination: the slot is empty afterwards in
    /// every case. An empty slot is a successful no-op; for an occupied one
    /// `killed` is the host's report on putting the process down, and a
    /// refusal is surfaced as `TerminationFailure`.
    pub fn terminate(&mut self, killed: bool) -> (r: Result<(), LifecycleError>)
        ensures
            (final(self)@, r) == spec_terminate(old(self)@, killed),
    {
        match self.worker.take() {
            None => Ok(()),
            Some(_) => {
                if killed {
                    Ok(())
                } else {
                    Err(LifecycleError::TerminationFailure)
                }
            },
        }
    }

    /// Drains the slot for application exit. The slot is empty afterwards;
    /// if a worker was held, the returned directive names its identity and
    /// the platform's termination strategy. A failure of the kill itself is
    /// the caller's to log: exit is never blocked on it.
    pub fn shutdown_directive(&mut self, platform: Platform) -> (r: Option<KillDirective>)
        ensures
            (final(self)@, r) == spec_shutdown(old(self)@, platform),
    {
        match self.worker.take() {
            None => None,
            Some(w) => Some(
                KillDirective { pid: w.pid, strategy: crate::platform::strategy_for(platform) },
            ),
        }
    }
}

} // verus!
