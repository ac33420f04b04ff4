//! The process supervisor: one mutually-exclusive slot holds the tracked
//! worker process, or nothing. A start attempt is a short run of decisions —
//! probe the tracked process, probe the worker's port, spawn — and each
//! decision is a verified step here. The outside work between the steps
//! (the non-blocking liveness check, the TCP probe, the spawn itself, the
//! fixed grace delay) is the driver's, which feeds every result back in as
//! a plain value.

use vstd::prelude::*;
use vstd::string::StringExecFns;

verus! {

/// The fixed delay after a successful spawn, granted to the worker to finish
/// initializing before the start attempt reports success.
pub const STARTUP_GRACE_SECS: u64 = 3;

/// The local port the worker's API listens on; a listener already there
/// counts as a running worker.
pub const WORKER_PORT: u16 = 8765;

/// The one shared slot: either no worker is tracked, or one with its
/// process id.
#[derive(Clone, Copy, PartialEq, Eq, Structural, Debug)]
pub enum Slot {
    Empty,
    Tracking { pid: u32 },
}

/// What a non-blocking liveness probe of the tracked process reported.
/// A probe that itself failed is treated like an exited process: the stale
/// handle is dropped.
#[derive(Clone, Copy, PartialEq, Eq, Structural, Debug)]
pub enum ProbeResult {
    StillRunning,
    Exited,
    CheckFailed,
}

/// How a spawn attempt ended: the new process id, or the OS error together
/// with the working directory the attempt was made from.
#[derive(PartialEq, Eq, Debug)]
pub enum SpawnResult {
    Spawned { pid: u32 },
    Failed { os_error: String, working_dir: String },
}

/// The outcome of a whole start attempt. AlreadyRunning is a success: it
/// reports that no new process was needed.
#[derive(PartialEq, Eq, Debug)]
pub enum StartOutcome {
    AlreadyRunning,
    Started { pid: u32 },
    SpawnFailed { message: String },
}

/// The next thing a start attempt asks its driver to do.
#[derive(PartialEq, Eq, Debug)]
pub enum StartStep {
    ProbeProcess,
    ProbePort,
    SpawnWorker,
    Finished(StartOutcome),
}

/// The fast, purely local view of the slot: whether a worker is tracked,
/// its process id if so, and the wall-clock time of the query.
#[derive(Clone, Copy, PartialEq, Eq, Debug)]
pub struct SystemStatus {
    pub backend_running: bool,
    pub python_pid: Option<u32>,
    pub last_update_millis: u64,
}

pub open spec fn is_tracking(slot: Slot) -> bool {
    slot is Tracking
}

pub open spec fn tracked_pid(slot: Slot) -> Option<u32> {
    match slot {
        Slot::Tracking { pid } => Some(pid),
        Slot::Empty => None,
    }
}

pub open spec fn spec_start_begin(slot: Slot) -> StartStep {
    if slot is Tracking {
        StartStep::ProbeProcess
    } else {
        StartStep::ProbePort
    }
}

/// First step of a start attempt: a tracked worker is probed for liveness;
/// an empty slot goes straight to the port probe.
pub fn start_begin(slot: &Slot) -> (step: StartStep)
    ensures
        step == spec_start_begin(*slot),
{
    match *slot {
        Slot::Tracking { .. } => StartStep::ProbeProcess,
        Slot::Empty => StartStep::ProbePort,
    }
}

pub open spec fn spec_start_after_probe(slot: Slot, probe: ProbeResult) -> (Slot, StartStep) {
    if probe is StillRunning {
        (slot, StartStep::Finished(StartOutcome::AlreadyRunning))
    } else {
        (Slot::Empty, StartStep::ProbePort)
    }
}

/// After the liveness probe of a tracked worker: a live process ends the
/// attempt as "already running" with the slot untouched; an exited (or
/// unprobeable) process is cleared from the slot and the attempt moves on
/// to the port probe.
pub fn start_after_probe(slot: &mut Slot, probe: ProbeResult) -> (step: StartStep)
    requires
        is_tracking(*old(slot)),
    ensures
        *final(slot) == spec_start_after_probe(*old(slot), probe).0,
        step == spec_start_after_probe(*old(slot), probe).1,
{
    match probe {
        ProbeResult::StillRunning => StartStep::Finished(StartOutcome::AlreadyRunning),
        ProbeResult::Exited | ProbeResult::CheckFailed => {
            *slot = Slot::Empty;
            StartStep::ProbePort
        },
    }
}

pub open spec fn spec_start_after_port(port_in_use: bool) -> StartStep {
    if port_in_use {
        StartStep::Finished(StartOutcome::AlreadyRunning)
    } else {
        StartStep::SpawnWorker
    }
}

/// After the port probe: a listener already on the worker's port counts as
/// a running worker and the attempt ends as "already running" — nothing is
/// spawned. A free port calls for a spawn.
pub fn start_after_port(port_in_use: bool) -> (step: StartStep)
    ensures
        step == spec_start_after_port(port_in_use),
{
    if port_in_use {
        StartStep::Finished(StartOutcome::AlreadyRunning)
    } else {
        StartStep::SpawnWorker
    }
}

pub open spec fn spec_spawn_failure_message(os_error: Seq<char>, working_dir: Seq<char>) -> Seq<
    char,
> {
    "Failed to start worker process: "@ + os_error + " (working directory: "@ + working_dir + ")"@
}

/// The spawn-failure report: it names the underlying OS error and the
/// working directory the spawn was attempted from.
pub fn spawn_failure_message(os_error: &str, working_dir: &str) -> (msg: String)
    ensures
        msg@ == spec_spawn_failure_message(os_error@, working_dir@),
{
    let mut msg = String::from_str("Failed to start worker process: ");
    msg.append(os_error);
    msg.append(" (working directory: ");
    msg.append(working_dir);
    msg.append(")");
    msg
}

pub open spec fn spec_start_after_spawn(slot: Slot, outcome: SpawnResult) -> Slot {
    match outcome {
        SpawnResult::Spawned { pid } => Slot::Tracking { pid },
        SpawnResult::Failed { .. } => slot,
    }
}

/// Last step of a start attempt: a successful spawn is stored in the slot
/// and reported with its process id — the driver then waits the fixed grace
/// period before surfacing the success. A failed spawn leaves the slot
/// empty and is reported with the descriptive message.
pub fn start_after_spawn(slot: &mut Slot, outcome: SpawnResult) -> (out: StartOutcome)
    requires
        !is_tracking(*old(slot)),
    ensures
        *final(slot) == spec_start_after_spawn(*old(slot), outcome),
        outcome matches SpawnResult::Spawned { pid } ==> out == (StartOutcome::Started { pid }),
        outcome matches SpawnResult::Failed { os_error, working_dir } ==> out matches StartOutcome::SpawnFailed { message }
            && message@ == spec_spawn_failure_message(os_error@, working_dir@),
{
    match outcome {
        SpawnResult::Spawned { pid } => {
            *slot = Slot::Tracking { pid };
            StartOutcome::Started { pid }
        },
        SpawnResult::Failed { os_error, working_dir } => {
            StartOutcome::SpawnFailed {
                message: spawn_failure_message(os_error.as_str(), working_dir.as_str()),
            }
        },
    }
}

pub open spec fn spec_stop(slot: Slot) -> (Slot, bool) {
    (Slot::Empty, is_tracking(slot))
}

/// stop clears the slot and reports whether a worker had been tracked at
/// all; the caller takes ownership of the released handle and terminates it
/// best-effort.
pub fn stop(slot: &mut Slot) -> (had: bool)
    ensures
        *final(slot) == spec_stop(*old(slot)).0,
        had == spec_stop(*old(slot)).1,
{
    match *slot {
        Slot::Tracking { .. } => {
            *slot = Slot::Empty;
            true
        },
        Slot::Empty => false,
    }
}

pub open spec fn spec_status(slot: Slot, now_millis: u64) -> SystemStatus {
    SystemStatus {
        backend_running: is_tracking(slot),
        python_pid: tracked_pid(slot),
        last_update_millis: now_millis,
    }
}

/// A read-only report of the last-known state: no liveness probe is made
/// here, distinct from the active checks of a start attempt.
pub fn status(slot: &Slot, now_millis: u64) -> (s: SystemStatus)
    ensures
        s == spec_status(*slot, now_millis),
{
    match *slot {
        Slot::Tracking { pid } => SystemStatus {
            backend_running: true,
            python_pid: Some(pid),
            last_update_millis: now_millis,
        },
        Slot::Empty => SystemStatus {
            backend_running: false,
            python_pid: None,
            last_update_millis: now_millis,
        },
    }
}

/// Start is idempotent: a second start attempt while a live worker is
/// tracked finishes as "already running", leaves the slot as it was, and
/// never reaches the spawn step.
pub proof fn lemma_start_idempotent(slot: Slot)
    requires
        is_tracking(slot),
    ensures
        spec_start_begin(slot) == StartStep::ProbeProcess,
        spec_start_after_probe(slot, ProbeResult::StillRunning).0 == slot,
        spec_start_after_probe(slot, ProbeResult::StillRunning).1 == StartStep::Finished(
            StartOutcome::AlreadyRunning,
        ),
        spec_start_after_probe(slot, ProbeResult::StillRunning).1 != StartStep::SpawnWorker,
{
}

/// A listener already on the worker's port ends the start attempt as
/// "already running", whatever the slot held before: the spawn step is
/// never reached and no process is created.
pub proof fn lemma_port_occupied_no_spawn()
    ensures
        spec_start_after_port(true) == StartStep::Finished(StartOutcome::AlreadyRunning),
        spec_start_after_port(true) != StartStep::SpawnWorker,
{
}

/// stop on an empty slot reports "nothing to stop" without error; stop
/// right after a successful start reports "stopped", and a status read
/// after that shows no tracked worker.
pub proof fn lemma_stop_after_start(pid: u32, now_millis: u64)
    ensures
        spec_stop(Slot::Empty) == (Slot::Empty, false),
        ({
            let after_start = spec_start_after_spawn(Slot::Empty, SpawnResult::Spawned { pid });
            let stopped = spec_stop(after_start);
            &&& after_start == (Slot::Tracking { pid })
            &&& stopped.1 == true
            &&& stopped.0 == Slot::Empty
            &&& !spec_status(stopped.0, now_millis).backend_running
            &&& spec_status(stopped.0, now_millis).python_pid is None
        }),
{
}

} // verus!
