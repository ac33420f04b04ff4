use backend_bridge::supervisor::{
    start_begin, start_after_probe, start_after_port, start_after_spawn, stop, status,
    spawn_failure_message, ProbeResult, Slot, SpawnResult, StartOutcome, StartStep,
    STARTUP_GRACE_SECS, WORKER_PORT,
};

fn run_start(slot: &mut Slot, probe: ProbeResult, port_in_use: bool, spawn: SpawnResult, spawn_count: &mut u32) -> StartOutcome {
    let mut step = start_begin(slot);
    if matches!(step, StartStep::ProbeProcess) {
        step = start_after_probe(slot, probe);
    }
    if matches!(step, StartStep::ProbePort) {
        step = start_after_port(port_in_use);
    }
    match step {
        StartStep::Finished(out) => out,
        StartStep::SpawnWorker => {
            *spawn_count += 1;
            start_after_spawn(slot, spawn)
        }
        _ => unreachable!(),
    }
}

#[test]
fn start_twice_is_idempotent() {
    let mut slot = Slot::Empty;
    let mut spawns: u32 = 0;
    let first = run_start(
        &mut slot,
        ProbeResult::StillRunning,
        false,
        SpawnResult::Spawned { pid: 42 },
        &mut spawns,
    );
    assert_eq!(first, StartOutcome::Started { pid: 42 });
    assert_eq!(slot, Slot::Tracking { pid: 42 });
    assert_eq!(spawns, 1);

    let second = run_start(
        &mut slot,
        ProbeResult::StillRunning,
        false,
        SpawnResult::Spawned { pid: 43 },
        &mut spawns,
    );
    assert_eq!(second, StartOutcome::AlreadyRunning);
    assert_eq!(slot, Slot::Tracking { pid: 42 });
    assert_eq!(spawns, 1);
}

#[test]
fn port_occupied_reports_running_without_spawn() {
    let mut slot = Slot::Empty;
    let mut spawns: u32 = 0;
    let out = run_start(
        &mut slot,
        ProbeResult::StillRunning,
        true,
        SpawnResult::Spawned { pid: 99 },
        &mut spawns,
    );
    assert_eq!(out, StartOutcome::AlreadyRunning);
    assert_eq!(slot, Slot::Empty);
    assert_eq!(spawns, 0);
}

#[test]
fn stop_on_empty_then_after_start() {
    let mut slot = Slot::Empty;
    assert_eq!(stop(&mut slot), false);
    assert_eq!(slot, Slot::Empty);

    let mut spawns: u32 = 0;
    let out = run_start(
        &mut slot,
        ProbeResult::StillRunning,
        false,
        SpawnResult::Spawned { pid: 7 },
        &mut spawns,
    );
    assert_eq!(out, StartOutcome::Started { pid: 7 });
    assert_eq!(stop(&mut slot), true);
    let view = status(&slot, 1234);
    assert!(!view.backend_running);
    assert_eq!(view.python_pid, None);
    assert_eq!(view.last_update_millis, 1234);
}

#[test]
fn exited_process_is_cleared_and_start_goes_on() {
    let mut slot = Slot::Tracking { pid: 5 };
    let step = start_after_probe(&mut slot, ProbeResult::Exited);
    assert_eq!(step, StartStep::ProbePort);
    assert_eq!(slot, Slot::Empty);

    let mut slot = Slot::Tracking { pid: 5 };
    let step = start_after_probe(&mut slot, ProbeResult::CheckFailed);
    assert_eq!(step, StartStep::ProbePort);
    assert_eq!(slot, Slot::Empty);
}

#[test]
fn spawn_failure_names_error_and_directory() {
    let mut slot = Slot::Empty;
    let out = start_after_spawn(
        &mut slot,
        SpawnResult::Failed {
            os_error: "No such file or directory".to_string(),
            working_dir: "/srv/app".to_string(),
        },
    );
    match out {
        StartOutcome::SpawnFailed { message } => assert_eq!(
            message,
            "Failed to start worker process: No such file or directory (working directory: /srv/app)"
        ),
        other => panic!("unexpected outcome: {:?}", other),
    }
    assert_eq!(slot, Slot::Empty);

    let msg = spawn_failure_message("denied", "/tmp");
    assert_eq!(msg, "Failed to start worker process: denied (working directory: /tmp)");
}

#[test]
fn status_reports_tracked_pid() {
    let slot = Slot::Tracking { pid: 31 };
    let view = status(&slot, 55);
    assert!(view.backend_running);
    assert_eq!(view.python_pid, Some(31));
    assert_eq!(view.last_update_millis, 55);
}

#[test]
fn fixed_constants() {
    assert_eq!(STARTUP_GRACE_SECS, 3);
    assert_eq!(WORKER_PORT, 8765);
}
