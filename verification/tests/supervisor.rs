use easy_maa::config::{AppConfig, CommandConfig, EnvOverrides};
use easy_maa::controller::{ActionKind, AppState};
use easy_maa::exec::{ExecSession, ExecStage, ExecStep, ExecutionError, RawOutput};
use easy_maa::logbuf::{LogBuffer, LogLevel};
use easy_maa::status::{SoftwareKind, SoftwarePhase, StatusTable};

fn command(label: &str, program: &str, args: &[&str], requires_sudo: bool) -> CommandConfig {
    CommandConfig {
        label: label.to_string(),
        program: program.to_string(),
        args: args.iter().map(|a| a.to_string()).collect(),
        requires_sudo,
        working_dir: None,
        env: Vec::new(),
    }
}

fn test_config(program_start: &str, program_stop: &str, sudo: bool) -> AppConfig {
    AppConfig {
        emulator_start: command("start emulator", program_start, &["start", "maa-container"], sudo),
        emulator_stop: command("stop emulator", program_stop, &["stop", "maa-container"], sudo),
        maa_startup: command("maa startup", "maa", &["startup", "Official"], false),
    }
}

fn raw(code: Option<i32>, stdout: &str, stderr: &str) -> RawOutput {
    RawOutput { status_code: code, stdout: stdout.to_string(), stderr: stderr.to_string() }
}

#[test]
fn log_buffer_never_exceeds_capacity_and_evicts_fifo() {
    let mut buf = LogBuffer::new();
    for i in 0..250 {
        buf.push(LogLevel::Info, format!("m{}", i));
        assert!(buf.len() <= 200);
    }
    let snap = buf.snapshot();
    assert_eq!(snap.len(), 200);
    // The most recent 200 entries survive, in original order.
    assert_eq!(snap[0].message, "m50");
    assert_eq!(snap[199].message, "m249");
    for (k, entry) in snap.iter().enumerate() {
        assert_eq!(entry.message, format!("m{}", 50 + k));
    }
}

#[test]
fn log_buffer_below_capacity_keeps_everything() {
    let mut buf = LogBuffer::new();
    for i in 0..5 {
        buf.push(LogLevel::Warn, format!("w{}", i));
    }
    let snap = buf.snapshot();
    assert_eq!(snap.len(), 5);
    assert_eq!(snap[0].message, "w0");
    assert_eq!(snap[4].message, "w4");
}

#[test]
fn status_update_is_visible_in_snapshot() {
    let mut table = StatusTable::new();
    table.update(SoftwareKind::Emulator, SoftwarePhase::Running, Some("up".to_string()));
    let snap = table.snapshot_all();
    let entry = snap.iter().find(|s| s.kind == SoftwareKind::Emulator).unwrap();
    assert_eq!(entry.phase, SoftwarePhase::Running);
    assert_eq!(entry.last_message.as_deref(), Some("up"));
}

#[test]
fn status_update_without_message_keeps_previous_message() {
    let mut table = StatusTable::new();
    table.update(SoftwareKind::Maa, SoftwarePhase::Running, Some("busy".to_string()));
    table.update(SoftwareKind::Maa, SoftwarePhase::Idle, None);
    let snap = table.snapshot_all();
    let entry = snap.iter().find(|s| s.kind == SoftwareKind::Maa).unwrap();
    assert_eq!(entry.phase, SoftwarePhase::Idle);
    assert_eq!(entry.last_message.as_deref(), Some("busy"));
}

#[test]
fn status_update_leaves_other_component_alone() {
    let mut table = StatusTable::new();
    table.update(SoftwareKind::Emulator, SoftwarePhase::Starting, Some("going".to_string()));
    let snap = table.snapshot_all();
    let maa = snap.iter().find(|s| s.kind == SoftwareKind::Maa).unwrap();
    assert_eq!(maa.phase, SoftwarePhase::Idle);
    assert_eq!(maa.last_message, None);
}

#[test]
fn snapshots_do_not_mutate_state() {
    let mut state = AppState::new(test_config("true", "false", false));
    state.push_log(LogLevel::Info, "one".to_string());
    state.update_status(SoftwareKind::Emulator, SoftwarePhase::Running, Some("r".to_string()));

    let logs_a = state.logs_snapshot();
    let logs_b = state.logs_snapshot();
    assert_eq!(logs_a.len(), logs_b.len());
    for (x, y) in logs_a.iter().zip(logs_b.iter()) {
        assert_eq!(x.message, y.message);
        assert_eq!(x.level, y.level);
        assert_eq!(x.timestamp_ms, y.timestamp_ms);
    }

    let st_a = state.statuses_snapshot();
    let st_b = state.statuses_snapshot();
    assert_eq!(st_a.len(), st_b.len());
    for (x, y) in st_a.iter().zip(st_b.iter()) {
        assert_eq!(x.kind, y.kind);
        assert_eq!(x.phase, y.phase);
        assert_eq!(x.last_message, y.last_message);
        assert_eq!(x.last_updated_ms, y.last_updated_ms);
    }
}

#[test]
fn escalation_runs_pkexec_after_password_failure() {
    let spec = command("stop emulator", "podman", &["stop", "maa-container"], true);
    let (mut session, first) = ExecSession::start(spec, false, None);
    assert_eq!(session.stage, ExecStage::Sudo);
    assert_eq!(first.program, "sudo");
    assert_eq!(first.args, vec!["-n", "podman", "stop", "maa-container"]);

    let step = session.on_result(raw(Some(1), "", "sudo: a password is required"));
    let mut invocations = 1;
    match step {
        ExecStep::Run(inv) => {
            invocations += 1;
            assert_eq!(inv.program, "pkexec");
            assert_eq!(inv.args, vec!["podman", "stop", "maa-container"]);
        }
        ExecStep::Finished(_) => panic!("expected the pkexec stage"),
    }
    // The pkexec result is final, whatever it is.
    let step2 = session.on_result(raw(Some(0), "done", ""));
    match step2 {
        ExecStep::Finished(outcome) => {
            assert!(outcome.success);
            assert_eq!(outcome.exit_code, 0);
            assert_eq!(outcome.stdout, "done");
        }
        ExecStep::Run(_) => panic!("pkexec must run exactly once"),
    }
    assert_eq!(invocations, 2);
}

#[test]
fn escalation_skips_pkexec_on_unrelated_failure() {
    let spec = command("stop emulator", "podman", &["stop", "maa-container"], true);
    let (mut session, first) = ExecSession::start(spec, false, None);
    assert_eq!(first.program, "sudo");
    let step = session.on_result(raw(Some(1), "", "permission denied"));
    match step {
        ExecStep::Finished(outcome) => {
            assert!(!outcome.success);
            assert_eq!(outcome.exit_code, 1);
            assert_eq!(outcome.stderr, "permission denied");
        }
        ExecStep::Run(_) => panic!("pkexec must not run without a password prompt"),
    }
}

#[test]
fn privileged_caller_runs_directly_even_with_sudo_required() {
    let spec = command("stop emulator", "podman", &["stop", "maa-container"], true);
    let (session, first) = ExecSession::start(spec, true, None);
    assert_eq!(session.stage, ExecStage::Direct);
    assert_eq!(first.program, "podman");
    assert_eq!(first.args, vec!["stop", "maa-container"]);
}

#[test]
fn pkexec_failure_is_returned_as_the_outcome() {
    let spec = command("stop emulator", "podman", &["stop", "maa-container"], true);
    let (mut session, _) = ExecSession::start(spec, false, None);
    let step = session.on_result(raw(Some(1), "", "password required for user"));
    assert!(matches!(step, ExecStep::Run(_)));
    let step2 = session.on_result(raw(Some(126), "", "authorization dismissed"));
    match step2 {
        ExecStep::Finished(outcome) => {
            assert!(!outcome.success);
            assert_eq!(outcome.exit_code, 126);
        }
        ExecStep::Run(_) => panic!("the protocol has only two stages"),
    }
}

#[test]
fn missing_exit_code_normalizes_to_minus_one() {
    let spec = command("custom", "prog", &[], false);
    let (mut session, _) = ExecSession::start(spec, false, None);
    let step = session.on_result(raw(None, "", "Failed to execute command: not found"));
    match step {
        ExecStep::Finished(outcome) => {
            assert!(!outcome.success);
            assert_eq!(outcome.exit_code, -1);
            assert_eq!(outcome.stderr, "Failed to execute command: not found");
        }
        ExecStep::Run(_) => panic!("a direct result is final"),
    }
}

#[test]
fn captured_streams_are_trimmed() {
    let spec = command("custom", "prog", &[], false);
    let (mut session, _) = ExecSession::start(spec, false, None);
    let step = session.on_result(raw(Some(0), "  hello world \n", "\t warn \r\n"));
    match step {
        ExecStep::Finished(outcome) => {
            assert_eq!(outcome.stdout, "hello world");
            assert_eq!(outcome.stderr, "warn");
        }
        ExecStep::Run(_) => panic!("a direct result is final"),
    }
}

#[test]
fn working_dir_home_prefix_is_expanded() {
    let mut spec = command("custom", "prog", &[], false);
    spec.working_dir = Some("~/jobs".to_string());
    let (_, inv) = ExecSession::start(spec, false, Some("/home/user".to_string()));
    assert_eq!(inv.working_dir.as_deref(), Some("/home/user/jobs"));
}

#[test]
fn working_dir_kept_literal_without_home() {
    let mut spec = command("custom", "prog", &[], false);
    spec.working_dir = Some("~/jobs".to_string());
    let (_, inv) = ExecSession::start(spec, false, None);
    assert_eq!(inv.working_dir.as_deref(), Some("~/jobs"));
}

#[test]
fn emulator_start_scenario_succeeds() {
    // Scenario: EmulatorStart with the stub program `true`, no sudo.
    let mut state = AppState::new(test_config("true", "false", false));
    let started = state.begin_action(ActionKind::EmulatorStart, false, None);
    assert_eq!(started.status.phase, SoftwarePhase::Starting);
    assert_eq!(started.invocation.program, "true");
    assert!(started.notify.is_none());
    assert_eq!(started.log.level, LogLevel::Info);
    assert_eq!(started.log.message, "executing start emulator => true start maa-container");

    let mut session = started.session;
    // What running `true` reports: exit 0, no output.
    let step = session.on_result(raw(Some(0), "", ""));
    let outcome = match step {
        ExecStep::Finished(o) => o,
        ExecStep::Run(_) => panic!("no escalation was configured"),
    };
    assert!(outcome.success);
    assert_eq!(outcome.exit_code, 0);

    let finished = state.finish_action(ActionKind::EmulatorStart, Ok(outcome));
    assert_eq!(finished.status.phase, SoftwarePhase::Running);
    let result = finished.result.unwrap();
    assert!(result.success);
    assert_eq!(result.exit_code, 0);

    let statuses = state.statuses_snapshot();
    let emu = statuses.iter().find(|s| s.kind == SoftwareKind::Emulator).unwrap();
    assert_eq!(emu.phase, SoftwarePhase::Running);

    let logs = state.logs_snapshot();
    assert!(logs.iter().any(|e| e.level == LogLevel::Info));
    assert!(logs.iter().any(|e| e.message == "start emulator completed"));
}

#[test]
fn emulator_stop_scenario_fails_with_full_trail() {
    // Scenario: EmulatorStop with the stub program `false`, no sudo.
    let mut state = AppState::new(test_config("true", "false", false));
    let started = state.begin_action(ActionKind::EmulatorStop, false, None);
    assert_eq!(started.status.phase, SoftwarePhase::Stopping);
    assert_eq!(started.invocation.program, "false");

    let mut session = started.session;
    // What running `false` reports: exit 1, no output.
    let step = session.on_result(raw(Some(1), "", ""));
    let outcome = match step {
        ExecStep::Finished(o) => o,
        ExecStep::Run(_) => panic!("no escalation was configured"),
    };
    assert!(!outcome.success);
    assert_eq!(outcome.exit_code, 1);

    let finished = state.finish_action(ActionKind::EmulatorStop, Ok(outcome));
    assert_eq!(finished.status.phase, SoftwarePhase::Error);
    assert_eq!(
        finished.status.last_message.as_deref(),
        Some("stop emulator failed, exit 1")
    );
    assert_eq!(finished.result.unwrap_err(), "stop emulator failed, exit 1");

    let statuses = state.statuses_snapshot();
    let emu = statuses.iter().find(|s| s.kind == SoftwareKind::Emulator).unwrap();
    assert_eq!(emu.phase, SoftwarePhase::Error);

    // Both sections appear, with placeholders for the empty streams.
    let logs = state.logs_snapshot();
    assert!(logs.iter().any(|e| {
        e.level == LogLevel::Error && e.message == "[STDOUT] (no output)"
    }));
    assert!(logs.iter().any(|e| {
        e.level == LogLevel::Error && e.message == "[STDERR] (no output)"
    }));
    assert!(logs.iter().any(|e| {
        e.level == LogLevel::Error && e.message == "stop emulator failed, exit 1"
    }));
}

#[test]
fn escalated_stop_succeeds_via_pkexec_end_to_end() {
    // Scenario: requires_sudo, sudo -n exits 1 wanting a password,
    // pkexec exits 0; two child invocations in all.
    let mut state = AppState::new(test_config("true", "podman", true));
    let started = state.begin_action(ActionKind::EmulatorStop, false, None);
    assert_eq!(started.invocation.program, "sudo");
    let mut invocations = 1;

    let mut session = started.session;
    let step = session.on_result(raw(Some(1), "", "sudo: a password is required"));
    let inv2 = match step {
        ExecStep::Run(inv) => inv,
        ExecStep::Finished(_) => panic!("expected the pkexec stage"),
    };
    invocations += 1;
    assert_eq!(inv2.program, "pkexec");

    let step2 = session.on_result(raw(Some(0), "", ""));
    let outcome = match step2 {
        ExecStep::Finished(o) => o,
        ExecStep::Run(_) => panic!("pkexec must run exactly once"),
    };
    assert_eq!(invocations, 2);
    assert!(outcome.success);

    let finished = state.finish_action(ActionKind::EmulatorStop, Ok(outcome));
    assert_eq!(finished.status.phase, SoftwarePhase::Stopped);
    assert!(finished.result.unwrap().success);
}

#[test]
fn maa_startup_fires_notifications() {
    let mut state = AppState::new(test_config("true", "false", false));
    let started = state.begin_action(ActionKind::MaaStartup, false, None);
    assert_eq!(started.status.phase, SoftwarePhase::Running);
    let (title, body) = started.notify.expect("the task action announces itself");
    assert_eq!(title, "archMAA");
    assert_eq!(body, "maa task starting");

    let mut session = started.session;
    let step = session.on_result(raw(Some(0), "", ""));
    let outcome = match step {
        ExecStep::Finished(o) => o,
        ExecStep::Run(_) => panic!("no escalation was configured"),
    };
    let finished = state.finish_action(ActionKind::MaaStartup, Ok(outcome));
    assert_eq!(finished.status.phase, SoftwarePhase::Idle);
    let (title2, body2) = finished.notify.expect("success is announced");
    assert_eq!(title2, "archMAA");
    assert_eq!(body2, "maa task finished");
}

#[test]
fn success_with_output_logs_both_streams() {
    let mut state = AppState::new(test_config("true", "false", false));
    let started = state.begin_action(ActionKind::EmulatorStart, false, None);
    let mut session = started.session;
    let step = session.on_result(raw(Some(0), "container up", "slow storage"));
    let outcome = match step {
        ExecStep::Finished(o) => o,
        ExecStep::Run(_) => panic!("no escalation was configured"),
    };
    let finished = state.finish_action(ActionKind::EmulatorStart, Ok(outcome));
    assert_eq!(finished.logs.len(), 3);
    assert_eq!(finished.logs[0].message, "start emulator completed");
    assert_eq!(finished.logs[1].level, LogLevel::Info);
    assert_eq!(finished.logs[1].message, "[STDOUT] container up");
    assert_eq!(finished.logs[2].level, LogLevel::Warn);
    assert_eq!(finished.logs[2].message, "[STDERR] slow storage");
}

#[test]
fn success_with_no_output_logs_only_completion() {
    let mut state = AppState::new(test_config("true", "false", false));
    let started = state.begin_action(ActionKind::EmulatorStart, false, None);
    let mut session = started.session;
    let step = session.on_result(raw(Some(0), "", ""));
    let outcome = match step {
        ExecStep::Finished(o) => o,
        ExecStep::Run(_) => panic!("no escalation was configured"),
    };
    let finished = state.finish_action(ActionKind::EmulatorStart, Ok(outcome));
    assert_eq!(finished.logs.len(), 1);
    assert_eq!(finished.logs[0].message, "start emulator completed");
}

#[test]
fn worker_error_moves_component_to_error() {
    let mut state = AppState::new(test_config("true", "false", false));
    state.begin_action(ActionKind::EmulatorStart, false, None);
    let err = ExecutionError { message: "worker thread crashed".to_string() };
    let finished = state.finish_action(ActionKind::EmulatorStart, Err(err));
    assert_eq!(finished.status.phase, SoftwarePhase::Error);
    assert_eq!(finished.status.last_message.as_deref(), Some("worker thread crashed"));
    assert_eq!(finished.logs.len(), 1);
    assert_eq!(finished.logs[0].level, LogLevel::Error);
    assert_eq!(finished.logs[0].message, "worker thread crashed");
    assert_eq!(finished.result.unwrap_err(), "worker thread crashed");
}

#[test]
fn action_kinds_map_to_targets_and_phases() {
    assert_eq!(ActionKind::EmulatorStart.target(), SoftwareKind::Emulator);
    assert_eq!(ActionKind::EmulatorStop.target(), SoftwareKind::Emulator);
    assert_eq!(ActionKind::MaaStartup.target(), SoftwareKind::Maa);
    assert_eq!(ActionKind::EmulatorStart.start_phase(), SoftwarePhase::Starting);
    assert_eq!(ActionKind::EmulatorStop.start_phase(), SoftwarePhase::Stopping);
    assert_eq!(ActionKind::MaaStartup.start_phase(), SoftwarePhase::Running);
    assert_eq!(ActionKind::EmulatorStart.success_phase(), SoftwarePhase::Running);
    assert_eq!(ActionKind::EmulatorStop.success_phase(), SoftwarePhase::Stopped);
    assert_eq!(ActionKind::MaaStartup.success_phase(), SoftwarePhase::Idle);
}

#[test]
fn initial_state_matches_process_start() {
    let state = AppState::new(AppConfig::from_env(EnvOverrides::none()));
    let statuses = state.statuses_snapshot();
    let emu = statuses.iter().find(|s| s.kind == SoftwareKind::Emulator).unwrap();
    let maa = statuses.iter().find(|s| s.kind == SoftwareKind::Maa).unwrap();
    assert_eq!(emu.phase, SoftwarePhase::Stopped);
    assert_eq!(maa.phase, SoftwarePhase::Idle);
    assert!(state.logs_snapshot().is_empty());
}
