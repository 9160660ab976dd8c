use sidecar_core::gate::{run_gate, gate_step, GateAction, GateState, MAX_ATTEMPTS, RETRY_DELAY_MS};
use sidecar_core::health::{check_server_health, interpret_probe, ProbeOutcome};
use sidecar_core::registry::ProcessRegistry;
use sidecar_core::relay::{run_relay, relay_step, OutputEvent, RelayAction, RelayState};
use sidecar_core::text::{
    i32_dec, option_code_str, success_message, tag_server_err_line, tag_server_line,
    termination_message, timeout_message, u64_dec,
};

#[test]
fn bridge_reports_true_only_for_success_status() {
    // One probe outcome of each kind: success, HTTP error status, connection
    // refused (a transport error), timeout.
    assert_eq!(check_server_health(&ProbeOutcome::Response { status: 200 }), Ok(true));
    assert_eq!(check_server_health(&ProbeOutcome::Response { status: 500 }), Ok(false));
    assert_eq!(check_server_health(&ProbeOutcome::TransportError), Ok(false));
    assert_eq!(check_server_health(&ProbeOutcome::Timeout), Ok(false));
}

#[test]
fn success_statuses_are_exactly_the_2xx_class() {
    assert!(interpret_probe(&ProbeOutcome::Response { status: 200 }));
    assert!(interpret_probe(&ProbeOutcome::Response { status: 204 }));
    assert!(interpret_probe(&ProbeOutcome::Response { status: 299 }));
    assert!(!interpret_probe(&ProbeOutcome::Response { status: 199 }));
    assert!(!interpret_probe(&ProbeOutcome::Response { status: 300 }));
    assert!(!interpret_probe(&ProbeOutcome::Response { status: 301 }));
    assert!(!interpret_probe(&ProbeOutcome::Response { status: 404 }));
}

#[test]
fn bridge_never_returns_the_error_variant() {
    for status in [0u16, 100, 200, 299, 300, 404, 500, 503, u16::MAX] {
        assert!(check_server_health(&ProbeOutcome::Response { status }).is_ok());
    }
    assert!(check_server_health(&ProbeOutcome::TransportError).is_ok());
    assert!(check_server_health(&ProbeOutcome::Timeout).is_ok());
}

#[test]
fn decimal_rendering_matches_expected_digits() {
    assert_eq!(u64_dec(0), "0");
    assert_eq!(u64_dec(5), "5");
    assert_eq!(u64_dec(10), "10");
    assert_eq!(u64_dec(60), "60");
    assert_eq!(u64_dec(500), "500");
    assert_eq!(u64_dec(12345), "12345");
    assert_eq!(u64_dec(u64::MAX), "18446744073709551615");
}

#[test]
fn signed_rendering_handles_negatives_and_extremes() {
    assert_eq!(i32_dec(0), "0");
    assert_eq!(i32_dec(1), "1");
    assert_eq!(i32_dec(-1), "-1");
    assert_eq!(i32_dec(-15), "-15");
    assert_eq!(i32_dec(i32::MAX), "2147483647");
    assert_eq!(i32_dec(i32::MIN), "-2147483648");
}

#[test]
fn optional_code_rendering() {
    assert_eq!(option_code_str(&None), "None");
    assert_eq!(option_code_str(&Some(0)), "Some(0)");
    assert_eq!(option_code_str(&Some(137)), "Some(137)");
    assert_eq!(option_code_str(&Some(-15)), "Some(-15)");
}

#[test]
fn tagged_lines_and_messages() {
    assert_eq!(tag_server_line("listening on 3001"), "[server] listening on 3001");
    assert_eq!(tag_server_err_line("warning: slow start"), "[server:err] warning: slow start");
    assert_eq!(success_message(5), "[tauri] Server ready after 5 attempts");
    assert_eq!(timeout_message(), "[tauri] Server failed to start within 30 seconds");
    assert_eq!(
        termination_message(&Some(0), &None),
        "[server] terminated with code Some(0), signal None"
    );
    assert_eq!(
        termination_message(&None, &Some(9)),
        "[server] terminated with code None, signal Some(9)"
    );
}

#[test]
fn gate_step_success_stops_polling() {
    let state = GateState::Polling { attempts_made: 0 };
    let (next, action) = gate_step(&state, true);
    assert_eq!(next, GateState::Succeeded { attempts: 1 });
    match action {
        GateAction::LogSuccess { message } => {
            assert_eq!(message, "[tauri] Server ready after 1 attempts");
        }
        _ => panic!("expected a success log action"),
    }
}

#[test]
fn gate_step_failure_waits_the_fixed_delay() {
    let state = GateState::Polling { attempts_made: 7 };
    let (next, action) = gate_step(&state, false);
    assert_eq!(next, GateState::Polling { attempts_made: 8 });
    match action {
        GateAction::Wait { delay_ms } => assert_eq!(delay_ms, RETRY_DELAY_MS),
        _ => panic!("expected a wait action"),
    }
}

#[test]
fn gate_step_last_failure_times_out() {
    let state = GateState::Polling { attempts_made: MAX_ATTEMPTS - 1 };
    let (next, action) = gate_step(&state, false);
    assert_eq!(next, GateState::TimedOut);
    match action {
        GateAction::WaitThenLogTimeout { delay_ms, message } => {
            assert_eq!(delay_ms, RETRY_DELAY_MS);
            assert_eq!(message, "[tauri] Server failed to start within 30 seconds");
        }
        _ => panic!("expected the timeout action"),
    }
}

#[test]
fn gate_ready_on_fifth_attempt() {
    // The companion starts answering on the fifth probe: the Startup Gate logs
    // "ready after 5 attempts" once and stops polling.
    let mut probes = vec![false, false, false, false, true];
    probes.resize(MAX_ATTEMPTS as usize, false);
    let report = run_gate(&probes);
    assert_eq!(report.outcome, GateState::Succeeded { attempts: 5 });
    assert_eq!(report.attempts, 5);
    assert_eq!(report.waits, 4);
    assert_eq!(report.log, vec!["[tauri] Server ready after 5 attempts"]);

    // A bridge poll afterwards is an independent probe.
    assert_eq!(check_server_health(&ProbeOutcome::Response { status: 200 }), Ok(true));
}

#[test]
fn gate_success_on_first_and_last_attempt() {
    let mut probes = vec![true];
    probes.resize(MAX_ATTEMPTS as usize, false);
    let report = run_gate(&probes);
    assert_eq!(report.outcome, GateState::Succeeded { attempts: 1 });
    assert_eq!(report.attempts, 1);
    assert_eq!(report.waits, 0);
    assert_eq!(report.log, vec!["[tauri] Server ready after 1 attempts"]);

    let mut probes = vec![false; MAX_ATTEMPTS as usize - 1];
    probes.push(true);
    let report = run_gate(&probes);
    assert_eq!(report.outcome, GateState::Succeeded { attempts: MAX_ATTEMPTS });
    assert_eq!(report.attempts, MAX_ATTEMPTS);
    assert_eq!(report.waits, MAX_ATTEMPTS - 1);
    assert_eq!(report.log, vec!["[tauri] Server ready after 60 attempts"]);
}

#[test]
fn gate_times_out_after_sixty_failed_attempts() {
    // The companion never answers: exactly 60 attempts, a wait after every
    // one of them (60 * 500 ms = 30 s of delays), and one timeout line.
    let probes = vec![false; MAX_ATTEMPTS as usize];
    let report = run_gate(&probes);
    assert_eq!(report.outcome, GateState::TimedOut);
    assert_eq!(report.attempts, MAX_ATTEMPTS);
    assert_eq!(report.waits, MAX_ATTEMPTS);
    assert!(u64::from(report.waits) * RETRY_DELAY_MS >= 30_000);
    assert_eq!(report.log, vec!["[tauri] Server failed to start within 30 seconds"]);

    // The bridge afterwards still performs its own probe and returns
    // whatever that probe yields, not a cached gate result.
    assert_eq!(check_server_health(&ProbeOutcome::Response { status: 200 }), Ok(true));
    assert_eq!(check_server_health(&ProbeOutcome::TransportError), Ok(false));
}

#[test]
fn gate_success_beyond_the_window_is_a_timeout() {
    // A probe that would first succeed after the attempt budget never runs.
    let mut probes = vec![false; MAX_ATTEMPTS as usize];
    probes.push(true);
    let report = run_gate(&probes);
    assert_eq!(report.outcome, GateState::TimedOut);
    assert_eq!(report.attempts, MAX_ATTEMPTS);
}

#[test]
fn relay_forwards_lines_in_order_with_tags() {
    let events = vec![
        OutputEvent::StdoutLine { line: "boot".to_string() },
        OutputEvent::StderrLine { line: "deprecation warning".to_string() },
        OutputEvent::Other,
        OutputEvent::StdoutLine { line: "listening".to_string() },
    ];
    let report = run_relay(&events);
    assert_eq!(report.normal, vec!["[server] boot", "[server] listening"]);
    assert_eq!(report.errors, vec!["[server:err] deprecation warning"]);
    assert_eq!(report.state, RelayState::Running);
}

#[test]
fn relay_logs_termination_and_then_stays_silent() {
    let events = vec![
        OutputEvent::StdoutLine { line: "boot".to_string() },
        OutputEvent::Terminated { code: Some(0), signal: None },
        OutputEvent::StdoutLine { line: "ghost".to_string() },
        OutputEvent::StderrLine { line: "ghost".to_string() },
        OutputEvent::Terminated { code: Some(1), signal: Some(9) },
    ];
    let report = run_relay(&events);
    assert_eq!(report.normal, vec!["[server] boot"]);
    assert_eq!(
        report.errors,
        vec!["[server] terminated with code Some(0), signal None"]
    );
    assert_eq!(report.state, RelayState::Stopped);
}

#[test]
fn relay_step_ignores_events_once_stopped() {
    let (state, action) = relay_step(
        &RelayState::Stopped,
        &OutputEvent::StdoutLine { line: "late".to_string() },
    );
    assert_eq!(state, RelayState::Stopped);
    assert!(matches!(action, RelayAction::Ignore));

    let (state, action) = relay_step(&RelayState::Running, &OutputEvent::Other);
    assert_eq!(state, RelayState::Running);
    assert!(matches!(action, RelayAction::Ignore));
}

#[test]
fn relay_step_tags_and_stops() {
    let (state, action) = relay_step(
        &RelayState::Running,
        &OutputEvent::StderrLine { line: "oops".to_string() },
    );
    assert_eq!(state, RelayState::Running);
    match action {
        RelayAction::ForwardError { text } => assert_eq!(text, "[server:err] oops"),
        _ => panic!("expected an error-sink forward"),
    }

    let (state, action) = relay_step(
        &RelayState::Running,
        &OutputEvent::Terminated { code: None, signal: Some(15) },
    );
    assert_eq!(state, RelayState::Stopped);
    match action {
        RelayAction::LogTermination { text } => {
            assert_eq!(text, "[server] terminated with code None, signal Some(15)");
        }
        _ => panic!("expected the termination notice"),
    }
}

#[test]
fn registry_records_the_identifier_once() {
    let mut registry = ProcessRegistry::new();
    assert_eq!(registry.get(), None);
    registry.record(43210);
    assert_eq!(registry.get(), Some(43210));
}
