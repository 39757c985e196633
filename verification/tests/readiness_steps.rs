use moonsock::client::ClientError;
use moonsock::readiness::{
    PrinterSafetyStatus, ReadinessCheck, ReadinessStep, RestartCause, MAX_RESTARTS,
    PRINTER_READY_TIMEOUT, STARTUP_POLL_MILLIS,
};
use moonsock::PrinterState;

#[test]
fn constants() {
    assert_eq!(PRINTER_READY_TIMEOUT, 240);
    assert_eq!(MAX_RESTARTS, 3);
    assert_eq!(STARTUP_POLL_MILLIS, 500);
}

#[test]
fn timeout_only_after_240_seconds() {
    let c = ReadinessCheck::new();
    assert!(matches!(c.begin_round(0), ReadinessStep::QueryServerInfo));
    assert!(matches!(c.begin_round(240_000_000_000), ReadinessStep::QueryServerInfo));
    assert!(matches!(
        c.begin_round(240_000_000_001),
        ReadinessStep::Finish(PrinterSafetyStatus::TimeoutReached)
    ));
}

#[test]
fn ready_and_standby_are_ready() {
    let c = ReadinessCheck::new();
    for s in [PrinterState::Ready, PrinterState::Standby] {
        assert!(matches!(c.on_state(Ok(s)), ReadinessStep::Finish(PrinterSafetyStatus::Ready)));
    }
}

#[test]
fn print_states_mean_a_print_may_be_inside() {
    let c = ReadinessCheck::new();
    for s in [
        PrinterState::Paused,
        PrinterState::Printing,
        PrinterState::Complete,
        PrinterState::Cancelled,
    ] {
        match c.on_state(Ok(s)) {
            ReadinessStep::Finish(PrinterSafetyStatus::Maybe3DPrintInsidePrinter(got)) => {
                assert_eq!(got, s)
            }
            other => panic!("unexpected {:?}", other),
        }
    }
}

#[test]
fn startup_waits_and_disconnected_retries() {
    let c = ReadinessCheck::new();
    assert!(matches!(c.on_state(Ok(PrinterState::Startup)), ReadinessStep::Wait { millis: 500 }));
    assert!(matches!(c.on_state(Ok(PrinterState::Disconnected)), ReadinessStep::Retry));
}

#[test]
fn a_failed_query_ends_the_check() {
    let c = ReadinessCheck::new();
    match c.on_state(Err(ClientError::Transport("closed".to_string()))) {
        ReadinessStep::Finish(PrinterSafetyStatus::OtherError(ClientError::Transport(m))) => {
            assert_eq!(m, "closed")
        }
        other => panic!("unexpected {:?}", other),
    }
}

#[test]
fn error_state_asks_for_warnings_then_offers_restart() {
    let c = ReadinessCheck::new();
    assert!(matches!(c.on_state(Ok(PrinterState::Error)), ReadinessStep::QueryWarnings));
    match c.on_warnings(Ok(vec!["mcu lost".to_string(), "heater fault".to_string()])) {
        ReadinessStep::PromptRestart(RestartCause::KlipperError(m)) => {
            assert_eq!(m, "mcu lost, heater fault")
        }
        other => panic!("unexpected {:?}", other),
    }
    match c.on_warnings(Err(ClientError::NoPrinterInfo)) {
        ReadinessStep::PromptRestart(RestartCause::KlipperError(m)) => assert_eq!(m, "Unknown error"),
        other => panic!("unexpected {:?}", other),
    }
    match c.on_warnings(Ok(vec![])) {
        ReadinessStep::PromptRestart(RestartCause::KlipperError(m)) => assert_eq!(m, ""),
        other => panic!("unexpected {:?}", other),
    }
}

#[test]
fn declining_a_restart_ends_with_the_cause() {
    let c = ReadinessCheck::new();
    match c.on_answer(RestartCause::KlipperError("boom".to_string()), false) {
        ReadinessStep::Finish(PrinterSafetyStatus::KlipperError(m)) => assert_eq!(m, "boom"),
        other => panic!("unexpected {:?}", other),
    }
    assert!(matches!(
        c.on_answer(RestartCause::Shutdown, false),
        ReadinessStep::Finish(PrinterSafetyStatus::Shutdown)
    ));
    assert!(matches!(c.on_answer(RestartCause::Shutdown, true), ReadinessStep::RestartFirmware));
}

#[test]
fn at_most_three_restarts() {
    let mut c = ReadinessCheck::new();
    for k in 0..3u8 {
        assert_eq!(c.restarts(), k);
        assert!(matches!(
            c.on_state(Ok(PrinterState::Shutdown)),
            ReadinessStep::PromptRestart(RestartCause::Shutdown)
        ));
        assert!(matches!(c.on_restarted(), ReadinessStep::Retry));
    }
    assert_eq!(c.restarts(), 3);
    assert!(matches!(
        c.on_state(Ok(PrinterState::Shutdown)),
        ReadinessStep::Finish(PrinterSafetyStatus::TooManyRestarts)
    ));
    assert!(matches!(
        c.on_warnings(Ok(vec!["x".to_string()])),
        ReadinessStep::Finish(PrinterSafetyStatus::TooManyRestarts)
    ));
}
