use version_service::shutdown::{Phase, ShutdownAction, ShutdownCoordinator, SignalKind};

#[test]
fn starts_running_with_nothing_in_flight() {
    let c = ShutdownCoordinator::new();
    assert_eq!(c.phase(), Phase::Running);
    assert_eq!(c.in_flight(), 0);
    assert!(!c.is_cancelled());
    assert!(!c.is_drained());
}

#[test]
fn interrupt_begins_shutdown() {
    let mut c = ShutdownCoordinator::new();
    assert_eq!(c.on_signal(SignalKind::Interrupt), ShutdownAction::BeginShutdown);
    assert_eq!(c.phase(), Phase::ShuttingDown);
    assert!(c.is_cancelled());
    assert!(c.is_drained());
}

#[test]
fn both_signals_begin_shutdown_once() {
    let mut c = ShutdownCoordinator::new();
    assert_eq!(c.on_signal(SignalKind::Terminate), ShutdownAction::BeginShutdown);
    assert_eq!(c.on_signal(SignalKind::Interrupt), ShutdownAction::AlreadyShuttingDown);
    assert_eq!(c.on_signal(SignalKind::Terminate), ShutdownAction::AlreadyShuttingDown);
    assert_eq!(c.phase(), Phase::ShuttingDown);
}

#[test]
fn no_new_connection_after_cancel_but_in_flight_finishes() {
    let mut c = ShutdownCoordinator::new();
    assert!(c.accept_connection());
    assert!(c.accept_connection());
    assert_eq!(c.in_flight(), 2);
    assert_eq!(c.on_signal(SignalKind::Interrupt), ShutdownAction::BeginShutdown);
    assert!(!c.accept_connection());
    assert_eq!(c.in_flight(), 2);
    assert!(!c.is_drained());
    c.finish_connection();
    assert!(!c.is_drained());
    c.finish_connection();
    assert_eq!(c.in_flight(), 0);
    assert!(c.is_drained());
    assert!(!c.accept_connection());
}

#[test]
fn running_server_is_never_drained() {
    let mut c = ShutdownCoordinator::new();
    assert!(c.accept_connection());
    c.finish_connection();
    assert_eq!(c.in_flight(), 0);
    assert_eq!(c.phase(), Phase::Running);
    assert!(!c.is_drained());
}
