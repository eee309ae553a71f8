use solara_server::config::ServerConfig;
use solara_server::coordinator::FireOutcome;
use solara_server::lifecycle::LifecycleController;
use solara_server::lifecycle::ServerStatus;
use solara_server::routes::serve_request;
use solara_server::stats::get_server_stats;

fn cfg(host: &str, port: u16, max_connections: usize) -> ServerConfig {
    ServerConfig { host: host.to_string(), port, max_connections }
}

#[test]
fn fresh_controller_is_stopped_with_zero_stats() {
    let c = LifecycleController::new();
    assert_eq!(*c.status(), ServerStatus::Stopped);
    assert_eq!(c.active_connections(), 0);
    let s = get_server_stats(&c, 12345);
    assert_eq!(s.active_connections, 0);
    assert_eq!(s.uptime_seconds, 0);
}

#[test]
fn full_run_scenario() {
    // {host:"127.0.0.1", port:8000, max_connections:100} -> start -> Running
    // -> GET /hello/world -> stats 0 -> stop -> Stopped, stats 0.
    let mut c = LifecycleController::new();
    let begun = c.start(cfg("127.0.0.1", 8000, 100));
    assert_eq!(*c.status(), ServerStatus::Starting);
    let (validated, _token) = begun.expect("start from Stopped begins a run");
    assert_eq!(validated.host, "127.0.0.1");
    assert_eq!(validated.port, 8000);
    assert_eq!(validated.max_connections, 100);

    c.on_bind_success(1000);
    assert_eq!(*c.status(), ServerStatus::Running);

    let resp = serve_request(&mut c, "/hello/world").expect("mounted route");
    assert_eq!(resp.status, 200);
    assert_eq!(resp.body, "Hello, world!");
    assert_eq!(get_server_stats(&c, 1010).active_connections, 0);
    assert_eq!(get_server_stats(&c, 1010).uptime_seconds, 10);

    assert_eq!(c.stop(), FireOutcome::Signaled);
    assert_eq!(*c.status(), ServerStatus::Stopping);
    c.on_serve_resolved();
    assert_eq!(*c.status(), ServerStatus::Stopped);
    let s = get_server_stats(&c, 2000);
    assert_eq!(s.active_connections, 0);
    assert_eq!(s.uptime_seconds, 0);
}

#[test]
fn bind_failure_surfaces_as_error_and_is_resumable() {
    // Port already bound by another process: Error, counter stays 0, and a
    // retried start succeeds.
    let mut c = LifecycleController::new();
    c.start(cfg("127.0.0.1", 80, 10)).expect("start begins");
    c.on_bind_failure("address already in use".to_string());
    assert_eq!(*c.status(), ServerStatus::Error("address already in use".to_string()));
    assert_eq!(c.active_connections(), 0);
    assert_eq!(get_server_stats(&c, 500).active_connections, 0);

    let retried = c.start(cfg("127.0.0.1", 8080, 10));
    assert!(retried.is_some());
    c.on_bind_success(600);
    assert_eq!(*c.status(), ServerStatus::Running);
}

#[test]
fn stop_before_bind_completes_settles_in_stopped() {
    // start() then stop() before the bind completes: no socket may stay
    // claimed; the run settles in Stopped whichever way the bind ends.
    let mut c = LifecycleController::new();
    let (_cfg, _token) = c.start(cfg("127.0.0.1", 8000, 100)).unwrap();
    assert_eq!(*c.status(), ServerStatus::Starting);
    assert_eq!(c.stop(), FireOutcome::Signaled);
    assert_eq!(*c.status(), ServerStatus::Stopping);

    // The bind then succeeds; the fresh listener sees the already-fired
    // signal, drains at once and resolves.
    c.on_bind_success(100);
    assert_eq!(*c.status(), ServerStatus::Stopping);
    c.on_serve_resolved();
    assert_eq!(*c.status(), ServerStatus::Stopped);
    assert_eq!(c.active_connections(), 0);

    // Same, but the bind fails after the stop: nothing was ever bound.
    let mut c2 = LifecycleController::new();
    let (_cfg2, _token2) = c2.start(cfg("127.0.0.1", 8000, 100)).unwrap();
    assert_eq!(c2.stop(), FireOutcome::Signaled);
    c2.on_bind_failure("interrupted".to_string());
    assert_eq!(*c2.status(), ServerStatus::Stopped);
}

#[test]
fn second_stop_is_a_noop() {
    let mut c = LifecycleController::new();
    let (_cfg, _token) = c.start(cfg("127.0.0.1", 8000, 100)).unwrap();
    c.on_bind_success(10);
    assert_eq!(c.stop(), FireOutcome::Signaled);
    c.on_serve_resolved();
    assert_eq!(*c.status(), ServerStatus::Stopped);

    // Second stop: reported as already inactive, status unchanged.
    assert_eq!(c.stop(), FireOutcome::NotArmed);
    assert_eq!(*c.status(), ServerStatus::Stopped);
    assert_eq!(c.active_connections(), 0);
}

#[test]
fn stop_when_never_started_is_a_noop() {
    let mut c = LifecycleController::new();
    assert_eq!(c.stop(), FireOutcome::NotArmed);
    assert_eq!(*c.status(), ServerStatus::Stopped);
}

#[test]
fn second_start_while_running_is_a_noop() {
    let mut c = LifecycleController::new();
    let first = c.start(cfg("127.0.0.1", 8000, 100));
    assert!(first.is_some());
    c.on_bind_success(10);
    assert_eq!(*c.status(), ServerStatus::Running);

    // No second listener/shutdown pair is handed out.
    let second = c.start(cfg("127.0.0.1", 8000, 100));
    assert!(second.is_none());
    assert_eq!(*c.status(), ServerStatus::Running);

    // Likewise while still Starting.
    let mut c2 = LifecycleController::new();
    c2.start(cfg("127.0.0.1", 8000, 100)).unwrap();
    assert!(c2.start(cfg("127.0.0.1", 8000, 100)).is_none());
    assert_eq!(*c2.status(), ServerStatus::Starting);
}

#[test]
fn serve_fault_resets_counter_and_surfaces_error() {
    let mut c = LifecycleController::new();
    c.start(cfg("127.0.0.1", 8000, 100)).unwrap();
    c.on_bind_success(10);
    assert!(c.request_begin());
    assert!(c.request_begin());
    assert_eq!(c.active_connections(), 2);

    c.on_serve_fault("connection reset".to_string());
    assert_eq!(*c.status(), ServerStatus::Error("connection reset".to_string()));
    assert_eq!(c.active_connections(), 0);

    // A stale completion after the forced reset changes nothing.
    c.request_end();
    assert_eq!(c.active_connections(), 0);
}

#[test]
fn serve_fault_during_drain_settles_stopped() {
    // A stop is already under way, so a fault in the drain is fail-safe
    // toward stopping: the run settles in Stopped, never Error.
    let mut c = LifecycleController::new();
    let (_cfg, _token) = c.start(cfg("127.0.0.1", 8000, 100)).unwrap();
    c.on_bind_success(10);
    assert!(c.request_begin());
    assert_eq!(c.stop(), FireOutcome::Signaled);
    assert_eq!(*c.status(), ServerStatus::Stopping);
    c.on_serve_fault("connection reset during drain".to_string());
    assert_eq!(*c.status(), ServerStatus::Stopped);
    assert_eq!(c.active_connections(), 0);
}

#[test]
fn fifty_requests_in_flight_drain_back_to_zero() {
    // The tally rises while requests are in flight and returns to exactly
    // zero after all complete, with no negative excursion.
    let mut c = LifecycleController::new();
    let (_cfg, _token) = c.start(cfg("127.0.0.1", 8000, 100)).unwrap();
    c.on_bind_success(10);
    for i in 0..50 {
        assert!(c.request_begin());
        assert_eq!(c.active_connections(), i + 1);
    }
    assert_eq!(c.active_connections(), 50);

    // Stop while they are still in flight: the drain lets them finish.
    assert_eq!(c.stop(), FireOutcome::Signaled);
    c.on_serve_resolved();
    assert_eq!(*c.status(), ServerStatus::Stopping, "drain not complete yet");
    for i in 0..50 {
        c.request_end();
        assert_eq!(c.active_connections(), 49 - i);
    }
    c.on_serve_resolved();
    assert_eq!(*c.status(), ServerStatus::Stopped);
    assert_eq!(c.active_connections(), 0);
}

#[test]
fn requests_are_rejected_unless_running() {
    let mut c = LifecycleController::new();
    assert!(!c.request_begin());
    c.start(cfg("127.0.0.1", 8000, 100)).unwrap();
    assert!(!c.request_begin(), "not accepting while Starting");
    c.on_bind_success(10);
    assert!(c.request_begin());
    c.request_end();
    assert_eq!(c.active_connections(), 0);
}

#[test]
fn status_labels() {
    assert_eq!(ServerStatus::Stopped.label(), "Stopped");
    assert_eq!(ServerStatus::Starting.label(), "Starting...");
    assert_eq!(ServerStatus::Running.label(), "Running");
    assert_eq!(ServerStatus::Stopping.label(), "Stopping...");
    assert_eq!(ServerStatus::Error("boom".to_string()).label(), "Error: boom");
}

#[test]
fn uptime_counts_from_the_running_transition() {
    let mut c = LifecycleController::new();
    c.start(cfg("127.0.0.1", 8000, 100)).unwrap();
    c.on_bind_success(1000);
    assert_eq!(get_server_stats(&c, 1000).uptime_seconds, 0);
    assert_eq!(get_server_stats(&c, 1042).uptime_seconds, 42);
    // A clock that appears to run backwards reads as zero, not a panic.
    assert_eq!(get_server_stats(&c, 999).uptime_seconds, 0);
}
