use alvr_dashboard::event::ServerEvent;
use alvr_dashboard::monitor::{
    HealthMonitor, MonitorAction, MonitorInput, MonitorPhase, ProbeOutcome, PING_CONNECT_TIMEOUT_MS,
    PING_INTERVAL_MS, POLL_STEP_MS,
};
use alvr_dashboard::protocol::{awaited_at_shutdown, CoreLoop, OutOfTurn};
use alvr_dashboard::session::{ClientListAction, SessionDocument};
use alvr_dashboard::source::{BackendSelector, DataSource, LocalBackend};

fn backend(settings: &str) -> LocalBackend {
    LocalBackend::new(SessionDocument::new(settings.to_string()))
}

#[test]
fn the_monitor_starts_with_a_probe() {
    let (monitor, first) = HealthMonitor::new(500);
    assert_eq!(first, MonitorAction::Probe);
    let state = monitor.state();
    assert!(!state.connected);
    assert_eq!(state.deadline_ms, 500);
    assert_eq!(state.phase, MonitorPhase::Probing);
    assert_eq!(PING_INTERVAL_MS, 1000);
    assert_eq!(PING_CONNECT_TIMEOUT_MS, 1000);
    assert_eq!(POLL_STEP_MS, 100);
}

#[test]
fn a_failed_first_probe_leaves_the_local_backend() {
    let (mut monitor, _) = HealthMonitor::new(0);
    let mut source = DataSource::new(backend("on disk"));
    let next = monitor.step(MonitorInput::Probed(ProbeOutcome::NoAnswer), &mut source);
    assert_eq!(next, Ok(MonitorAction::Wait { sleep_ms: 0 }));
    assert_eq!(source.read(), BackendSelector::Local);
    assert_eq!(source.local().unwrap().session().settings(), "on disk");
    assert_eq!(monitor.state().deadline_ms, 1000);
    assert_eq!(monitor.state().phase, MonitorPhase::Waiting);
    assert!(!monitor.state().connected);
}

#[test]
fn a_successful_probe_hands_over_to_the_server() {
    let (mut monitor, _) = HealthMonitor::new(0);
    let mut source = DataSource::new(backend("on disk"));
    let next = monitor.step(MonitorInput::Probed(ProbeOutcome::Answered { status: 200 }), &mut source);
    assert_eq!(next, Ok(MonitorAction::Emit(ServerEvent::PingResponseConnected)));
    assert_eq!(source.read(), BackendSelector::Remote);
    assert!(source.local().is_none());
    assert!(monitor.state().connected);
    assert_eq!(monitor.state().deadline_ms, 0);
    let next = monitor.step(MonitorInput::Sent { delivered: true }, &mut source);
    assert_eq!(next, Ok(MonitorAction::Wait { sleep_ms: 0 }));
    assert_eq!(monitor.state().deadline_ms, 1000);
    // a second success changes nothing and announces nothing
    let next = monitor.step(MonitorInput::Clock { now_ms: 1000, running: true }, &mut source);
    assert_eq!(next, Ok(MonitorAction::Probe));
    let next = monitor.step(MonitorInput::Probed(ProbeOutcome::Answered { status: 200 }), &mut source);
    assert_eq!(next, Ok(MonitorAction::Wait { sleep_ms: 0 }));
    assert_eq!(source.read(), BackendSelector::Remote);
    assert_eq!(monitor.state().deadline_ms, 2000);
}

#[test]
fn losing_the_server_reloads_the_local_backend() {
    let (mut monitor, _) = HealthMonitor::new(0);
    let mut source = DataSource::new(backend("old"));
    monitor.step(MonitorInput::Probed(ProbeOutcome::Answered { status: 200 }), &mut source).unwrap();
    monitor.step(MonitorInput::Sent { delivered: true }, &mut source).unwrap();
    monitor.step(MonitorInput::Clock { now_ms: 1500, running: true }, &mut source).unwrap();
    let next = monitor.step(MonitorInput::Probed(ProbeOutcome::NoAnswer), &mut source);
    assert_eq!(next, Ok(MonitorAction::ReloadLocal));
    assert_eq!(source.read(), BackendSelector::Remote);
    assert!(monitor.state().connected);
    let next = monitor.step(MonitorInput::Reloaded(backend("written by the server")), &mut source);
    assert_eq!(next, Ok(MonitorAction::Emit(ServerEvent::PingResponseDisconnected)));
    assert_eq!(source.read(), BackendSelector::Local);
    assert_eq!(source.local().unwrap().session().settings(), "written by the server");
    assert!(!monitor.state().connected);
    let next = monitor.step(MonitorInput::Sent { delivered: true }, &mut source);
    assert_eq!(next, Ok(MonitorAction::Wait { sleep_ms: 0 }));
    // the deadline moves by one interval, however late the probe was
    assert_eq!(monitor.state().deadline_ms, 2000);
}

#[test]
fn the_wait_is_made_of_short_sleeps() {
    let (mut monitor, _) = HealthMonitor::new(100);
    let mut source = DataSource::new(backend("s"));
    monitor.step(MonitorInput::Probed(ProbeOutcome::NoAnswer), &mut source).unwrap();
    assert_eq!(monitor.state().deadline_ms, 1100);
    let next = monitor.step(MonitorInput::Clock { now_ms: 100, running: true }, &mut source);
    assert_eq!(next, Ok(MonitorAction::Wait { sleep_ms: 100 }));
    let next = monitor.step(MonitorInput::Clock { now_ms: 1099, running: true }, &mut source);
    assert_eq!(next, Ok(MonitorAction::Wait { sleep_ms: 100 }));
    assert_eq!(monitor.state().phase, MonitorPhase::Waiting);
    let next = monitor.step(MonitorInput::Clock { now_ms: 1100, running: true }, &mut source);
    assert_eq!(next, Ok(MonitorAction::Probe));
    assert_eq!(monitor.state().phase, MonitorPhase::Probing);
}

#[test]
fn shutdown_is_noticed_during_the_wait() {
    let (mut monitor, _) = HealthMonitor::new(0);
    let mut source = DataSource::new(backend("s"));
    monitor.step(MonitorInput::Probed(ProbeOutcome::NoAnswer), &mut source).unwrap();
    let next = monitor.step(MonitorInput::Clock { now_ms: 10, running: false }, &mut source);
    assert_eq!(next, Ok(MonitorAction::Stop));
    assert_eq!(monitor.state().phase, MonitorPhase::Stopped);
    let next = monitor.step(MonitorInput::Clock { now_ms: 20, running: true }, &mut source);
    assert_eq!(next, Err(OutOfTurn));
}

#[test]
fn a_due_probe_comes_before_the_shutdown_flag() {
    let (mut monitor, _) = HealthMonitor::new(0);
    let mut source = DataSource::new(backend("s"));
    monitor.step(MonitorInput::Probed(ProbeOutcome::NoAnswer), &mut source).unwrap();
    let next = monitor.step(MonitorInput::Clock { now_ms: 5000, running: false }, &mut source);
    assert_eq!(next, Ok(MonitorAction::Probe));
}

#[test]
fn an_undelivered_notification_stops_the_monitor() {
    let (mut monitor, _) = HealthMonitor::new(0);
    let mut source = DataSource::new(backend("s"));
    monitor.step(MonitorInput::Probed(ProbeOutcome::Answered { status: 200 }), &mut source).unwrap();
    let next = monitor.step(MonitorInput::Sent { delivered: false }, &mut source);
    assert_eq!(next, Ok(MonitorAction::Stop));
    assert_eq!(monitor.state().phase, MonitorPhase::Stopped);
}

#[test]
fn an_input_out_of_turn_is_refused_and_changes_nothing() {
    let (mut monitor, _) = HealthMonitor::new(7);
    let mut source = DataSource::new(backend("s"));
    let before = monitor.state();
    assert_eq!(monitor.step(MonitorInput::Sent { delivered: true }, &mut source), Err(OutOfTurn));
    assert_eq!(
        monitor.step(MonitorInput::Clock { now_ms: 0, running: true }, &mut source),
        Err(OutOfTurn)
    );
    assert_eq!(monitor.step(MonitorInput::Reloaded(backend("x")), &mut source), Err(OutOfTurn));
    assert_eq!(monitor.state(), before);
    assert_eq!(source.local().unwrap().session().settings(), "s");
}

#[test]
fn the_deadline_stops_at_the_largest_number() {
    let (mut monitor, _) = HealthMonitor::new(u64::MAX - 10);
    let mut source = DataSource::new(backend("s"));
    monitor.step(MonitorInput::Probed(ProbeOutcome::NoAnswer), &mut source).unwrap();
    assert_eq!(monitor.state().deadline_ms, u64::MAX);
}

#[test]
fn an_answer_that_reports_an_error_still_counts() {
    let (mut monitor, _) = HealthMonitor::new(0);
    let mut source = DataSource::new(backend("s"));
    let next = monitor.step(MonitorInput::Probed(ProbeOutcome::Answered { status: 500 }), &mut source);
    assert_eq!(next, Ok(MonitorAction::Emit(ServerEvent::PingResponseConnected)));
    assert_eq!(source.read(), BackendSelector::Remote);
}

#[test]
fn any_answer_shows_the_server_alive() {
    assert!(ProbeOutcome::Answered { status: 200 }.is_alive());
    assert!(ProbeOutcome::Answered { status: 500 }.is_alive());
    assert!(!ProbeOutcome::NoAnswer.is_alive());
}

#[test]
fn shutdown_does_not_wait_for_the_listener() {
    assert!(awaited_at_shutdown(CoreLoop::HealthMonitor));
    assert!(awaited_at_shutdown(CoreLoop::RequestDispatcher));
    assert!(!awaited_at_shutdown(CoreLoop::EventStreamListener));
}

#[test]
fn the_cell_holds_what_was_set() {
    let mut source = DataSource::new(backend("first"));
    assert_eq!(source.read(), BackendSelector::Local);
    source.set_remote();
    assert_eq!(source.read(), BackendSelector::Remote);
    assert!(!source.apply_locally(alvr_dashboard::request::DashboardRequest::GetSession));
    source.set_local(backend("second"));
    assert_eq!(source.read(), BackendSelector::Local);
    assert_eq!(source.local().unwrap().session().settings(), "second");
    assert!(source.apply_locally(alvr_dashboard::request::DashboardRequest::UpdateClientList {
        hostname: "h".to_string(),
        action: ClientListAction::AddIfMissing { trusted: false, manual_ips: vec![] },
    }));
    assert_eq!(source.local().unwrap().session().clients().len(), 1);
}
