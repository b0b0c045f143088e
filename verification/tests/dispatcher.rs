use alvr_dashboard::dispatcher::{
    DispatchAction, DispatchInput, DispatcherState, RemoteReply, RequestDispatcher,
};
use alvr_dashboard::event::{
    AudioDevicesList, Event, EventType, ServerEvent, ServerResponse,
};
use alvr_dashboard::monitor::{HealthMonitor, MonitorInput, ProbeOutcome};
use alvr_dashboard::protocol::OutOfTurn;
use alvr_dashboard::request::{DashboardRequest, LocalHandling, PathSegment, SettingValue};
use alvr_dashboard::session::{ClientConnectionRecord, ClientListAction, SessionDocument};
use alvr_dashboard::source::{BackendSelector, DataSource, LocalBackend};

fn on_disk() -> SessionDocument {
    SessionDocument::from_records(
        "{\"web_server_port\":8082}".to_string(),
        vec![ClientConnectionRecord {
            hostname: "quest.client.alvr".to_string(),
            trusted: false,
            current_ip: None,
            manual_ips: vec![],
            display_name: "Quest 2".to_string(),
        }],
    )
    .unwrap()
}

fn snapshot_of(document: &SessionDocument) -> ServerEvent {
    ServerEvent::Event(Event {
        timestamp: String::new(),
        event_type: EventType::Session(Box::new(document.clone())),
    })
}

fn trust() -> DashboardRequest {
    DashboardRequest::UpdateClientList {
        hostname: "quest.client.alvr".to_string(),
        action: ClientListAction::Trust,
    }
}

/// Serves one request offline and returns the events that were emitted.
fn serve_offline(
    dispatcher: &mut RequestDispatcher,
    source: &mut DataSource,
    request: DashboardRequest,
) -> Vec<ServerEvent> {
    serve_offline_counting_saves(dispatcher, source, request).0
}

/// The same, with the number of times the session was to be written to the
/// store.
fn serve_offline_counting_saves(
    dispatcher: &mut RequestDispatcher,
    source: &mut DataSource,
    request: DashboardRequest,
) -> (Vec<ServerEvent>, usize) {
    let mut saves = 0;
    let mut events = Vec::new();
    assert_eq!(
        dispatcher.step(DispatchInput::Submitted(request), source),
        Ok(DispatchAction::SendRemote)
    );
    let mut action = dispatcher
        .step(DispatchInput::Replied(RemoteReply::Unreachable), source)
        .unwrap();
    loop {
        match action {
            DispatchAction::Emit(event) => {
                events.push(event);
                action = dispatcher.step(DispatchInput::Sent { delivered: true }, source).unwrap();
            }
            DispatchAction::SaveLocal => {
                // the session is written before it is shown
                assert!(events.is_empty());
                saves += 1;
                action = dispatcher.step(DispatchInput::Saved, source).unwrap();
            }
            DispatchAction::NextRequest => return (events, saves),
            other => panic!("unexpected action {:?}", other),
        }
    }
}

#[test]
fn offline_at_startup_the_session_on_disk_is_returned_unchanged() {
    let (mut monitor, _) = HealthMonitor::new(0);
    let mut source = DataSource::new(LocalBackend::new(on_disk()));
    monitor.step(MonitorInput::Probed(ProbeOutcome::NoAnswer), &mut source).unwrap();
    assert_eq!(source.read(), BackendSelector::Local);

    let (mut dispatcher, first) = RequestDispatcher::new();
    assert_eq!(first, DispatchAction::NextRequest);
    let events = serve_offline(&mut dispatcher, &mut source, DashboardRequest::GetSession);
    assert_eq!(events, vec![snapshot_of(&on_disk())]);
    assert_eq!(source.local().unwrap().session(), &on_disk());
}

#[test]
fn once_the_server_answers_a_trust_request_goes_over_http_only() {
    let (mut monitor, _) = HealthMonitor::new(0);
    let mut source = DataSource::new(LocalBackend::new(on_disk()));
    monitor.step(MonitorInput::Probed(ProbeOutcome::NoAnswer), &mut source).unwrap();
    monitor.step(MonitorInput::Clock { now_ms: 1000, running: true }, &mut source).unwrap();
    assert_eq!(
        monitor.step(MonitorInput::Probed(ProbeOutcome::Answered { status: 200 }), &mut source),
        Ok(alvr_dashboard::monitor::MonitorAction::Emit(ServerEvent::PingResponseConnected))
    );
    assert_eq!(source.read(), BackendSelector::Remote);

    let (mut dispatcher, _) = RequestDispatcher::new();
    assert_eq!(
        dispatcher.step(DispatchInput::Submitted(trust()), &mut source),
        Ok(DispatchAction::SendRemote)
    );
    assert_eq!(dispatcher.pending(), Some(&trust()));
    assert_eq!(dispatcher.state(), &DispatcherState::AwaitingRemote(trust()));
    assert_eq!(
        dispatcher.step(DispatchInput::Replied(RemoteReply::Untyped), &mut source),
        Ok(DispatchAction::NextRequest)
    );
    assert_eq!(dispatcher.pending(), None);
    assert_eq!(source, DataSource::Remote);
}

#[test]
fn a_reachable_server_gets_every_request_once_and_in_order() {
    let mut source = DataSource::new(LocalBackend::new(on_disk()));
    let (mut dispatcher, _) = RequestDispatcher::new();
    let outputs = vec!["speakers".to_string(), "headset".to_string()];
    let inputs = vec!["microphone".to_string()];
    let exchanges = vec![
        (
            DashboardRequest::GetAudioOutputDevices,
            RemoteReply::Typed(ServerResponse::AudioOutputDevices(outputs.clone())),
        ),
        (trust(), RemoteReply::Untyped),
        (
            DashboardRequest::GetAudioInputDevices,
            RemoteReply::Typed(ServerResponse::AudioInputDevices(inputs.clone())),
        ),
        (
            DashboardRequest::GetAudioDevices,
            RemoteReply::Typed(ServerResponse::AudioDevices(AudioDevicesList {
                output: outputs.clone(),
                input: inputs.clone(),
            })),
        ),
        (DashboardRequest::GetSession, RemoteReply::Untyped),
    ];
    let mut sent = Vec::new();
    let mut emitted = Vec::new();
    for (request, reply) in exchanges {
        let name = format!("{:?}", request);
        assert_eq!(
            dispatcher.step(DispatchInput::Submitted(request), &mut source),
            Ok(DispatchAction::SendRemote)
        );
        sent.push(name);
        match dispatcher.step(DispatchInput::Replied(reply), &mut source).unwrap() {
            DispatchAction::Emit(event) => {
                emitted.push(event);
                assert_eq!(
                    dispatcher.step(DispatchInput::Sent { delivered: true }, &mut source),
                    Ok(DispatchAction::NextRequest)
                );
            }
            DispatchAction::NextRequest => {}
            other => panic!("unexpected action {:?}", other),
        }
    }
    assert_eq!(sent.len(), 5);
    assert_eq!(
        emitted,
        vec![
            ServerEvent::AudioOutputDevices(outputs.clone()),
            ServerEvent::AudioInputDevices(inputs.clone()),
            ServerEvent::AudioDevicesUpdated(AudioDevicesList { output: outputs, input: inputs }),
        ]
    );
    // nothing was applied locally, although the local backend was the active one
    assert_eq!(source.local().unwrap().session(), &on_disk());
}

#[test]
fn an_offline_trust_is_applied_once_and_shown_once() {
    let mut source = DataSource::new(LocalBackend::new(on_disk()));
    let (mut dispatcher, _) = RequestDispatcher::new();
    let events = serve_offline(&mut dispatcher, &mut source, trust());
    let mut expected = on_disk();
    expected.update_client_list("quest.client.alvr".to_string(), ClientListAction::Trust);
    assert_eq!(events, vec![snapshot_of(&expected)]);
    assert_eq!(source.local().unwrap().session(), &expected);
    assert!(source.local().unwrap().session().clients()[0].trusted);

    // dispatching it a second time leaves exactly one trusted record
    let events = serve_offline(&mut dispatcher, &mut source, trust());
    assert_eq!(events, vec![snapshot_of(&expected)]);
    let clients = source.local().unwrap().session().clients();
    assert_eq!(clients.len(), 1);
    assert_eq!(clients[0].hostname, "quest.client.alvr");
    assert!(clients[0].trusted);
}

#[test]
fn an_offline_session_update_replaces_the_session() {
    let mut source = DataSource::new(LocalBackend::new(on_disk()));
    let (mut dispatcher, _) = RequestDispatcher::new();
    let replacement = SessionDocument::new("replaced".to_string());
    let events = serve_offline(
        &mut dispatcher,
        &mut source,
        DashboardRequest::UpdateSession(Box::new(replacement.clone())),
    );
    assert_eq!(events, vec![snapshot_of(&replacement)]);
    assert_eq!(source.local().unwrap().session(), &replacement);
}

#[test]
fn requests_without_a_local_implementation_are_dropped_offline() {
    let requests = vec![
        DashboardRequest::GetAudioDevices,
        DashboardRequest::GetAudioOutputDevices,
        DashboardRequest::GetAudioInputDevices,
        DashboardRequest::RestartSteamvr,
        DashboardRequest::Ping,
        DashboardRequest::SetSingleValue {
            path: vec![PathSegment::Name("video".to_string()), PathSegment::Index(0)],
            new_value: SettingValue::Bool(true),
        },
    ];
    let mut source = DataSource::new(LocalBackend::new(on_disk()));
    let (mut dispatcher, _) = RequestDispatcher::new();
    for request in requests {
        assert_eq!(request.local_handling(), LocalHandling::Unsupported);
        let events = serve_offline(&mut dispatcher, &mut source, request);
        assert!(events.is_empty());
    }
    assert_eq!(source.local().unwrap().session(), &on_disk());
}

#[test]
fn the_local_handling_table() {
    assert_eq!(DashboardRequest::GetSession.local_handling(), LocalHandling::Session);
    assert_eq!(trust().local_handling(), LocalHandling::Session);
    assert_eq!(
        DashboardRequest::UpdateSession(Box::new(on_disk())).local_handling(),
        LocalHandling::Session
    );
    assert_eq!(
        DashboardRequest::ExecuteScript("x".to_string()).local_handling(),
        LocalHandling::Script
    );
}

#[test]
fn with_the_server_active_a_failed_request_is_dropped() {
    let mut source = DataSource::Remote;
    let (mut dispatcher, _) = RequestDispatcher::new();
    let events = serve_offline(&mut dispatcher, &mut source, trust());
    assert!(events.is_empty());
    assert_eq!(source, DataSource::Remote);
}

#[test]
fn a_script_is_run_and_its_session_shown() {
    let mut source = DataSource::new(LocalBackend::new(on_disk()));
    let (mut dispatcher, _) = RequestDispatcher::new();
    dispatcher
        .step(DispatchInput::Submitted(DashboardRequest::ExecuteScript("s.x = 1".to_string())), &mut source)
        .unwrap();
    assert_eq!(
        dispatcher.step(DispatchInput::Replied(RemoteReply::Unreachable), &mut source),
        Ok(DispatchAction::RunScript("s.x = 1".to_string()))
    );
    assert_eq!(dispatcher.state(), &DispatcherState::AwaitingScript);
    let left = SessionDocument::new("after the script".to_string());
    assert_eq!(
        dispatcher.step(DispatchInput::ScriptRan(Some(left.clone())), &mut source),
        Ok(DispatchAction::SaveLocal)
    );
    assert_eq!(dispatcher.state(), &DispatcherState::Saving);
    assert_eq!(source.local().unwrap().session(), &left);
    assert_eq!(
        dispatcher.step(DispatchInput::Saved, &mut source),
        Ok(DispatchAction::Emit(snapshot_of(&left)))
    );
    assert_eq!(
        dispatcher.step(DispatchInput::Sent { delivered: true }, &mut source),
        Ok(DispatchAction::NextRequest)
    );
}

#[test]
fn a_failed_script_still_shows_the_session() {
    let mut source = DataSource::new(LocalBackend::new(on_disk()));
    let (mut dispatcher, _) = RequestDispatcher::new();
    dispatcher
        .step(DispatchInput::Submitted(DashboardRequest::ExecuteScript("?".to_string())), &mut source)
        .unwrap();
    dispatcher.step(DispatchInput::Replied(RemoteReply::Unreachable), &mut source).unwrap();
    assert_eq!(
        dispatcher.step(DispatchInput::ScriptRan(None), &mut source),
        Ok(DispatchAction::Emit(snapshot_of(&on_disk())))
    );
    assert_eq!(source.local().unwrap().session(), &on_disk());
}

#[test]
fn a_script_outcome_is_dropped_if_the_server_took_over() {
    let mut source = DataSource::new(LocalBackend::new(on_disk()));
    let (mut dispatcher, _) = RequestDispatcher::new();
    dispatcher
        .step(DispatchInput::Submitted(DashboardRequest::ExecuteScript("?".to_string())), &mut source)
        .unwrap();
    dispatcher.step(DispatchInput::Replied(RemoteReply::Unreachable), &mut source).unwrap();
    source.set_remote();
    assert_eq!(
        dispatcher.step(DispatchInput::ScriptRan(Some(on_disk())), &mut source),
        Ok(DispatchAction::NextRequest)
    );
    assert_eq!(source, DataSource::Remote);
}

#[test]
fn what_was_changed_offline_is_written_to_the_store() {
    let mut source = DataSource::new(LocalBackend::new(on_disk()));
    let (mut dispatcher, _) = RequestDispatcher::new();
    // reading the session writes nothing
    let (events, saves) =
        serve_offline_counting_saves(&mut dispatcher, &mut source, DashboardRequest::GetSession);
    assert_eq!((events.len(), saves), (1, 0));
    // a change that takes effect is written once
    let (events, saves) = serve_offline_counting_saves(&mut dispatcher, &mut source, trust());
    assert_eq!((events.len(), saves), (1, 1));
    // so is one that finds the entry as asked already
    let (events, saves) = serve_offline_counting_saves(&mut dispatcher, &mut source, trust());
    assert_eq!((events.len(), saves), (1, 1));
    // a change for a client that is not there is not
    let (events, saves) = serve_offline_counting_saves(
        &mut dispatcher,
        &mut source,
        DashboardRequest::UpdateClientList {
            hostname: "nobody".to_string(),
            action: ClientListAction::RemoveEntry,
        },
    );
    assert_eq!((events.len(), saves), (1, 0));
    // a replaced session always is
    let (events, saves) = serve_offline_counting_saves(
        &mut dispatcher,
        &mut source,
        DashboardRequest::UpdateSession(Box::new(on_disk())),
    );
    assert_eq!((events.len(), saves), (1, 1));
}

#[test]
fn a_save_that_outlives_the_local_backend_is_dropped() {
    let mut source = DataSource::new(LocalBackend::new(on_disk()));
    let (mut dispatcher, _) = RequestDispatcher::new();
    dispatcher.step(DispatchInput::Submitted(trust()), &mut source).unwrap();
    assert_eq!(
        dispatcher.step(DispatchInput::Replied(RemoteReply::Unreachable), &mut source),
        Ok(DispatchAction::SaveLocal)
    );
    source.set_remote();
    assert_eq!(
        dispatcher.step(DispatchInput::Saved, &mut source),
        Ok(DispatchAction::NextRequest)
    );
}

#[test]
fn the_dispatcher_stops_when_the_window_is_gone() {
    let mut source = DataSource::new(LocalBackend::new(on_disk()));
    let (mut dispatcher, _) = RequestDispatcher::new();
    dispatcher.step(DispatchInput::Submitted(DashboardRequest::GetSession), &mut source).unwrap();
    dispatcher.step(DispatchInput::Replied(RemoteReply::Unreachable), &mut source).unwrap();
    assert_eq!(
        dispatcher.step(DispatchInput::Sent { delivered: false }, &mut source),
        Ok(DispatchAction::Stop)
    );
    assert_eq!(dispatcher.state(), &DispatcherState::Closed);

    let (mut dispatcher, _) = RequestDispatcher::new();
    assert_eq!(
        dispatcher.step(DispatchInput::IntakeClosed, &mut source),
        Ok(DispatchAction::Stop)
    );
    assert_eq!(
        dispatcher.step(DispatchInput::Submitted(DashboardRequest::Ping), &mut source),
        Err(OutOfTurn)
    );
}

#[test]
fn a_request_is_not_taken_while_another_is_served() {
    let mut source = DataSource::new(LocalBackend::new(on_disk()));
    let (mut dispatcher, _) = RequestDispatcher::new();
    dispatcher.step(DispatchInput::Submitted(DashboardRequest::GetSession), &mut source).unwrap();
    assert_eq!(
        dispatcher.step(DispatchInput::Submitted(trust()), &mut source),
        Err(OutOfTurn)
    );
    assert_eq!(dispatcher.pending(), Some(&DashboardRequest::GetSession));
    assert_eq!(
        dispatcher.step(DispatchInput::Sent { delivered: true }, &mut source),
        Err(OutOfTurn)
    );
    assert_eq!(dispatcher.step(DispatchInput::ScriptRan(None), &mut source), Err(OutOfTurn));
    assert_eq!(dispatcher.step(DispatchInput::Saved, &mut source), Err(OutOfTurn));
    assert_eq!(dispatcher.step(DispatchInput::IntakeClosed, &mut source), Err(OutOfTurn));
    assert_eq!(dispatcher.pending(), Some(&DashboardRequest::GetSession));
}

#[test]
fn the_events_built_by_hand() {
    assert_eq!(ServerEvent::connectivity(true), ServerEvent::PingResponseConnected);
    assert_eq!(ServerEvent::connectivity(false), ServerEvent::PingResponseDisconnected);
    assert_eq!(ServerEvent::snapshot(&on_disk()), snapshot_of(&on_disk()));
    assert_eq!(
        ServerEvent::forward(ServerResponse::AudioInputDevices(vec!["m".to_string()])),
        ServerEvent::AudioInputDevices(vec!["m".to_string()])
    );
}

#[test]
fn after_three_failed_probes_requests_are_served_locally() {
    let (mut monitor, _) = HealthMonitor::new(0);
    let mut source = DataSource::new(LocalBackend::new(SessionDocument::new("stale".to_string())));
    // the server is there at first, then three probes in a row fail
    monitor.step(MonitorInput::Probed(ProbeOutcome::Answered { status: 200 }), &mut source).unwrap();
    monitor.step(MonitorInput::Sent { delivered: true }, &mut source).unwrap();
    for round in 1..=3u64 {
        assert_eq!(
            monitor.step(MonitorInput::Clock { now_ms: round * 1000, running: true }, &mut source),
            Ok(alvr_dashboard::monitor::MonitorAction::Probe)
        );
        let next = monitor.step(MonitorInput::Probed(ProbeOutcome::NoAnswer), &mut source).unwrap();
        if round == 1 {
            assert_eq!(next, alvr_dashboard::monitor::MonitorAction::ReloadLocal);
            monitor
                .step(MonitorInput::Reloaded(LocalBackend::new(on_disk())), &mut source)
                .unwrap();
            monitor.step(MonitorInput::Sent { delivered: true }, &mut source).unwrap();
        } else {
            assert_eq!(next, alvr_dashboard::monitor::MonitorAction::Wait { sleep_ms: 0 });
        }
        assert_eq!(source.read(), BackendSelector::Local);
        assert_eq!(monitor.state().deadline_ms, (round + 1) * 1000);
    }

    let (mut dispatcher, _) = RequestDispatcher::new();
    let request = DashboardRequest::UpdateClientList {
        hostname: "pico.client.alvr".to_string(),
        action: ClientListAction::AddIfMissing { trusted: false, manual_ips: vec![] },
    };
    let events = serve_offline(&mut dispatcher, &mut source, request);
    let mut expected = on_disk();
    expected.update_client_list(
        "pico.client.alvr".to_string(),
        ClientListAction::AddIfMissing { trusted: false, manual_ips: vec![] },
    );
    assert_eq!(events, vec![snapshot_of(&expected)]);
    assert_eq!(source.local().unwrap().session(), &expected);
    assert_eq!(expected.clients().len(), 2);
}
