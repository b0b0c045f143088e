use alvr_dashboard::event::{Event, EventSeverity, EventType, LogEvent, ServerEvent};
use alvr_dashboard::listener::{
    ConnectionStage, EventStreamListener, Frame, ListenerAction, ListenerInput, ListenerPhase,
    RECONNECT_BACKOFF_MS,
};
use alvr_dashboard::protocol::OutOfTurn;

fn log(text: &str) -> Event {
    Event {
        timestamp: "12:00:00.000".to_string(),
        event_type: EventType::Log(LogEvent {
            severity: EventSeverity::Info,
            content: text.to_string(),
        }),
    }
}

#[test]
fn the_listener_starts_by_connecting() {
    let (listener, first) = EventStreamListener::new();
    assert_eq!(first, ListenerAction::Connect);
    assert_eq!(listener.phase(), ListenerPhase::Connecting);
    assert_eq!(listener.stage(), ConnectionStage::Connecting);
    assert_eq!(RECONNECT_BACKOFF_MS, 1000);
}

#[test]
fn a_malformed_frame_does_not_end_the_stream() {
    let (mut listener, _) = EventStreamListener::new();
    assert_eq!(
        listener.step(ListenerInput::Connected { established: true }),
        Ok(ListenerAction::Read)
    );
    assert_eq!(
        listener.step(ListenerInput::Read(Frame::Event(log("one")))),
        Ok(ListenerAction::Emit(ServerEvent::Event(log("one"))))
    );
    assert_eq!(listener.step(ListenerInput::Sent { delivered: true }), Ok(ListenerAction::Read));
    assert_eq!(listener.step(ListenerInput::Read(Frame::Malformed)), Ok(ListenerAction::Read));
    assert_eq!(listener.phase(), ListenerPhase::Streaming);
    assert_eq!(listener.stage(), ConnectionStage::Streaming);
    assert_eq!(
        listener.step(ListenerInput::Read(Frame::Event(log("two")))),
        Ok(ListenerAction::Emit(ServerEvent::Event(log("two"))))
    );
    assert_eq!(listener.stage(), ConnectionStage::Streaming);
    assert_eq!(listener.step(ListenerInput::Sent { delivered: true }), Ok(ListenerAction::Read));
}

#[test]
fn three_failures_make_four_attempts_one_second_apart() {
    let (mut listener, first) = EventStreamListener::new();
    let mut actions = vec![first];
    let failures = vec![
        ListenerInput::Connected { established: false },
        ListenerInput::Read(Frame::Failed),
        ListenerInput::Read(Frame::Unusable),
    ];
    for (round, failure) in failures.into_iter().enumerate() {
        if round > 0 {
            actions.push(listener.step(ListenerInput::Connected { established: true }).unwrap());
        }
        actions.push(listener.step(failure).unwrap());
        assert_eq!(listener.stage(), ConnectionStage::Disconnected);
        actions.push(listener.step(ListenerInput::Sent { delivered: true }).unwrap());
        actions.push(listener.step(ListenerInput::Slept).unwrap());
    }
    let connects = actions.iter().filter(|a| **a == ListenerAction::Connect).count();
    assert_eq!(connects, 4);
    for (i, action) in actions.iter().enumerate() {
        if i > 0 && *action == ListenerAction::Connect {
            assert_eq!(actions[i - 1], ListenerAction::Sleep { ms: 1000 });
        }
    }
    let notices = actions
        .iter()
        .filter(|a| **a == ListenerAction::Emit(ServerEvent::PingResponseDisconnected))
        .count();
    assert_eq!(notices, 3);
    assert!(!actions.contains(&ListenerAction::Stop));
    assert_eq!(listener.phase(), ListenerPhase::Connecting);
}

#[test]
fn a_closed_channel_stops_the_listener() {
    let (mut listener, _) = EventStreamListener::new();
    listener.step(ListenerInput::Connected { established: true }).unwrap();
    listener.step(ListenerInput::Read(Frame::Event(log("x")))).unwrap();
    assert_eq!(listener.step(ListenerInput::Sent { delivered: false }), Ok(ListenerAction::Stop));
    assert_eq!(listener.phase(), ListenerPhase::Stopped);
    assert_eq!(listener.step(ListenerInput::Slept), Err(OutOfTurn));

    let (mut listener, _) = EventStreamListener::new();
    listener.step(ListenerInput::Connected { established: false }).unwrap();
    assert_eq!(listener.step(ListenerInput::Sent { delivered: false }), Ok(ListenerAction::Stop));
}

#[test]
fn the_listener_refuses_inputs_out_of_turn() {
    let (mut listener, _) = EventStreamListener::new();
    assert_eq!(listener.step(ListenerInput::Slept), Err(OutOfTurn));
    assert_eq!(listener.step(ListenerInput::Read(Frame::Malformed)), Err(OutOfTurn));
    assert_eq!(listener.step(ListenerInput::Sent { delivered: true }), Err(OutOfTurn));
    assert_eq!(listener.phase(), ListenerPhase::Connecting);
    listener.step(ListenerInput::Connected { established: true }).unwrap();
    assert_eq!(
        listener.step(ListenerInput::Connected { established: true }),
        Err(OutOfTurn)
    );
    assert_eq!(listener.phase(), ListenerPhase::Streaming);
}
