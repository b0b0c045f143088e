//! The event stream listener: it keeps a subscription to the server's push
//! channel open, forwards what arrives and reconnects for as long as the
//! program runs.

use vstd::prelude::*;
use crate::event::{Event, ServerEvent};
use crate::protocol::OutOfTurn;

verus! {

/// The pause between losing the connection and the next attempt, in
/// milliseconds. There is no limit on the number of attempts: the server may
/// simply not have been started yet.
pub const RECONNECT_BACKOFF_MS: u64 = 1000;

/// What the listener is waiting on.
#[derive(Clone, Copy, Debug, PartialEq, Eq, Structural)]
pub enum ListenerPhase {
    /// A connection attempt is under way.
    Connecting,
    /// The connection stands and a read is under way.
    Streaming,
    /// The connection stands and an event is being handed on.
    Forwarding,
    /// The connection is gone and the notification is being sent.
    Notifying,
    /// The connection is gone and the pause before the next attempt runs.
    BackingOff,
    /// The loop has ended.
    Stopped,
}

/// The connection as the user sees it.
#[derive(Clone, Copy, Debug, PartialEq, Eq, Structural)]
pub enum ConnectionStage {
    Disconnected,
    Connecting,
    Streaming,
}

/// The stage a phase belongs to.
pub open spec fn stage_of(phase: ListenerPhase) -> ConnectionStage {
    match phase {
        ListenerPhase::Connecting => ConnectionStage::Connecting,
        ListenerPhase::Streaming | ListenerPhase::Forwarding => ConnectionStage::Streaming,
        _ => ConnectionStage::Disconnected,
    }
}

/// What a read on the connection brought.
#[derive(Debug, PartialEq, Eq)]
pub enum Frame {
    /// A binary frame whose payload is this event.
    Event(Event),
    /// A binary frame whose payload is no event.
    Malformed,
    /// A frame of another kind than binary.
    Unusable,
    /// The read failed.
    Failed,
}

/// What the program reports back to the listener.
#[derive(Debug, PartialEq, Eq)]
pub enum ListenerInput {
    /// The connection attempt ended.
    Connected { established: bool },
    /// The read ended.
    Read(Frame),
    /// The event was handed to the channel, or the channel is closed.
    Sent { delivered: bool },
    /// The pause is over.
    Slept,
}

/// What the listener asks the program to do next.
#[derive(Debug, PartialEq, Eq)]
pub enum ListenerAction {
    /// Open the connection and report `Connected`.
    Connect,
    /// Read one frame and report `Read`.
    Read,
    /// Send the event to the user interface and report `Sent`.
    Emit(ServerEvent),
    /// Sleep that long and report `Slept`.
    Sleep { ms: u64 },
    /// End the loop. This ends the listener alone, never the program.
    Stop,
}

/// One move of the listener.
pub struct ListenerStep {
    pub phase: ListenerPhase,
    pub action: ListenerAction,
}

/// Whether the input is the loss of the connection or of an attempt at it.
pub open spec fn is_failure(input: ListenerInput) -> bool {
    match input {
        ListenerInput::Connected { established } => !established,
        ListenerInput::Read(Frame::Unusable) => true,
        ListenerInput::Read(Frame::Failed) => true,
        _ => false,
    }
}

/// The listener's transition function. `None` where the input is out of
/// turn.
///
/// - A failed attempt, a failed read and a frame that is not binary all end
///   in the same way: the user interface is told, the pause runs, and the
///   next attempt starts.
/// - A binary frame that holds no event is dropped, and the next read
///   follows on the same connection.
/// - An event that cannot be delivered ends the loop.
pub open spec fn listener_next(phase: ListenerPhase, input: ListenerInput) -> Option<ListenerStep> {
    match (phase, input) {
        (ListenerPhase::Connecting, ListenerInput::Connected { established }) => {
            if established {
                Some(ListenerStep { phase: ListenerPhase::Streaming, action: ListenerAction::Read })
            } else {
                Some(
                    ListenerStep {
                        phase: ListenerPhase::Notifying,
                        action: ListenerAction::Emit(ServerEvent::PingResponseDisconnected),
                    },
                )
            }
        },
        (ListenerPhase::Streaming, ListenerInput::Read(frame)) => match frame {
            Frame::Event(event) => Some(
                ListenerStep {
                    phase: ListenerPhase::Forwarding,
                    action: ListenerAction::Emit(ServerEvent::Event(event)),
                },
            ),
            Frame::Malformed => Some(
                ListenerStep { phase: ListenerPhase::Streaming, action: ListenerAction::Read },
            ),
            _ => Some(
                ListenerStep {
                    phase: ListenerPhase::Notifying,
                    action: ListenerAction::Emit(ServerEvent::PingResponseDisconnected),
                },
            ),
        },
        (ListenerPhase::Forwarding, ListenerInput::Sent { delivered }) => {
            if delivered {
                Some(ListenerStep { phase: ListenerPhase::Streaming, action: ListenerAction::Read })
            } else {
                Some(ListenerStep { phase: ListenerPhase::Stopped, action: ListenerAction::Stop })
            }
        },
        (ListenerPhase::Notifying, ListenerInput::Sent { delivered }) => {
            if delivered {
                Some(
                    ListenerStep {
                        phase: ListenerPhase::BackingOff,
                        action: ListenerAction::Sleep { ms: RECONNECT_BACKOFF_MS },
                    },
                )
            } else {
                Some(ListenerStep { phase: ListenerPhase::Stopped, action: ListenerAction::Stop })
            }
        },
        (ListenerPhase::BackingOff, ListenerInput::Slept) => Some(
            ListenerStep { phase: ListenerPhase::Connecting, action: ListenerAction::Connect },
        ),
        _ => None,
    }
}

/// What a step of the listener returns.
pub type ListenerResult = Result<ListenerAction, OutOfTurn>;

/// Says that a step from `phase` on `input` returned `next` and left
/// `after`: the step is the one that `listener_next` gives, or, where the
/// input is out of turn, an error with nothing changed.
pub open spec fn listener_moved(
    phase: ListenerPhase,
    input: ListenerInput,
    next: ListenerResult,
    after: ListenerPhase,
) -> bool {
    match listener_next(phase, input) {
        Some(step) => next == Ok::<ListenerAction, OutOfTurn>(step.action) && after == step.phase,
        None => next is Err && after == phase,
    }
}

/// The event stream listener.
#[derive(Debug, PartialEq, Eq)]
pub struct EventStreamListener {
    phase: ListenerPhase,
}

impl View for EventStreamListener {
    type V = ListenerPhase;

    closed spec fn view(&self) -> ListenerPhase {
        self.phase
    }
}

impl EventStreamListener {
    /// A listener, together with its first action, which is to connect.
    pub fn new() -> (started: (Self, ListenerAction))
        ensures
            started.0@ == ListenerPhase::Connecting,
            started.1 == ListenerAction::Connect,
    {
        (EventStreamListener { phase: ListenerPhase::Connecting }, ListenerAction::Connect)
    }

    /// What the listener is waiting on.
    pub fn phase(&self) -> (phase: ListenerPhase)
        ensures
            phase == self@,
    {
        self.phase
    }

    /// The connection as the user sees it.
    pub fn stage(&self) -> (stage: ConnectionStage)
        ensures
            stage == stage_of(self@),
    {
        match self.phase {
            ListenerPhase::Connecting => ConnectionStage::Connecting,
            ListenerPhase::Streaming | ListenerPhase::Forwarding => ConnectionStage::Streaming,
            _ => ConnectionStage::Disconnected,
        }
    }

    /// Takes the outcome of the last action and names the next one.
    pub fn step(&mut self, input: ListenerInput) -> (next: ListenerResult)
        ensures
            listener_moved(old(self)@, input, next, final(self)@),
    {
        match (self.phase, input) {
            (ListenerPhase::Connecting, ListenerInput::Connected { established }) => {
                if established {
                    self.phase = ListenerPhase::Streaming;
                    Ok(ListenerAction::Read)
                } else {
                    self.phase = ListenerPhase::Notifying;
                    Ok(ListenerAction::Emit(ServerEvent::PingResponseDisconnected))
                }
            },
            (ListenerPhase::Streaming, ListenerInput::Read(frame)) => match frame {
                Frame::Event(event) => {
                    self.phase = ListenerPhase::Forwarding;
                    Ok(ListenerAction::Emit(ServerEvent::Event(event)))
                },
                Frame::Malformed => Ok(ListenerAction::Read),
                _ => {
                    self.phase = ListenerPhase::Notifying;
                    Ok(ListenerAction::Emit(ServerEvent::PingResponseDisconnected))
                },
            },
            (ListenerPhase::Forwarding, ListenerInput::Sent { delivered }) => {
                if delivered {
                    self.phase = ListenerPhase::Streaming;
                    Ok(ListenerAction::Read)
                } else {
                    self.phase = ListenerPhase::Stopped;
                    Ok(ListenerAction::Stop)
                }
            },
            (ListenerPhase::Notifying, ListenerInput::Sent { delivered }) => {
                if delivered {
                    self.phase = ListenerPhase::BackingOff;
                    Ok(ListenerAction::Sleep { ms: RECONNECT_BACKOFF_MS })
                } else {
                    self.phase = ListenerPhase::Stopped;
                    Ok(ListenerAction::Stop)
                }
            },
            (ListenerPhase::BackingOff, ListenerInput::Slept) => {
                self.phase = ListenerPhase::Connecting;
                Ok(ListenerAction::Connect)
            },
            _ => Err(OutOfTurn),
        }
    }
}


/// What a listener has done after a series of inputs.
pub struct ListenerRun {
    /// What it is waiting on now.
    pub phase: ListenerPhase,
    /// The actions it asked for, in order. The first attempt to connect, with
    /// which every listener starts, is not among them.
    pub actions: Seq<ListenerAction>,
    /// How many times it saw the connection, or an attempt at it, fail.
    pub failures: nat,
    /// Whether it found an event undeliverable.
    pub channel_closed: bool,
    /// The events that it read from the stream, in order.
    pub events_read: Seq<Event>,
}

/// The listener's history from its start over `inputs`. An input that is out
/// of turn is refused and leaves no trace.
pub open spec fn listener_run(inputs: Seq<ListenerInput>) -> ListenerRun
    decreases inputs.len(),
{
    if inputs.len() == 0 {
        ListenerRun {
            phase: ListenerPhase::Connecting,
            actions: Seq::empty(),
            failures: 0,
            channel_closed: false,
            events_read: Seq::empty(),
        }
    } else {
        let before = listener_run(inputs.drop_last());
        match listener_next(before.phase, inputs.last()) {
            Some(step) => ListenerRun {
                phase: step.phase,
                actions: before.actions.push(step.action),
                failures: if is_failure(inputs.last()) {
                    before.failures + 1
                } else {
                    before.failures
                },
                channel_closed: before.channel_closed || inputs.last()
                    == (ListenerInput::Sent { delivered: false }),
                events_read: match inputs.last() {
                    ListenerInput::Read(Frame::Event(event)) => before.events_read.push(event),
                    _ => before.events_read,
                },
            },
            None => before,
        }
    }
}

/// How many of the actions are attempts to connect.
pub open spec fn attempts(actions: Seq<ListenerAction>) -> nat
    decreases actions.len(),
{
    if actions.len() == 0 {
        0
    } else if actions.last() == ListenerAction::Connect {
        attempts(actions.drop_last()) + 1
    } else {
        attempts(actions.drop_last())
    }
}

/// How many of the actions are pauses of the fixed backoff.
pub open spec fn pauses(actions: Seq<ListenerAction>) -> nat
    decreases actions.len(),
{
    if actions.len() == 0 {
        0
    } else if actions.last() == (ListenerAction::Sleep { ms: RECONNECT_BACKOFF_MS }) {
        pauses(actions.drop_last()) + 1
    } else {
        pauses(actions.drop_last())
    }
}

/// Whether a failure has been seen whose reconnection has not begun.
pub open spec fn reconnect_owed(phase: ListenerPhase) -> bool {
    phase == ListenerPhase::Notifying || phase == ListenerPhase::BackingOff
}

/// After `n` failures the listener has made `n + 1` attempts to connect,
/// the one it starts with included, each but the first right after a pause
/// of the fixed backoff; it never pauses for any other time. As long as
/// every event can be delivered it never stops, and it never asks for
/// anything but to connect, read, emit an event or pause.
///
/// While the notification or the pause after the latest failure still runs,
/// the attempt that answers that failure is yet to come, and the counts are
/// one short accordingly.
pub proof fn law_reconnects_forever(inputs: Seq<ListenerInput>)
    ensures
        ({
            let run = listener_run(inputs);
            let owed: nat = if reconnect_owed(run.phase) { 1 } else { 0 };
            let unpaused: nat = if run.phase == ListenerPhase::Notifying { 1 } else { 0 };
            &&& !run.channel_closed ==> run.phase != ListenerPhase::Stopped
            &&& !run.channel_closed ==> attempts(run.actions) + 1 + owed == run.failures + 1
            &&& !run.channel_closed ==> pauses(run.actions) + unpaused == run.failures
            &&& run.channel_closed <==> run.phase == ListenerPhase::Stopped
            &&& forall|i: int|
                0 <= i < run.actions.len() && #[trigger] run.actions[i] == ListenerAction::Connect
                    ==> i > 0 && run.actions[i - 1] == (ListenerAction::Sleep {
                    ms: RECONNECT_BACKOFF_MS,
                })
            &&& forall|i: int|
                0 <= i < run.actions.len() && #[trigger] run.actions[i] is Sleep ==> run.actions[i]
                    == (ListenerAction::Sleep { ms: RECONNECT_BACKOFF_MS })
            &&& forall|i: int|
                0 <= i < run.actions.len() && #[trigger] run.actions[i] == ListenerAction::Stop
                    ==> run.channel_closed
            &&& run.phase == ListenerPhase::BackingOff ==> run.actions.len() > 0
                && run.actions.last() == (ListenerAction::Sleep { ms: RECONNECT_BACKOFF_MS })
        }),
    decreases inputs.len(),
{
    if inputs.len() > 0 {
        law_reconnects_forever(inputs.drop_last());
        let before = listener_run(inputs.drop_last());
        let run = listener_run(inputs);
        match listener_next(before.phase, inputs.last()) {
            Some(step) => {
                assert(run.actions.drop_last() =~= before.actions);
                assert(run.actions.last() == step.action);
                assert forall|i: int|
                    0 <= i < run.actions.len() && #[trigger] run.actions[i]
                        == ListenerAction::Connect implies i > 0 && run.actions[i - 1] == (
                ListenerAction::Sleep { ms: RECONNECT_BACKOFF_MS }) by {
                    if i < before.actions.len() {
                        assert(before.actions[i] == ListenerAction::Connect);
                        assert(run.actions[i - 1] == before.actions[i - 1]);
                    } else {
                        assert(before.phase == ListenerPhase::BackingOff);
                        assert(run.actions[i - 1] == before.actions.last());
                    }
                }
                assert forall|i: int|
                    0 <= i < run.actions.len() && #[trigger] run.actions[i] is Sleep implies run.actions[i]
                        == (ListenerAction::Sleep { ms: RECONNECT_BACKOFF_MS }) by {
                    if i < before.actions.len() {
                        assert(run.actions[i] == before.actions[i]);
                    }
                }
                assert forall|i: int|
                    0 <= i < run.actions.len() && #[trigger] run.actions[i]
                        == ListenerAction::Stop implies run.channel_closed by {
                    if i < before.actions.len() {
                        assert(run.actions[i] == before.actions[i]);
                    }
                }
            },
            None => {},
        }
    }
}

/// The events among the actions that come from the stream, in order. The
/// notices that the listener itself gives are not among them.
pub open spec fn forwarded_events(actions: Seq<ListenerAction>) -> Seq<Event>
    decreases actions.len(),
{
    if actions.len() == 0 {
        Seq::empty()
    } else {
        match actions.last() {
            ListenerAction::Emit(ServerEvent::Event(event)) => forwarded_events(
                actions.drop_last(),
            ).push(event),
            _ => forwarded_events(actions.drop_last()),
        }
    }
}

/// The listener hands on every event that it reads, as it read it and in
/// the order of reading, and no other; whatever else came over the stream
/// in between makes no difference to that. Beside the events it only ever
/// emits the notice that the connection is gone.
pub proof fn law_events_are_forwarded_in_order(inputs: Seq<ListenerInput>)
    ensures
        forwarded_events(listener_run(inputs).actions) == listener_run(inputs).events_read,
        forall|i: int|
            0 <= i < listener_run(inputs).actions.len() ==> (
            #[trigger] listener_run(inputs).actions[i] matches ListenerAction::Emit(event)
                ==> event is Event || event == ServerEvent::PingResponseDisconnected),
    decreases inputs.len(),
{
    if inputs.len() > 0 {
        law_events_are_forwarded_in_order(inputs.drop_last());
        let before = listener_run(inputs.drop_last());
        let run = listener_run(inputs);
        match listener_next(before.phase, inputs.last()) {
            Some(step) => {
                assert(run.actions.drop_last() =~= before.actions);
                assert(run.actions.last() == step.action);
                assert forall|i: int| 0 <= i < run.actions.len() implies (
                #[trigger] run.actions[i] matches ListenerAction::Emit(event) ==> event is Event
                    || event == ServerEvent::PingResponseDisconnected) by {
                    if i < before.actions.len() {
                        assert(run.actions[i] == before.actions[i]);
                    }
                }
            },
            None => {},
        }
    }
}

/// A binary frame that holds no event changes nothing: the listener stays
/// on the same connection and asks for the next frame, so that what follows
/// is delivered as if the frame had never come.
pub proof fn law_malformed_frame_is_skipped(inputs: Seq<ListenerInput>)
    requires
        listener_run(inputs).phase == ListenerPhase::Streaming,
    ensures
        ({
            let before = listener_run(inputs);
            let after = listener_run(inputs.push(ListenerInput::Read(Frame::Malformed)));
            &&& after.phase == ListenerPhase::Streaming
            &&& after.actions == before.actions.push(ListenerAction::Read)
            &&& after.failures == before.failures
            &&& after.channel_closed == before.channel_closed
            &&& after.events_read == before.events_read
        }),
{
    let more = inputs.push(ListenerInput::Read(Frame::Malformed));
    assert(more.drop_last() =~= inputs);
}

} // verus!
