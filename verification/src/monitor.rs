//! The health monitor: once per interval it has the server probed and flips
//! the backend selector when reachability changes.

use vstd::prelude::*;
use crate::event::ServerEvent;
use crate::protocol::OutOfTurn;
use crate::session::SessionView;
use crate::source::{DataSource, LocalBackend};

verus! {

/// The time from one probe to the next, in milliseconds.
pub const PING_INTERVAL_MS: u64 = 1000;

/// How long a probe may take to connect, in milliseconds.
pub const PING_CONNECT_TIMEOUT_MS: u64 = 1000;

/// The longest single sleep while waiting for the next probe, in
/// milliseconds. Shutdown is noticed within this time.
pub const POLL_STEP_MS: u64 = 100;

/// What the monitor is waiting on.
#[derive(Clone, Copy, Debug, PartialEq, Eq, Structural)]
pub enum MonitorPhase {
    /// A probe is under way.
    Probing,
    /// The local backend is being read from disk.
    Reloading,
    /// A connectivity notification is being sent.
    Notifying,
    /// The next probe is not due yet.
    Waiting,
    /// The loop has ended.
    Stopped,
}

/// The monitor's whole state.
#[derive(Clone, Copy, Debug, PartialEq, Eq, Structural)]
pub struct MonitorState {
    /// Whether the last change of reachability was to "reachable".
    pub connected: bool,
    /// When the next probe is due.
    pub deadline_ms: u64,
    pub phase: MonitorPhase,
}

/// How a liveness request ended.
#[derive(Clone, Copy, Debug, PartialEq, Eq, Structural)]
pub enum ProbeOutcome {
    /// The server answered, with this HTTP status.
    Answered { status: u16 },
    /// No exchange took place: the connection was refused or timed out.
    NoAnswer,
}

/// Whether the outcome shows the server to be alive. Any completed exchange
/// does, even one whose status or body reports an error.
pub open spec fn shows_alive(outcome: ProbeOutcome) -> bool {
    outcome is Answered
}

impl ProbeOutcome {
    /// Whether the outcome shows the server to be alive.
    pub fn is_alive(self) -> (alive: bool)
        ensures
            alive == shows_alive(self),
    {
        match self {
            ProbeOutcome::Answered { .. } => true,
            ProbeOutcome::NoAnswer => false,
        }
    }
}

/// What the program reports back to the monitor.
#[derive(Debug, PartialEq, Eq)]
pub enum MonitorInput {
    /// The probe ended.
    Probed(ProbeOutcome),
    /// The local backend was read from disk.
    Reloaded(LocalBackend),
    /// The notification was handed to the channel, or the channel is closed.
    Sent { delivered: bool },
    /// The wait is over: the time now, and whether the program still runs.
    Clock { now_ms: u64, running: bool },
}

/// What the monitor asks the program to do next.
#[derive(Debug, PartialEq, Eq)]
pub enum MonitorAction {
    /// Send the liveness request, which is the request `Ping` with a
    /// connect timeout of `PING_CONNECT_TIMEOUT_MS`, and report `Probed`.
    Probe,
    /// Read the local backend from disk and report `Reloaded`.
    ReloadLocal,
    /// Send the event to the user interface and report `Sent`.
    Emit(ServerEvent),
    /// Sleep that long, then report `Clock`.
    Wait { sleep_ms: u64 },
    /// End the loop.
    Stop,
}

/// One move of the monitor: its next state, the content of the selector cell
/// after it, and the action it asks for.
pub struct MonitorStep {
    pub state: MonitorState,
    pub source: Option<SessionView>,
    pub action: MonitorAction,
}

/// The deadline after `deadline_ms`: one interval later, whatever the time
/// is now, so that slow probes do not stretch the cadence.
pub open spec fn next_deadline(deadline_ms: u64) -> u64 {
    if deadline_ms + PING_INTERVAL_MS <= u64::MAX {
        (deadline_ms + PING_INTERVAL_MS) as u64
    } else {
        u64::MAX
    }
}

/// The move that ends a probe round: the next deadline is set and the wait
/// begins with a look at the clock.
pub open spec fn round_done(state: MonitorState, source: Option<SessionView>) -> MonitorStep {
    MonitorStep {
        state: MonitorState {
            deadline_ms: next_deadline(state.deadline_ms),
            phase: MonitorPhase::Waiting,
            ..state
        },
        source,
        action: MonitorAction::Wait { sleep_ms: 0 },
    }
}

/// The monitor's transition function. `None` where the input is out of
/// turn.
///
/// - A probe that succeeds while disconnected sets the selector to Remote
///   and announces it; one that fails while connected has the local backend
///   read again, makes it the active one and announces that. Any other probe
///   changes nothing.
/// - A notification that cannot be delivered ends the loop.
/// - While the deadline is ahead, the monitor sleeps in short steps and ends
///   the loop as soon as the program no longer runs.
pub open spec fn monitor_next(
    state: MonitorState,
    source: Option<SessionView>,
    input: MonitorInput,
) -> Option<MonitorStep> {
    match (state.phase, input) {
        (MonitorPhase::Probing, MonitorInput::Probed(outcome)) => {
            let reachable = shows_alive(outcome);
            if reachable && !state.connected {
                Some(
                    MonitorStep {
                        state: MonitorState {
                            connected: true,
                            phase: MonitorPhase::Notifying,
                            ..state
                        },
                        source: None,
                        action: MonitorAction::Emit(ServerEvent::PingResponseConnected),
                    },
                )
            } else if !reachable && state.connected {
                Some(
                    MonitorStep {
                        state: MonitorState { phase: MonitorPhase::Reloading, ..state },
                        source,
                        action: MonitorAction::ReloadLocal,
                    },
                )
            } else {
                Some(round_done(state, source))
            }
        },
        (MonitorPhase::Reloading, MonitorInput::Reloaded(backend)) => Some(
            MonitorStep {
                state: MonitorState {
                    connected: false,
                    phase: MonitorPhase::Notifying,
                    ..state
                },
                source: Some(backend@),
                action: MonitorAction::Emit(ServerEvent::PingResponseDisconnected),
            },
        ),
        (MonitorPhase::Notifying, MonitorInput::Sent { delivered }) => {
            if delivered {
                Some(round_done(state, source))
            } else {
                Some(
                    MonitorStep {
                        state: MonitorState { phase: MonitorPhase::Stopped, ..state },
                        source,
                        action: MonitorAction::Stop,
                    },
                )
            }
        },
        (MonitorPhase::Waiting, MonitorInput::Clock { now_ms, running }) => {
            if now_ms >= state.deadline_ms {
                Some(
                    MonitorStep {
                        state: MonitorState { phase: MonitorPhase::Probing, ..state },
                        source,
                        action: MonitorAction::Probe,
                    },
                )
            } else if running {
                Some(
                    MonitorStep { state, source, action: MonitorAction::Wait { sleep_ms: POLL_STEP_MS } },
                )
            } else {
                Some(
                    MonitorStep {
                        state: MonitorState { phase: MonitorPhase::Stopped, ..state },
                        source,
                        action: MonitorAction::Stop,
                    },
                )
            }
        },
        _ => None,
    }
}

/// What a step of the monitor returns.
pub type MonitorResult = Result<MonitorAction, OutOfTurn>;

/// Says that a step from `state` and `source` on `input` returned `next` and
/// left `after` and `source_after`: the step is the one that `monitor_next`
/// gives, or, where the input is out of turn, an error with nothing changed.
pub open spec fn monitor_moved(
    state: MonitorState,
    source: Option<SessionView>,
    input: MonitorInput,
    next: MonitorResult,
    after: MonitorState,
    source_after: Option<SessionView>,
) -> bool {
    match monitor_next(state, source, input) {
        Some(step) => next == Ok::<MonitorAction, OutOfTurn>(step.action) && after
            == step.state && source_after == step.source,
        None => next is Err && after == state && source_after == source,
    }
}

/// The state in which the monitor starts: disconnected, with the first
/// probe due at once.
pub open spec fn monitor_start(now_ms: u64) -> MonitorState {
    MonitorState { connected: false, deadline_ms: now_ms, phase: MonitorPhase::Probing }
}

/// The health monitor.
#[derive(Debug, PartialEq, Eq)]
pub struct HealthMonitor {
    state: MonitorState,
}

impl View for HealthMonitor {
    type V = MonitorState;

    closed spec fn view(&self) -> MonitorState {
        self.state
    }
}

impl HealthMonitor {
    /// A monitor that starts at `now_ms`, together with its first action,
    /// which is to probe.
    pub fn new(now_ms: u64) -> (started: (Self, MonitorAction))
        ensures
            started.0@ == monitor_start(now_ms),
            started.1 == MonitorAction::Probe,
    {
        (
            HealthMonitor {
                state: MonitorState {
                    connected: false,
                    deadline_ms: now_ms,
                    phase: MonitorPhase::Probing,
                },
            },
            MonitorAction::Probe,
        )
    }

    /// The state, for inspection.
    pub fn state(&self) -> (state: MonitorState)
        ensures
            state == self@,
    {
        self.state
    }

    fn finish_round(&mut self) -> (action: MonitorAction)
        ensures
            final(self)@ == round_done(old(self)@, None).state,
            action == round_done(old(self)@, None).action,
    {
        self.state.deadline_ms = self.state.deadline_ms.saturating_add(PING_INTERVAL_MS);
        self.state.phase = MonitorPhase::Waiting;
        MonitorAction::Wait { sleep_ms: 0 }
    }

    /// Takes the outcome of the last action and names the next one.
    ///
    /// The monitor is the only writer of the selector: `source` is changed
    /// here and nowhere else. The call does no input or output, so a lock on
    /// the cell need only be held for its duration.
    pub fn step(&mut self, input: MonitorInput, source: &mut DataSource) -> (next: MonitorResult)
        ensures
            monitor_moved(old(self)@, old(source)@, input, next, final(self)@, final(source)@),
    {
        match (self.state.phase, input) {
            (MonitorPhase::Probing, MonitorInput::Probed(outcome)) => {
                let reachable = outcome.is_alive();
                if reachable && !self.state.connected {
                    source.set_remote();
                    self.state.connected = true;
                    self.state.phase = MonitorPhase::Notifying;
                    Ok(MonitorAction::Emit(ServerEvent::PingResponseConnected))
                } else if !reachable && self.state.connected {
                    self.state.phase = MonitorPhase::Reloading;
                    Ok(MonitorAction::ReloadLocal)
                } else {
                    Ok(self.finish_round())
                }
            },
            (MonitorPhase::Reloading, MonitorInput::Reloaded(backend)) => {
                source.set_local(backend);
                self.state.connected = false;
                self.state.phase = MonitorPhase::Notifying;
                Ok(MonitorAction::Emit(ServerEvent::PingResponseDisconnected))
            },
            (MonitorPhase::Notifying, MonitorInput::Sent { delivered }) => {
                if delivered {
                    Ok(self.finish_round())
                } else {
                    self.state.phase = MonitorPhase::Stopped;
                    Ok(MonitorAction::Stop)
                }
            },
            (MonitorPhase::Waiting, MonitorInput::Clock { now_ms, running }) => {
                if now_ms >= self.state.deadline_ms {
                    self.state.phase = MonitorPhase::Probing;
                    Ok(MonitorAction::Probe)
                } else if running {
                    Ok(MonitorAction::Wait { sleep_ms: POLL_STEP_MS })
                } else {
                    self.state.phase = MonitorPhase::Stopped;
                    Ok(MonitorAction::Stop)
                }
            },
            _ => Err(OutOfTurn),
        }
    }
}


/// The selector follows the monitor: the server is the active backend
/// exactly while the monitor holds it for connected.
pub open spec fn selector_follows(state: MonitorState, source: Option<SessionView>) -> bool {
    state.connected <==> source is None
}

/// The monitor starts in agreement with a cell whose local backend is
/// active, and no step of the monitor ends that agreement.
pub proof fn law_selector_follows_monitor(
    state: MonitorState,
    source: Option<SessionView>,
    input: MonitorInput,
    now_ms: u64,
)
    ensures
        source is Some ==> selector_follows(monitor_start(now_ms), source),
        selector_follows(state, source) ==> (monitor_next(state, source, input) matches Some(step)
            ==> selector_follows(step.state, step.source)),
{
}

/// What a monitor has done after a series of inputs.
pub struct MonitorRun {
    pub state: MonitorState,
    /// The content of the selector cell.
    pub source: Option<SessionView>,
    /// The actions the monitor asked for, in order.
    pub actions: Seq<MonitorAction>,
}

/// The monitor's history from `state` and `source` over `inputs`. An input
/// that is out of turn is refused and leaves no trace.
pub open spec fn monitor_run(
    state: MonitorState,
    source: Option<SessionView>,
    inputs: Seq<MonitorInput>,
) -> MonitorRun
    decreases inputs.len(),
{
    if inputs.len() == 0 {
        MonitorRun { state, source, actions: Seq::empty() }
    } else {
        let before = monitor_run(state, source, inputs.drop_last());
        match monitor_next(before.state, before.source, inputs.last()) {
            Some(step) => MonitorRun {
                state: step.state,
                source: step.source,
                actions: before.actions.push(step.action),
            },
            None => before,
        }
    }
}

/// One probe as the world answers it: whether the server replied, and the
/// local backend as the store on disk gives it at that moment.
pub struct Probe {
    pub outcome: ProbeOutcome,
    pub on_disk: LocalBackend,
}

impl Probe {
    /// Whether the probe found the server.
    pub open spec fn reachable(self) -> bool {
        shows_alive(self.outcome)
    }
}

/// What the program reports in the course of one probe, up to the start of
/// the wait, when every notification is delivered.
pub open spec fn probe_inputs(connected: bool, probe: Probe) -> Seq<MonitorInput> {
    if probe.reachable() && !connected {
        seq![MonitorInput::Probed(probe.outcome), MonitorInput::Sent { delivered: true }]
    } else if !probe.reachable() && connected {
        seq![
            MonitorInput::Probed(probe.outcome),
            MonitorInput::Reloaded(probe.on_disk),
            MonitorInput::Sent { delivered: true },
        ]
    } else {
        seq![MonitorInput::Probed(probe.outcome)]
    }
}

/// What the monitor asks for in the course of that probe.
pub open spec fn probe_actions(connected: bool, probe: Probe) -> Seq<MonitorAction> {
    if probe.reachable() && !connected {
        seq![
            MonitorAction::Emit(ServerEvent::PingResponseConnected),
            MonitorAction::Wait { sleep_ms: 0 },
        ]
    } else if !probe.reachable() && connected {
        seq![
            MonitorAction::ReloadLocal,
            MonitorAction::Emit(ServerEvent::PingResponseDisconnected),
            MonitorAction::Wait { sleep_ms: 0 },
        ]
    } else {
        seq![MonitorAction::Wait { sleep_ms: 0 }]
    }
}

/// The content of the selector cell after that probe.
///
/// The cell changes only when reachability does: to the server when it
/// starts to answer, and to the local backend as read from disk when it
/// stops. The state that was active before is dropped, never merged.
pub open spec fn source_after_probe(
    connected: bool,
    source: Option<SessionView>,
    probe: Probe,
) -> Option<SessionView> {
    if probe.reachable() && !connected {
        None
    } else if !probe.reachable() && connected {
        Some(probe.on_disk@)
    } else {
        source
    }
}

/// A probe, from the moment it is due to the start of the wait for the next
/// one: the monitor asks for `probe_actions`, ends up waiting with the
/// deadline one interval after the last, holds the server for connected
/// exactly if it answered, and leaves `source_after_probe` in the cell.
pub proof fn law_probe_round(state: MonitorState, source: Option<SessionView>, probe: Probe)
    requires
        state.phase == MonitorPhase::Probing,
    ensures
        ({
            let run = monitor_run(state, source, probe_inputs(state.connected, probe));
            &&& run.state == MonitorState {
                connected: probe.reachable(),
                deadline_ms: next_deadline(state.deadline_ms),
                phase: MonitorPhase::Waiting,
            }
            &&& run.source == source_after_probe(state.connected, source, probe)
            &&& run.actions == probe_actions(state.connected, probe)
        }),
{
    let inputs = probe_inputs(state.connected, probe);
    let run = monitor_run(state, source, inputs);
    reveal_with_fuel(monitor_run, 4);
    if probe.reachable() && !state.connected {
        let first = seq![MonitorInput::Probed(probe.outcome)];
        assert(inputs.drop_last() =~= first);
        assert(first.drop_last() =~= Seq::<MonitorInput>::empty());
        assert(run.actions =~= probe_actions(state.connected, probe));
    } else if !probe.reachable() && state.connected {
        let two = seq![MonitorInput::Probed(probe.outcome), MonitorInput::Reloaded(probe.on_disk)];
        let one = seq![MonitorInput::Probed(probe.outcome)];
        assert(inputs.drop_last() =~= two);
        assert(two.drop_last() =~= one);
        assert(one.drop_last() =~= Seq::<MonitorInput>::empty());
        assert(run.actions =~= probe_actions(state.connected, probe));
    } else {
        assert(inputs.drop_last() =~= Seq::<MonitorInput>::empty());
        assert(run.actions =~= probe_actions(state.connected, probe));
    }
}

/// The content of the selector cell after a series of probes, and whether
/// the monitor then holds the server for connected.
pub open spec fn source_after_probes(
    connected: bool,
    source: Option<SessionView>,
    probes: Seq<Probe>,
) -> (bool, Option<SessionView>)
    decreases probes.len(),
{
    if probes.len() == 0 {
        (connected, source)
    } else {
        let before = source_after_probes(connected, source, probes.drop_last());
        (probes.last().reachable(), source_after_probe(before.0, before.1, probes.last()))
    }
}

/// After a probe that failed, the local backend is the active one, whatever
/// happened before; after one that succeeded, the server is. In particular
/// a monitor whose first probe fails leaves the local backend, as loaded at
/// startup, in place.
pub proof fn law_last_probe_decides(
    connected: bool,
    source: Option<SessionView>,
    probes: Seq<Probe>,
)
    requires
        connected <==> source is None,
        probes.len() > 0,
    ensures
        source_after_probes(connected, source, probes).0 == probes.last().reachable(),
        source_after_probes(connected, source, probes).1 is None <==> probes.last().reachable(),
        probes.len() == 1 && !connected && !probes.last().reachable() ==> source_after_probes(
            connected,
            source,
            probes,
        ).1 == source,
    decreases probes.len(),
{
    if probes.len() > 1 {
        law_last_probe_decides(connected, source, probes.drop_last());
    } else {
        assert(source_after_probes(connected, source, probes.drop_last()) == (connected, source));
    }
}

/// A history in two parts is the history of the second part, begun where
/// the first part ended.
pub proof fn lemma_monitor_run_continues(
    state: MonitorState,
    source: Option<SessionView>,
    first: Seq<MonitorInput>,
    second: Seq<MonitorInput>,
)
    ensures
        ({
            let whole = monitor_run(state, source, first + second);
            let head = monitor_run(state, source, first);
            let tail = monitor_run(head.state, head.source, second);
            &&& whole.state == tail.state
            &&& whole.source == tail.source
            &&& whole.actions == head.actions + tail.actions
        }),
    decreases second.len(),
{
    let head = monitor_run(state, source, first);
    if second.len() == 0 {
        assert(first + second =~= first);
        assert(head.actions + Seq::<MonitorAction>::empty() =~= head.actions);
    } else {
        lemma_monitor_run_continues(state, source, first, second.drop_last());
        assert((first + second).drop_last() =~= first + second.drop_last());
        let before = monitor_run(head.state, head.source, second.drop_last());
        match monitor_next(before.state, before.source, second.last()) {
            Some(step) => {
                assert(head.actions + before.actions.push(step.action) =~= (head.actions
                    + before.actions).push(step.action));
            },
            None => {},
        }
    }
}

/// The report of a clock that shows every deadline to be reached.
pub open spec fn probe_due() -> MonitorInput {
    MonitorInput::Clock { now_ms: u64::MAX, running: true }
}

/// What the program reports in the course of a series of probes, each of
/// them due as soon as the one before is done.
pub open spec fn probes_inputs(connected: bool, probes: Seq<Probe>) -> Seq<MonitorInput>
    decreases probes.len(),
{
    if probes.len() == 0 {
        Seq::empty()
    } else {
        let before = probes.drop_last();
        let was_connected = if before.len() == 0 {
            connected
        } else {
            before.last().reachable()
        };
        probes_inputs(connected, before) + probe_inputs(was_connected, probes.last()).push(
            probe_due(),
        )
    }
}

/// A series of probes, step by step: after them the monitor is about to
/// probe again, holds the server for connected exactly if the last probe
/// found it, and has left in the selector cell what `source_after_probes`
/// names. With it, whatever is said of `source_after_probes` is said of the
/// monitor's steps.
pub proof fn law_probes_in_sequence(state: MonitorState, source: Option<SessionView>, probes: Seq<Probe>)
    requires
        state.phase == MonitorPhase::Probing,
    ensures
        ({
            let run = monitor_run(state, source, probes_inputs(state.connected, probes));
            let after = source_after_probes(state.connected, source, probes);
            &&& run.state.phase == MonitorPhase::Probing
            &&& run.state.connected == after.0
            &&& run.source == after.1
        }),
    decreases probes.len(),
{
    if probes.len() > 0 {
        let before = probes.drop_last();
        law_probes_in_sequence(state, source, before);
        let first = probes_inputs(state.connected, before);
        let head = monitor_run(state, source, first);
        let was_connected = if before.len() == 0 {
            state.connected
        } else {
            before.last().reachable()
        };
        assert(head.state.connected == was_connected) by {
            if before.len() == 0 {
                assert(first =~= Seq::<MonitorInput>::empty());
            } else {
                assert(source_after_probes(state.connected, source, before).0
                    == before.last().reachable());
            }
        }
        let round = probe_inputs(was_connected, probes.last());
        law_probe_round(head.state, head.source, probes.last());
        let waiting = monitor_run(head.state, head.source, round);
        let second = round.push(probe_due());
        assert(second.drop_last() =~= round);
        let tail = monitor_run(head.state, head.source, second);
        assert(tail.state.phase == MonitorPhase::Probing);
        assert(tail.state.connected == probes.last().reachable());
        assert(tail.source == waiting.source);
        lemma_monitor_run_continues(state, source, first, second);
    }
}

/// The wait between probes: while the deadline lies ahead, the monitor
/// sleeps for the short step and no longer, and stops within that step once
/// the program no longer runs; once the deadline is reached it probes, and
/// the time that the probe itself took does not move the deadline.
pub proof fn law_wait_is_short(state: MonitorState, source: Option<SessionView>, now_ms: u64, running: bool)
    requires
        state.phase == MonitorPhase::Waiting,
    ensures
        ({
            let step = monitor_next(state, source, MonitorInput::Clock { now_ms, running })->0;
            &&& monitor_next(state, source, MonitorInput::Clock { now_ms, running }) is Some
            &&& step.source == source
            &&& step.state.deadline_ms == state.deadline_ms
            &&& step.state.connected == state.connected
            &&& now_ms >= state.deadline_ms ==> step.action == MonitorAction::Probe
            &&& now_ms < state.deadline_ms && running ==> step.action == (MonitorAction::Wait {
                sleep_ms: POLL_STEP_MS,
            }) && step.state == state
            &&& now_ms < state.deadline_ms && !running ==> step.action == MonitorAction::Stop
        }),
{
}

} // verus!
