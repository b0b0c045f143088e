//! The request dispatcher: the one entry point through which the user
//! interface acts. Every request goes to the server first; the local backend
//! steps in only when the server does not answer, and only for the requests
//! it can serve.

use vstd::prelude::*;
use crate::event::{forwarded, session_snapshot, ServerEvent, ServerEventView, ServerResponse};
use crate::monitor::{law_last_probe_decides, source_after_probes, Probe};
use crate::protocol::OutOfTurn;
use crate::request::{local_handling, locally_applied, writes_session, DashboardRequest, LocalHandling};
use crate::session::{client_index, has_client, law_trust_is_idempotent, law_trust_twice, record_count, valid_clients, ClientListAction, SessionDocument, SessionView};
use crate::source::{DataSource, LocalBackend};

verus! {

/// What came of handing a request to the server.
#[derive(Debug, PartialEq, Eq)]
pub enum RemoteReply {
    /// The exchange succeeded and its body is this typed response.
    Typed(ServerResponse),
    /// The exchange succeeded and its body is empty or no typed response.
    Untyped,
    /// The exchange failed: the connection was refused or timed out.
    Unreachable,
}

/// What the dispatcher is waiting on.
#[derive(Debug, PartialEq, Eq)]
pub enum DispatcherState {
    /// The next request.
    Idle,
    /// The server's reply to this request.
    AwaitingRemote(DashboardRequest),
    /// The outcome of a script on the local session.
    AwaitingScript,
    /// The writing of the local session to the store.
    Saving,
    /// The delivery of an event.
    Emitting,
    /// Nothing: the loop has ended.
    Closed,
}

/// What the program reports back to the dispatcher.
#[derive(Debug, PartialEq, Eq)]
pub enum DispatchInput {
    /// The user interface submitted this request.
    Submitted(DashboardRequest),
    /// The user interface is gone: no request will come any more.
    IntakeClosed,
    /// The exchange with the server ended.
    Replied(RemoteReply),
    /// The script ran: the session it left behind, or nothing if it failed.
    ScriptRan(Option<SessionDocument>),
    /// The local session was written to the store, or could not be; the
    /// failure is the store's to report.
    Saved,
    /// The event was handed to the channel, or the channel is closed.
    Sent { delivered: bool },
}

/// What the dispatcher asks the program to do next.
#[derive(Debug, PartialEq, Eq)]
pub enum DispatchAction {
    /// Take the next request from the intake and report `Submitted`, or
    /// `IntakeClosed`.
    NextRequest,
    /// Send the pending request to the server and report `Replied`.
    SendRemote,
    /// Run this script on a copy of the local session and report
    /// `ScriptRan`.
    RunScript(String),
    /// Write the session of the local backend to the store and report
    /// `Saved`. The dispatcher keeps nothing on disk itself.
    SaveLocal,
    /// Send the event to the user interface and report `Sent`.
    Emit(ServerEvent),
    /// End the loop.
    Stop,
}

pub enum DispatchActionView {
    NextRequest,
    SendRemote,
    RunScript(Seq<char>),
    SaveLocal,
    Emit(ServerEventView),
    Stop,
}

impl View for DispatchAction {
    type V = DispatchActionView;

    open spec fn view(&self) -> DispatchActionView {
        match self {
            DispatchAction::NextRequest => DispatchActionView::NextRequest,
            DispatchAction::SendRemote => DispatchActionView::SendRemote,
            DispatchAction::RunScript(code) => DispatchActionView::RunScript(code@),
            DispatchAction::SaveLocal => DispatchActionView::SaveLocal,
            DispatchAction::Emit(event) => DispatchActionView::Emit(event@),
            DispatchAction::Stop => DispatchActionView::Stop,
        }
    }
}

/// One move of the dispatcher: its next state, the content of the selector
/// cell after it, and the action it asks for.
pub struct DispatchStep {
    pub state: DispatcherState,
    pub source: Option<SessionView>,
    pub action: DispatchActionView,
}

/// The move that drops the matter and turns to the next request.
pub open spec fn turn_to_next(source: Option<SessionView>) -> DispatchStep {
    DispatchStep {
        state: DispatcherState::Idle,
        source,
        action: DispatchActionView::NextRequest,
    }
}

/// The move that leaves `session` in the local backend and shows it to the
/// user interface at once.
pub open spec fn show_session(session: SessionView) -> DispatchStep {
    DispatchStep {
        state: DispatcherState::Emitting,
        source: Some(session),
        action: DispatchActionView::Emit(session_snapshot(session)),
    }
}

/// The move that leaves `session` in the local backend and has it written
/// to the store; the session is shown once that is done.
pub open spec fn save_session(session: SessionView) -> DispatchStep {
    DispatchStep {
        state: DispatcherState::Saving,
        source: Some(session),
        action: DispatchActionView::SaveLocal,
    }
}

/// What the dispatcher does with `request` once the server has not
/// answered.
///
/// The selector is read once. While the server is the active backend, the
/// request is dropped. While the local backend is, a request that it can
/// serve is applied to its session, once; the session is written to the
/// store if the request changed it, and then shown. A script is handed out
/// to be run; any other request is dropped without notice.
pub open spec fn fallback(source: Option<SessionView>, request: DashboardRequest) -> DispatchStep {
    match source {
        Some(session) => match local_handling(request) {
            LocalHandling::Session => if writes_session(session, request) {
                save_session(locally_applied(session, request))
            } else {
                show_session(locally_applied(session, request))
            },
            LocalHandling::Script => DispatchStep {
                state: DispatcherState::AwaitingScript,
                source,
                action: DispatchActionView::RunScript(request->ExecuteScript_0@),
            },
            LocalHandling::Unsupported => turn_to_next(source),
        },
        None => turn_to_next(source),
    }
}

/// The dispatcher's transition function. `None` where the input is out of
/// turn.
///
/// - A submitted request is sent to the server, whatever the selector says.
/// - A typed response is forwarded as an event; any other successful
///   exchange needs nothing more.
/// - A failed exchange leads to `fallback`.
/// - The session that a script leaves behind replaces the local one and is
///   written to the store; after the script, failed or not, the session is
///   shown. If the server became the active backend meanwhile, the outcome
///   is dropped.
/// - An event that cannot be delivered, and the end of the intake, end the
///   loop.
pub open spec fn dispatch_next(
    state: DispatcherState,
    source: Option<SessionView>,
    input: DispatchInput,
) -> Option<DispatchStep> {
    match (state, input) {
        (DispatcherState::Idle, DispatchInput::Submitted(request)) => Some(
            DispatchStep {
                state: DispatcherState::AwaitingRemote(request),
                source,
                action: DispatchActionView::SendRemote,
            },
        ),
        (DispatcherState::Idle, DispatchInput::IntakeClosed) => Some(
            DispatchStep { state: DispatcherState::Closed, source, action: DispatchActionView::Stop },
        ),
        (DispatcherState::AwaitingRemote(request), DispatchInput::Replied(reply)) => match reply {
            RemoteReply::Typed(response) => Some(
                DispatchStep {
                    state: DispatcherState::Emitting,
                    source,
                    action: DispatchActionView::Emit(forwarded(response)),
                },
            ),
            RemoteReply::Untyped => Some(turn_to_next(source)),
            RemoteReply::Unreachable => Some(fallback(source, request)),
        },
        (DispatcherState::AwaitingScript, DispatchInput::ScriptRan(outcome)) => match source {
            Some(session) => match outcome {
                Some(left) => Some(save_session(left@)),
                None => Some(show_session(session)),
            },
            None => Some(turn_to_next(source)),
        },
        (DispatcherState::Saving, DispatchInput::Saved) => match source {
            Some(session) => Some(show_session(session)),
            None => Some(turn_to_next(source)),
        },
        (DispatcherState::Emitting, DispatchInput::Sent { delivered }) => {
            if delivered {
                Some(turn_to_next(source))
            } else {
                Some(
                    DispatchStep {
                        state: DispatcherState::Closed,
                        source,
                        action: DispatchActionView::Stop,
                    },
                )
            }
        },
        _ => None,
    }
}

/// What a step of the dispatcher returns.
pub type DispatchResult = Result<DispatchAction, OutOfTurn>;

/// Says that a step from `state` and `source` on `input` returned `next` and
/// left `after` and `source_after`: the step is the one that `dispatch_next`
/// gives, or, where the input is out of turn, an error with nothing changed.
pub open spec fn dispatch_moved(
    state: DispatcherState,
    source: Option<SessionView>,
    input: DispatchInput,
    next: DispatchResult,
    after: DispatcherState,
    source_after: Option<SessionView>,
) -> bool {
    match dispatch_next(state, source, input) {
        Some(step) => (next matches Ok(action) && action@ == step.action) && after == step.state
            && source_after == step.source,
        None => next is Err && after == state && source_after == source,
    }
}

/// The request dispatcher.
#[derive(Debug, PartialEq, Eq)]
pub struct RequestDispatcher {
    state: DispatcherState,
}

impl View for RequestDispatcher {
    type V = DispatcherState;

    closed spec fn view(&self) -> DispatcherState {
        self.state
    }
}

impl RequestDispatcher {
    /// A dispatcher, together with its first action, which is to take a
    /// request.
    pub fn new() -> (started: (Self, DispatchAction))
        ensures
            started.0@ == DispatcherState::Idle,
            started.1@ == DispatchActionView::NextRequest,
    {
        (RequestDispatcher { state: DispatcherState::Idle }, DispatchAction::NextRequest)
    }

    /// What the dispatcher is waiting on.
    pub fn state(&self) -> (state: &DispatcherState)
        ensures
            *state == self@,
    {
        &self.state
    }

    /// The request that is with the server, if one is.
    pub fn pending(&self) -> (request: Option<&DashboardRequest>)
        ensures
            match self@ {
                DispatcherState::AwaitingRemote(r) => request == Some(&r),
                _ => request is None,
            },
    {
        match &self.state {
            DispatcherState::AwaitingRemote(request) => Some(request),
            _ => None,
        }
    }

    /// Shows what the local backend holds.
    fn show(&mut self, backend: &LocalBackend) -> (action: DispatchAction)
        ensures
            final(self)@ == DispatcherState::Emitting,
            action@ == DispatchActionView::Emit(session_snapshot(backend@)),
    {
        self.state = DispatcherState::Emitting;
        DispatchAction::Emit(ServerEvent::snapshot(backend.session()))
    }

    /// Has the session of the local backend written to the store.
    fn save(&mut self) -> (action: DispatchAction)
        ensures
            final(self)@ == DispatcherState::Saving,
            action@ == DispatchActionView::SaveLocal,
    {
        self.state = DispatcherState::Saving;
        DispatchAction::SaveLocal
    }

    /// Drops the matter and turns to the next request.
    fn drop_it(&mut self) -> (action: DispatchAction)
        ensures
            final(self)@ == DispatcherState::Idle,
            action@ == DispatchActionView::NextRequest,
    {
        self.state = DispatcherState::Idle;
        DispatchAction::NextRequest
    }

    /// Serves `request` without the server, as far as that can be done.
    fn fall_back(&mut self, source: &mut DataSource, request: DashboardRequest) -> (action:
        DispatchAction)
        ensures
            final(self)@ == fallback(old(source)@, request).state,
            final(source)@ == fallback(old(source)@, request).source,
            action@ == fallback(old(source)@, request).action,
    {
        match source {
            DataSource::Remote => self.drop_it(),
            DataSource::Local(backend) => match request {
                DashboardRequest::ExecuteScript(code) => {
                    self.state = DispatcherState::AwaitingScript;
                    DispatchAction::RunScript(code)
                },
                plain => match plain.local_handling() {
                    LocalHandling::Session => {
                        if backend.apply(plain) {
                            self.save()
                        } else {
                            self.show(backend)
                        }
                    },
                    _ => self.drop_it(),
                },
            },
        }
    }

    /// Takes the outcome of the last action and names the next one.
    ///
    /// The dispatcher reads the selector and may change the session of the
    /// local backend, but it never changes which backend is active. The call
    /// does no input or output, so a lock on the cell need only be held for
    /// its duration.
    pub fn step(&mut self, input: DispatchInput, source: &mut DataSource) -> (next: DispatchResult)
        ensures
            dispatch_moved(old(self)@, old(source)@, input, next, final(self)@, final(source)@),
            final(source)@ is Some <==> old(source)@ is Some,
    {
        let mut state = DispatcherState::Closed;
        std::mem::swap(&mut self.state, &mut state);
        match (state, input) {
            (DispatcherState::Idle, DispatchInput::Submitted(request)) => {
                self.state = DispatcherState::AwaitingRemote(request);
                Ok(DispatchAction::SendRemote)
            },
            (DispatcherState::Idle, DispatchInput::IntakeClosed) => {
                self.state = DispatcherState::Closed;
                Ok(DispatchAction::Stop)
            },
            (DispatcherState::AwaitingRemote(request), DispatchInput::Replied(reply)) => match reply {
                RemoteReply::Typed(response) => {
                    self.state = DispatcherState::Emitting;
                    Ok(DispatchAction::Emit(ServerEvent::forward(response)))
                },
                RemoteReply::Untyped => Ok(self.drop_it()),
                RemoteReply::Unreachable => Ok(self.fall_back(source, request)),
            },
            (DispatcherState::AwaitingScript, DispatchInput::ScriptRan(outcome)) => match source {
                DataSource::Local(backend) => match outcome {
                    Some(left) => {
                        backend.replace_session(left);
                        Ok(self.save())
                    },
                    None => Ok(self.show(backend)),
                },
                DataSource::Remote => Ok(self.drop_it()),
            },
            (DispatcherState::Saving, DispatchInput::Saved) => match source {
                DataSource::Local(backend) => Ok(self.show(backend)),
                DataSource::Remote => Ok(self.drop_it()),
            },
            (DispatcherState::Emitting, DispatchInput::Sent { delivered }) => {
                if delivered {
                    Ok(self.drop_it())
                } else {
                    self.state = DispatcherState::Closed;
                    Ok(DispatchAction::Stop)
                }
            },
            (state, _) => {
                self.state = state;
                Err(OutOfTurn)
            },
        }
    }
}


/// What a dispatcher has done after a series of inputs.
pub struct DispatchRun {
    pub state: DispatcherState,
    /// The content of the selector cell.
    pub source: Option<SessionView>,
    /// The actions the dispatcher asked for, in order. The first, to take a
    /// request, with which every dispatcher starts, is not among them.
    pub actions: Seq<DispatchActionView>,
    /// The requests that were sent to the server, one for each round trip,
    /// in order.
    pub round_trips: Seq<DashboardRequest>,
}

/// The dispatcher's history from its start, with `source` in the selector
/// cell, over `inputs`. An input that is out of turn is refused and leaves
/// no trace.
pub open spec fn dispatch_run(source: Option<SessionView>, inputs: Seq<DispatchInput>) -> DispatchRun
    decreases inputs.len(),
{
    if inputs.len() == 0 {
        DispatchRun {
            state: DispatcherState::Idle,
            source,
            actions: Seq::empty(),
            round_trips: Seq::empty(),
        }
    } else {
        let before = dispatch_run(source, inputs.drop_last());
        match dispatch_next(before.state, before.source, inputs.last()) {
            Some(step) => DispatchRun {
                state: step.state,
                source: step.source,
                actions: before.actions.push(step.action),
                round_trips: match step.state {
                    DispatcherState::AwaitingRemote(request) => before.round_trips.push(request),
                    _ => before.round_trips,
                },
            },
            None => before,
        }
    }
}

/// The events among the actions, in order.
pub open spec fn emitted(actions: Seq<DispatchActionView>) -> Seq<ServerEventView>
    decreases actions.len(),
{
    if actions.len() == 0 {
        Seq::empty()
    } else {
        match actions.last() {
            DispatchActionView::Emit(event) => emitted(actions.drop_last()).push(event),
            _ => emitted(actions.drop_last()),
        }
    }
}

/// How many of the actions send a request to the server.
pub open spec fn remote_sends(actions: Seq<DispatchActionView>) -> nat
    decreases actions.len(),
{
    if actions.len() == 0 {
        0
    } else if actions.last() == DispatchActionView::SendRemote {
        remote_sends(actions.drop_last()) + 1
    } else {
        remote_sends(actions.drop_last())
    }
}

/// The requests among the inputs that the dispatcher took, in order.
pub open spec fn requests_taken(source: Option<SessionView>, inputs: Seq<DispatchInput>) -> Seq<
    DashboardRequest,
>
    decreases inputs.len(),
{
    if inputs.len() == 0 {
        Seq::empty()
    } else {
        let before = dispatch_run(source, inputs.drop_last());
        let taken = requests_taken(source, inputs.drop_last());
        match inputs.last() {
            DispatchInput::Submitted(request) => if before.state == DispatcherState::Idle {
                taken.push(request)
            } else {
                taken
            },
            _ => taken,
        }
    }
}

/// Whatever happens, every request that the dispatcher takes is sent to the
/// server exactly once, at once and in the order of submission: no request
/// is sent twice, none is held back until the selector allows it, and none
/// overtakes another.
pub proof fn law_every_request_is_sent_once(source: Option<SessionView>, inputs: Seq<DispatchInput>)
    ensures
        dispatch_run(source, inputs).round_trips == requests_taken(source, inputs),
        remote_sends(dispatch_run(source, inputs).actions) == requests_taken(source, inputs).len(),
    decreases inputs.len(),
{
    if inputs.len() > 0 {
        law_every_request_is_sent_once(source, inputs.drop_last());
        let before = dispatch_run(source, inputs.drop_last());
        let run = dispatch_run(source, inputs);
        match dispatch_next(before.state, before.source, inputs.last()) {
            Some(step) => {
                assert(run.actions.drop_last() =~= before.actions);
            },
            None => {},
        }
    }
}

/// A request together with what the server made of it.
pub struct Exchange {
    pub request: DashboardRequest,
    pub reply: RemoteReply,
}

/// What the program reports while one request is served by a server that
/// answers, with every event delivered.
pub open spec fn exchange_inputs(exchange: Exchange) -> Seq<DispatchInput> {
    if exchange.reply is Typed {
        seq![
            DispatchInput::Submitted(exchange.request),
            DispatchInput::Replied(exchange.reply),
            DispatchInput::Sent { delivered: true },
        ]
    } else {
        seq![DispatchInput::Submitted(exchange.request), DispatchInput::Replied(exchange.reply)]
    }
}

/// The same for a series of requests, submitted one after the other.
pub open spec fn exchanges_inputs(exchanges: Seq<Exchange>) -> Seq<DispatchInput>
    decreases exchanges.len(),
{
    if exchanges.len() == 0 {
        Seq::empty()
    } else {
        exchanges_inputs(exchanges.drop_last()) + exchange_inputs(exchanges.last())
    }
}

/// The requests of a series of exchanges, in order.
pub open spec fn requests_of(exchanges: Seq<Exchange>) -> Seq<DashboardRequest> {
    exchanges.map_values(|x: Exchange| x.request)
}

/// The typed responses of a series of exchanges, each as the event it is
/// forwarded as, in order.
pub open spec fn responses_of(exchanges: Seq<Exchange>) -> Seq<ServerEventView>
    decreases exchanges.len(),
{
    if exchanges.len() == 0 {
        Seq::empty()
    } else {
        match exchanges.last().reply {
            RemoteReply::Typed(response) => responses_of(exchanges.drop_last()).push(
                forwarded(response),
            ),
            _ => responses_of(exchanges.drop_last()),
        }
    }
}

/// A history that is extended by one input that is in turn.
proof fn lemma_run_push(source: Option<SessionView>, inputs: Seq<DispatchInput>, input: DispatchInput)
    ensures
        ({
            let before = dispatch_run(source, inputs);
            let after = dispatch_run(source, inputs.push(input));
            match dispatch_next(before.state, before.source, input) {
                Some(step) => after.state == step.state && after.source == step.source
                    && after.actions == before.actions.push(step.action) && after.round_trips == (
                match step.state {
                    DispatcherState::AwaitingRemote(request) => before.round_trips.push(request),
                    _ => before.round_trips,
                }),
                None => after == before,
            }
        }),
{
    assert(inputs.push(input).drop_last() =~= inputs);
}

/// The events of a list of actions that is extended by one.
proof fn lemma_emitted_push(actions: Seq<DispatchActionView>, action: DispatchActionView)
    ensures
        emitted(actions.push(action)) == (match action {
            DispatchActionView::Emit(event) => emitted(actions).push(event),
            _ => emitted(actions),
        }),
{
    assert(actions.push(action).drop_last() =~= actions);
}

/// While the server answers, every request makes exactly one round trip,
/// the requests reach the server in the order of their submission, and the
/// typed responses come out as events in that same order. Nothing is
/// applied to the local backend, whatever the selector says, and the
/// dispatcher is ready for the next request.
pub proof fn law_one_round_trip_each(source: Option<SessionView>, exchanges: Seq<Exchange>)
    requires
        forall|i: int| 0 <= i < exchanges.len() ==> (#[trigger] exchanges[i]).reply
            != RemoteReply::Unreachable,
    ensures
        ({
            let run = dispatch_run(source, exchanges_inputs(exchanges));
            &&& run.state == DispatcherState::Idle
            &&& run.source == source
            &&& run.round_trips == requests_of(exchanges)
            &&& run.round_trips.len() == exchanges.len()
            &&& emitted(run.actions) == responses_of(exchanges)
        }),
    decreases exchanges.len(),
{
    if exchanges.len() > 0 {
        let init = exchanges.drop_last();
        let last = exchanges.last();
        law_one_round_trip_each(source, init);
        let base = exchanges_inputs(init);
        let before = dispatch_run(source, base);
        let submitted = DispatchInput::Submitted(last.request);
        let replied = DispatchInput::Replied(last.reply);
        let sent = DispatchInput::Sent { delivered: true };
        lemma_run_push(source, base, submitted);
        let one = dispatch_run(source, base.push(submitted));
        lemma_emitted_push(before.actions, DispatchActionView::SendRemote);
        lemma_run_push(source, base.push(submitted), replied);
        let two = dispatch_run(source, base.push(submitted).push(replied));
        assert(requests_of(exchanges) =~= requests_of(init).push(last.request));
        match last.reply {
            RemoteReply::Typed(response) => {
                lemma_emitted_push(one.actions, DispatchActionView::Emit(forwarded(response)));
                lemma_run_push(source, base.push(submitted).push(replied), sent);
                lemma_emitted_push(two.actions, DispatchActionView::NextRequest);
                assert(exchanges_inputs(exchanges) =~= base.push(submitted).push(replied).push(
                    sent,
                ));
            },
            RemoteReply::Untyped => {
                lemma_emitted_push(one.actions, DispatchActionView::NextRequest);
                assert(exchanges_inputs(exchanges) =~= base.push(submitted).push(replied));
            },
            RemoteReply::Unreachable => {},
        }
    }
}

/// What the program reports while a request is served by the local
/// backend because the server does not answer, with the event delivered.
pub open spec fn offline_inputs(session: SessionView, request: DashboardRequest) -> Seq<
    DispatchInput,
> {
    if writes_session(session, request) {
        seq![
            DispatchInput::Submitted(request),
            DispatchInput::Replied(RemoteReply::Unreachable),
            DispatchInput::Saved,
            DispatchInput::Sent { delivered: true },
        ]
    } else {
        seq![
            DispatchInput::Submitted(request),
            DispatchInput::Replied(RemoteReply::Unreachable),
            DispatchInput::Sent { delivered: true },
        ]
    }
}

/// What the dispatcher asks for in the course of that.
pub open spec fn offline_actions(session: SessionView, request: DashboardRequest) -> Seq<
    DispatchActionView,
> {
    let shown = DispatchActionView::Emit(session_snapshot(locally_applied(session, request)));
    if writes_session(session, request) {
        seq![
            DispatchActionView::SendRemote,
            DispatchActionView::SaveLocal,
            shown,
            DispatchActionView::NextRequest,
        ]
    } else {
        seq![DispatchActionView::SendRemote, shown, DispatchActionView::NextRequest]
    }
}

/// A request that the local backend can serve as a plain change of the
/// session, submitted while the server does not answer and the local
/// backend is the active one: after the one failed round trip the change is
/// applied to the session once, the session is written to the store if the
/// request changed it, one event shows the session as it then stands, and
/// the dispatcher is ready for the next request. The local backend stays
/// the active one.
pub proof fn law_local_fallback(session: SessionView, request: DashboardRequest)
    requires
        local_handling(request) == LocalHandling::Session,
    ensures
        ({
            let run = dispatch_run(Some(session), offline_inputs(session, request));
            &&& run.state == DispatcherState::Idle
            &&& run.source == Some(locally_applied(session, request))
            &&& run.round_trips == seq![request]
            &&& emitted(run.actions) == seq![session_snapshot(locally_applied(session, request))]
            &&& run.actions == offline_actions(session, request)
        }),
{
    let source = Some(session);
    let none = Seq::<DispatchInput>::empty();
    let submitted = DispatchInput::Submitted(request);
    let replied = DispatchInput::Replied(RemoteReply::Unreachable);
    let sent = DispatchInput::Sent { delivered: true };
    let shown = DispatchActionView::Emit(session_snapshot(locally_applied(session, request)));
    let a0 = Seq::<DispatchActionView>::empty();
    let a1 = a0.push(DispatchActionView::SendRemote);
    lemma_run_push(source, none, submitted);
    lemma_run_push(source, none.push(submitted), replied);
    lemma_emitted_push(a0, DispatchActionView::SendRemote);
    if writes_session(session, request) {
        let i2 = none.push(submitted).push(replied);
        lemma_run_push(source, i2, DispatchInput::Saved);
        lemma_run_push(source, i2.push(DispatchInput::Saved), sent);
        assert(offline_inputs(session, request) =~= i2.push(DispatchInput::Saved).push(sent));
        let a2 = a1.push(DispatchActionView::SaveLocal);
        lemma_emitted_push(a1, DispatchActionView::SaveLocal);
        lemma_emitted_push(a2, shown);
        lemma_emitted_push(a2.push(shown), DispatchActionView::NextRequest);
        let run = dispatch_run(source, offline_inputs(session, request));
        assert(run.actions =~= a2.push(shown).push(DispatchActionView::NextRequest));
        assert(run.actions =~= offline_actions(session, request));
        assert(run.round_trips =~= seq![request]);
        assert(emitted(run.actions) =~= seq![
            session_snapshot(locally_applied(session, request)),
        ]);
    } else {
        let i2 = none.push(submitted).push(replied);
        lemma_run_push(source, i2, sent);
        assert(offline_inputs(session, request) =~= i2.push(sent));
        lemma_emitted_push(a1, shown);
        lemma_emitted_push(a1.push(shown), DispatchActionView::NextRequest);
        let run = dispatch_run(source, offline_inputs(session, request));
        assert(run.actions =~= a1.push(shown).push(DispatchActionView::NextRequest));
        assert(run.actions =~= offline_actions(session, request));
        assert(run.round_trips =~= seq![request]);
        assert(emitted(run.actions) =~= seq![
            session_snapshot(locally_applied(session, request)),
        ]);
    }
}

/// A script, submitted while the server does not answer and the local
/// backend is the active one: after the one failed round trip the script is
/// handed out to be run; the session it leaves behind replaces the local
/// one and is written to the store (a failed script leaves the session as
/// it was, and nothing is written); and one event shows the session as it
/// then stands.
pub proof fn law_script_fallback(
    session: SessionView,
    request: DashboardRequest,
    outcome: Option<SessionDocument>,
)
    requires
        request is ExecuteScript,
    ensures
        ({
            let left = match outcome {
                Some(document) => document@,
                None => session,
            };
            let run = dispatch_run(
                Some(session),
                if outcome is Some {
                    seq![
                        DispatchInput::Submitted(request),
                        DispatchInput::Replied(RemoteReply::Unreachable),
                        DispatchInput::ScriptRan(outcome),
                        DispatchInput::Saved,
                        DispatchInput::Sent { delivered: true },
                    ]
                } else {
                    seq![
                        DispatchInput::Submitted(request),
                        DispatchInput::Replied(RemoteReply::Unreachable),
                        DispatchInput::ScriptRan(outcome),
                        DispatchInput::Sent { delivered: true },
                    ]
                },
            );
            &&& run.state == DispatcherState::Idle
            &&& run.source == Some(left)
            &&& run.round_trips == seq![request]
            &&& run.actions == if outcome is Some {
                seq![
                    DispatchActionView::SendRemote,
                    DispatchActionView::RunScript(request->ExecuteScript_0@),
                    DispatchActionView::SaveLocal,
                    DispatchActionView::Emit(session_snapshot(left)),
                    DispatchActionView::NextRequest,
                ]
            } else {
                seq![
                    DispatchActionView::SendRemote,
                    DispatchActionView::RunScript(request->ExecuteScript_0@),
                    DispatchActionView::Emit(session_snapshot(left)),
                    DispatchActionView::NextRequest,
                ]
            }
        }),
{
    let source = Some(session);
    let none = Seq::<DispatchInput>::empty();
    let submitted = DispatchInput::Submitted(request);
    let replied = DispatchInput::Replied(RemoteReply::Unreachable);
    let ran = DispatchInput::ScriptRan(outcome);
    let sent = DispatchInput::Sent { delivered: true };
    let i3 = none.push(submitted).push(replied).push(ran);
    lemma_run_push(source, none, submitted);
    lemma_run_push(source, none.push(submitted), replied);
    lemma_run_push(source, none.push(submitted).push(replied), ran);
    let left = match outcome {
        Some(document) => document@,
        None => session,
    };
    if outcome is Some {
        lemma_run_push(source, i3, DispatchInput::Saved);
        lemma_run_push(source, i3.push(DispatchInput::Saved), sent);
        let inputs = seq![submitted, replied, ran, DispatchInput::Saved, sent];
        assert(inputs =~= i3.push(DispatchInput::Saved).push(sent));
        let run = dispatch_run(source, inputs);
        assert(run.actions =~= seq![
            DispatchActionView::SendRemote,
            DispatchActionView::RunScript(request->ExecuteScript_0@),
            DispatchActionView::SaveLocal,
            DispatchActionView::Emit(session_snapshot(left)),
            DispatchActionView::NextRequest,
        ]);
        assert(run.round_trips =~= seq![request]);
    } else {
        lemma_run_push(source, i3, sent);
        let inputs = seq![submitted, replied, ran, sent];
        assert(inputs =~= i3.push(sent));
        let run = dispatch_run(source, inputs);
        assert(run.actions =~= seq![
            DispatchActionView::SendRemote,
            DispatchActionView::RunScript(request->ExecuteScript_0@),
            DispatchActionView::Emit(session_snapshot(left)),
            DispatchActionView::NextRequest,
        ]);
        assert(run.round_trips =~= seq![request]);
    }
}

/// A request that the local backend cannot serve, or any request while the
/// server is the active backend, is dropped without a trace when the server
/// does not answer: no event, no change, and the dispatcher is ready for
/// the next request.
pub proof fn law_dropped_without_fallback(source: Option<SessionView>, request: DashboardRequest)
    requires
        source is None || local_handling(request) == LocalHandling::Unsupported,
    ensures
        ({
            let run = dispatch_run(
                source,
                seq![
                    DispatchInput::Submitted(request),
                    DispatchInput::Replied(RemoteReply::Unreachable),
                ],
            );
            &&& run.state == DispatcherState::Idle
            &&& run.source == source
            &&& run.round_trips == seq![request]
            &&& run.actions == seq![DispatchActionView::SendRemote, DispatchActionView::NextRequest]
        }),
{
    let none = Seq::<DispatchInput>::empty();
    let submitted = DispatchInput::Submitted(request);
    let replied = DispatchInput::Replied(RemoteReply::Unreachable);
    lemma_run_push(source, none, submitted);
    lemma_run_push(source, none.push(submitted), replied);
    assert(seq![submitted, replied] =~= none.push(submitted).push(replied));
    let run = dispatch_run(source, seq![submitted, replied]);
    assert(run.actions =~= seq![DispatchActionView::SendRemote, DispatchActionView::NextRequest]);
    assert(run.round_trips =~= seq![request]);
}

/// Once the last probe of the health monitor has failed, however many
/// failed before it, the local backend is the active one, and a request
/// that it can serve as a plain change of the session is served by it when
/// the server does not answer the request either: the change is applied to
/// the session once and one event shows the session as it then stands.
pub proof fn law_fallback_after_failed_probes(
    connected: bool,
    source: Option<SessionView>,
    probes: Seq<Probe>,
    request: DashboardRequest,
)
    requires
        connected <==> source is None,
        probes.len() > 0,
        !probes.last().reachable(),
        local_handling(request) == LocalHandling::Session,
    ensures
        ({
            let active = source_after_probes(connected, source, probes).1;
            let run = dispatch_run(active, offline_inputs(active->0, request));
            &&& active is Some
            &&& run.source == Some(locally_applied(active->0, request))
            &&& emitted(run.actions) == seq![
                session_snapshot(locally_applied(active->0, request)),
            ]
            &&& run.state == DispatcherState::Idle
        }),
{
    law_last_probe_decides(connected, source, probes);
    let active = source_after_probes(connected, source, probes).1;
    law_local_fallback(active->0, request);
}

/// Requests are served one at a time and in the order of their submission:
/// while one is being served, the next is not taken.
pub proof fn law_one_request_at_a_time(
    state: DispatcherState,
    source: Option<SessionView>,
    request: DashboardRequest,
)
    ensures
        state != DispatcherState::Idle ==> dispatch_next(
            state,
            source,
            DispatchInput::Submitted(request),
        ) is None,
        state == DispatcherState::Idle ==> (dispatch_next(
            state,
            source,
            DispatchInput::Submitted(request),
        ) matches Some(step) && step.state == DispatcherState::AwaitingRemote(request)
            && step.action == DispatchActionView::SendRemote && step.source == source),
{
}

/// Trusting a client twice in a row while the server does not answer and
/// the local backend is the active one: if the client has an entry, the
/// session then holds exactly one entry for it, and that entry is trusted;
/// the second request changes nothing, and each request is answered by one
/// event that shows the session.
pub proof fn law_trust_dispatched_twice(
    session: SessionView,
    first: DashboardRequest,
    second: DashboardRequest,
)
    requires
        valid_clients(session.clients),
        first matches DashboardRequest::UpdateClientList { hostname, action } && action
            == ClientListAction::Trust && has_client(session.clients, hostname@),
        second matches DashboardRequest::UpdateClientList { hostname, action } && action
            == ClientListAction::Trust && hostname@ == first->UpdateClientList_hostname@,
    ensures
        ({
            let hostname = first->UpdateClientList_hostname@;
            let once = locally_applied(session, first);
            let run = dispatch_run(
                Some(session),
                offline_inputs(session, first) + offline_inputs(once, second),
            );
            &&& run.source == Some(once)
            &&& run.state == DispatcherState::Idle
            &&& once.settings == session.settings
            &&& record_count(once.clients, hostname) == 1
            &&& once.clients[client_index(once.clients, hostname)].trusted
            &&& emitted(run.actions) == seq![session_snapshot(once), session_snapshot(once)]
            &&& run.round_trips == seq![first, second]
        }),
{
    let hostname = first->UpdateClientList_hostname@;
    let once = locally_applied(session, first);
    law_trust_is_idempotent(session.clients, hostname);
    law_trust_twice(session.clients, hostname);
    assert(locally_applied(once, second) == once);
    assert(writes_session(session, first));
    assert(writes_session(once, second));
    let source = Some(session);
    let unreachable = DispatchInput::Replied(RemoteReply::Unreachable);
    let sent = DispatchInput::Sent { delivered: true };
    let i0 = Seq::<DispatchInput>::empty();
    let i1 = i0.push(DispatchInput::Submitted(first));
    let i2 = i1.push(unreachable);
    let i3 = i2.push(DispatchInput::Saved);
    let i4 = i3.push(sent);
    let i5 = i4.push(DispatchInput::Submitted(second));
    let i6 = i5.push(unreachable);
    let i7 = i6.push(DispatchInput::Saved);
    let i8 = i7.push(sent);
    lemma_run_push(source, i0, DispatchInput::Submitted(first));
    lemma_run_push(source, i1, unreachable);
    lemma_run_push(source, i2, DispatchInput::Saved);
    lemma_run_push(source, i3, sent);
    lemma_run_push(source, i4, DispatchInput::Submitted(second));
    lemma_run_push(source, i5, unreachable);
    lemma_run_push(source, i6, DispatchInput::Saved);
    lemma_run_push(source, i7, sent);
    assert(offline_inputs(session, first) + offline_inputs(once, second) =~= i8);
    let run = dispatch_run(source, i8);
    let shown = DispatchActionView::Emit(session_snapshot(once));
    let a0 = Seq::<DispatchActionView>::empty();
    let a1 = a0.push(DispatchActionView::SendRemote);
    let a2 = a1.push(DispatchActionView::SaveLocal);
    let a3 = a2.push(shown);
    let a4 = a3.push(DispatchActionView::NextRequest);
    let a5 = a4.push(DispatchActionView::SendRemote);
    let a6 = a5.push(DispatchActionView::SaveLocal);
    let a7 = a6.push(shown);
    let a8 = a7.push(DispatchActionView::NextRequest);
    assert(run.actions == a8);
    lemma_emitted_push(a0, DispatchActionView::SendRemote);
    lemma_emitted_push(a1, DispatchActionView::SaveLocal);
    lemma_emitted_push(a2, shown);
    lemma_emitted_push(a3, DispatchActionView::NextRequest);
    lemma_emitted_push(a4, DispatchActionView::SendRemote);
    lemma_emitted_push(a5, DispatchActionView::SaveLocal);
    lemma_emitted_push(a6, shown);
    lemma_emitted_push(a7, DispatchActionView::NextRequest);
    assert(emitted(run.actions) =~= seq![session_snapshot(once), session_snapshot(once)]);
    assert(run.round_trips =~= seq![first, second]);
}

/// The dispatcher never changes which backend is active: only the health
/// monitor writes the selector.
pub proof fn law_dispatcher_keeps_selector(
    state: DispatcherState,
    source: Option<SessionView>,
    input: DispatchInput,
)
    ensures
        dispatch_next(state, source, input) matches Some(step) ==> (step.source is Some
            <==> source is Some),
{
}

} // verus!
