//! Supervisor of the search daemon.
//!
//! Four cooperating parts keep one daemon connection alive behind a single
//! event stream: the subscription driver restarts generations forever, the
//! service loop routes requests, the client manager starts the daemon on
//! demand, and a response relay forwards what the daemon says. Each part is a
//! turn function from state and input to next state and action; the tasks
//! that own the channels and the process perform the actions.

use vstd::prelude::*;

pub mod model;
pub mod runs;

verus! {

/// Requests that a generation's request channel holds at most.
pub const REQUEST_CAPACITY: usize = 4;

/// Events that a generation's event channel holds at most.
pub const EVENT_CAPACITY: usize = 4;

/// Events that the channel to the consumer holds at most.
pub const OUTPUT_CAPACITY: usize = 1;

/// Most files the daemon may hold open.
pub const MAX_FILES: usize = 20;

/// Most items the daemon may track at once.
pub const MAX_OPEN: usize = 99;

/// Most results the daemon returns for one query.
pub const MAX_SEARCH: usize = 20;

/// `tokio::sync::mpsc::Sender`: the sending half of a bounded channel,
/// carried through as the handle on which requests are submitted.
#[verifier::external_type_specification]
#[verifier::external_body]
#[verifier::reject_recursive_types(T)]
pub struct ExRequestSender<T>(tokio::sync::mpsc::Sender<T>);

/// `tokio::sync::oneshot::Sender`: the sending half of a one-shot channel,
/// carried through as the cancellation signal of a relay.
#[verifier::external_type_specification]
#[verifier::external_body]
#[verifier::reject_recursive_types(T)]
pub struct ExCancelSender<T>(tokio::sync::oneshot::Sender<T>);

/// `pop_launcher::Response`: one message of the daemon, carried through
/// unread.
#[verifier::external_type_specification]
#[verifier::external_body]
pub struct ExDaemonResponse(pop_launcher::Response);

/// `Clone::clone` of `tokio::sync::mpsc::Sender`: another handle on the same
/// channel. Nothing is claimed of it.
pub assume_specification<T>[ <tokio::sync::mpsc::Sender<T> as Clone>::clone ](
    sender: &tokio::sync::mpsc::Sender<T>,
) -> tokio::sync::mpsc::Sender<T>;

/// `Clone::clone` of `pop_launcher::Response`, which the crate derives.
/// Nothing is claimed of it.
pub assume_specification[ <pop_launcher::Response as Clone>::clone ](
    response: &pop_launcher::Response,
) -> pop_launcher::Response;

/// What a consumer asks of the service loop.
#[derive(Debug, Clone)]
pub enum Request {
    /// Evaluate this query.
    Search(String),
    /// The connection is known to be dead: release it, so that the next
    /// search starts a new one.
    NotifyClosed,
}

/// A request with its text as a sequence of characters.
pub enum RequestView {
    Search(Seq<char>),
    NotifyClosed,
}

impl View for Request {
    type V = RequestView;

    open spec fn view(&self) -> RequestView {
        match self {
            Request::Search(query) => RequestView::Search(query@),
            Request::NotifyClosed => RequestView::NotifyClosed,
        }
    }
}

/// What the supervisor tells its consumer.
#[derive(Debug, Clone)]
pub enum Event {
    /// A generation began; requests for it go through this handle.
    Started(tokio::sync::mpsc::Sender<Request>),
    /// One result of the daemon.
    Response(pop_launcher::Response),
    /// The active connection has ended.
    Closed,
}

/// Resource bounds the daemon is started with.
#[derive(Debug, Clone, Copy, PartialEq, Eq, Structural)]
pub struct Args {
    pub max_files: usize,
    pub max_open: usize,
    pub max_search: usize,
}

/// The bounds every daemon of this supervisor is started with.
pub open spec fn daemon_args() -> Args {
    Args { max_files: MAX_FILES, max_open: MAX_OPEN, max_search: MAX_SEARCH }
}

/// A live daemon connection with the signal that stops its relay. Dropping
/// the handle fires the signal.
pub struct ClientHandle<C> {
    pub connection: C,
    pub cancel: tokio::sync::oneshot::Sender<()>,
}

/// Why the daemon did not start.
#[derive(Debug, Clone)]
pub enum SpawnError {
    /// The executable is missing.
    NotFound,
    /// Any other failure, with the system's words.
    Other(String),
}

/// What the client manager decides before a query is forwarded.
#[derive(Debug, Clone, Copy, PartialEq, Eq, Structural)]
pub enum ClientPlan {
    /// A client is live: use it.
    Reuse,
    /// None is live: start the daemon with these bounds.
    Spawn(Args),
}

/// The plan for a slot: reuse where a client is in it, and a start with the
/// fixed bounds where it is empty.
pub open spec fn client_plan<C>(client: Option<ClientHandle<C>>) -> ClientPlan {
    if client is Some {
        ClientPlan::Reuse
    } else {
        ClientPlan::Spawn(daemon_args())
    }
}

/// First half of the client manager: a live client is reused untouched, and
/// only an empty slot asks for a start, always with the same bounds.
pub fn client_request<C>(client: &Option<ClientHandle<C>>) -> (plan: ClientPlan)
    ensures
        plan == client_plan(*client),
{
    match client {
        Some(_) => ClientPlan::Reuse,
        None => ClientPlan::Spawn(
            Args { max_files: MAX_FILES, max_open: MAX_OPEN, max_search: MAX_SEARCH },
        ),
    }
}

/// Where a service loop stands in its life.
#[derive(Debug, Clone, Copy, PartialEq, Eq, Structural)]
pub enum Phase {
    /// Created; the start event is still owed.
    Fresh,
    /// Started; requests are being served.
    Running,
    /// The request channel lost its last sender; the generation is over.
    Exited,
}

/// One generation of the service loop: its phase and the slot of its
/// client, which nothing else owns.
pub struct ServiceLoop<C> {
    pub phase: Phase,
    pub client: Option<ClientHandle<C>>,
}

/// What arrives at a service loop.
pub enum ServiceInput {
    /// The channels exist; this is the handle consumers will submit on.
    Open(tokio::sync::mpsc::Sender<Request>),
    /// The next request, in submission order.
    Request(Request),
    /// No sender of the request channel is left.
    Disconnected,
}

/// What a service loop asks its task to do next.
pub enum ServiceAction {
    /// Push this event into the event channel.
    Emit(Event),
    /// Start the daemon with these bounds, then hand the outcome and the
    /// query to [`client_spawned`].
    Spawn(Args, String),
    /// Start the relay of the client that has just been stored, bound to its
    /// connection and to the receiver of its cancellation, then send the
    /// query to the connection as a single command.
    Connect(String),
    /// Send the query to the live connection as a single command.
    Dispatch(String),
    /// Log that the daemon did not start.
    Report(String),
    /// Nothing.
    Idle,
    /// Leave the loop.
    Exit,
}

/// A service action with its texts as sequences of characters.
pub enum ServiceActionView {
    Emit(Event),
    Spawn(Args, Seq<char>),
    Connect(Seq<char>),
    Dispatch(Seq<char>),
    Report(Seq<char>),
    Idle,
    Exit,
}

impl View for ServiceAction {
    type V = ServiceActionView;

    open spec fn view(&self) -> ServiceActionView {
        match self {
            ServiceAction::Emit(event) => ServiceActionView::Emit(*event),
            ServiceAction::Spawn(args, query) => ServiceActionView::Spawn(*args, query@),
            ServiceAction::Connect(query) => ServiceActionView::Connect(query@),
            ServiceAction::Dispatch(query) => ServiceActionView::Dispatch(query@),
            ServiceAction::Report(notice) => ServiceActionView::Report(notice@),
            ServiceAction::Idle => ServiceActionView::Idle,
            ServiceAction::Exit => ServiceActionView::Exit,
        }
    }
}

/// A service input with its texts as sequences of characters.
pub enum ServiceInputView {
    Open(tokio::sync::mpsc::Sender<Request>),
    Request(RequestView),
    Disconnected,
}

impl View for ServiceInput {
    type V = ServiceInputView;

    open spec fn view(&self) -> ServiceInputView {
        match self {
            ServiceInput::Open(handle) => ServiceInputView::Open(*handle),
            ServiceInput::Request(request) => ServiceInputView::Request(request@),
            ServiceInput::Disconnected => ServiceInputView::Disconnected,
        }
    }
}

/// One turn of the service loop.
///
/// A fresh loop answers its opening with the start event and nothing else
/// moves it. A running loop forwards a search to the live client, or asks
/// for a daemon when the slot is empty; a close notice empties the slot;
/// the loss of the last sender ends the loop and releases the client. An
/// exited loop does nothing.
pub open spec fn service_turn<C>(state: ServiceLoop<C>, input: ServiceInputView) -> (
    ServiceLoop<C>,
    ServiceActionView,
) {
    match state.phase {
        Phase::Fresh => match input {
            ServiceInputView::Open(handle) => (
                ServiceLoop { phase: Phase::Running, client: None },
                ServiceActionView::Emit(Event::Started(handle)),
            ),
            _ => (state, ServiceActionView::Idle),
        },
        Phase::Running => match input {
            ServiceInputView::Open(_) => (state, ServiceActionView::Idle),
            ServiceInputView::Request(RequestView::Search(query)) => match client_plan(
                state.client,
            ) {
                ClientPlan::Reuse => (state, ServiceActionView::Dispatch(query)),
                ClientPlan::Spawn(args) => (state, ServiceActionView::Spawn(args, query)),
            },
            ServiceInputView::Request(RequestView::NotifyClosed) => (
                ServiceLoop { phase: Phase::Running, client: None },
                ServiceActionView::Idle,
            ),
            ServiceInputView::Disconnected => (
                ServiceLoop { phase: Phase::Exited, client: None },
                ServiceActionView::Exit,
            ),
        },
        Phase::Exited => (state, ServiceActionView::Idle),
    }
}

impl<C> ServiceLoop<C> {
    /// A loop that has not started, with an empty slot.
    pub fn new() -> (state: Self)
        ensures
            state == (ServiceLoop::<C> { phase: Phase::Fresh, client: None }),
    {
        ServiceLoop { phase: Phase::Fresh, client: None }
    }
}

/// One turn of the service loop: see [`service_turn`].
pub fn service<C>(state: &mut ServiceLoop<C>, input: ServiceInput) -> (action: ServiceAction)
    ensures
        (*final(state), action@) == service_turn(*old(state), input@),
{
    match state.phase {
        Phase::Fresh => match input {
            ServiceInput::Open(handle) => {
                state.phase = Phase::Running;
                state.client = None;
                ServiceAction::Emit(Event::Started(handle))
            },
            _ => ServiceAction::Idle,
        },
        Phase::Running => match input {
            ServiceInput::Open(_) => ServiceAction::Idle,
            ServiceInput::Request(Request::Search(query)) => match client_request(&state.client) {
                ClientPlan::Reuse => ServiceAction::Dispatch(query),
                ClientPlan::Spawn(args) => ServiceAction::Spawn(args, query),
            },
            ServiceInput::Request(Request::NotifyClosed) => {
                state.client = None;
                ServiceAction::Idle
            },
            ServiceInput::Disconnected => {
                state.phase = Phase::Exited;
                state.client = None;
                ServiceAction::Exit
            },
        },
        Phase::Exited => ServiceAction::Idle,
    }
}

/// The line that reports a failed start, telling a missing executable from
/// any other failure.
pub open spec fn spawn_failure_text(error: SpawnError) -> Seq<char> {
    match error {
        SpawnError::NotFound => "pop-launcher failed to start: executable not found"@,
        SpawnError::Other(why) => "pop-launcher failed to start: "@ + why@,
    }
}

/// The line that reports a failed start.
pub fn spawn_failure_notice(error: &SpawnError) -> (notice: String)
    ensures
        notice@ == spawn_failure_text(*error),
{
    match error {
        SpawnError::NotFound => String::from_str(
            "pop-launcher failed to start: executable not found",
        ),
        SpawnError::Other(why) => {
            let mut notice = String::from_str("pop-launcher failed to start: ");
            notice.append(why.as_str());
            notice
        },
    }
}

/// Second half of the client manager, over the outcome of the one start that
/// a turn may ask for.
///
/// A new client is stored only in the empty slot of a running loop; its
/// relay is then to be started and the query that waited for it sent. A
/// failed start leaves the slot empty and is reported; the query is
/// dropped. A client that arrives for an occupied slot, or for a loop that
/// is not running, is released at once, and no relay is started for it.
pub open spec fn spawn_turn<C>(
    state: ServiceLoop<C>,
    outcome: Result<ClientHandle<C>, SpawnError>,
    query: Seq<char>,
) -> (ServiceLoop<C>, ServiceActionView) {
    match outcome {
        Ok(handle) => if state.phase == Phase::Running && state.client is None {
            (
                ServiceLoop { phase: Phase::Running, client: Some(handle) },
                ServiceActionView::Connect(query),
            )
        } else {
            (state, ServiceActionView::Idle)
        },
        Err(error) => (state, ServiceActionView::Report(spawn_failure_text(error))),
    }
}

/// Second half of the client manager: see [`spawn_turn`].
pub fn client_spawned<C>(
    state: &mut ServiceLoop<C>,
    outcome: Result<ClientHandle<C>, SpawnError>,
    query: String,
) -> (action: ServiceAction)
    ensures
        (*final(state), action@) == spawn_turn(*old(state), outcome, query@),
{
    match outcome {
        Ok(handle) => {
            let vacant = match state.phase {
                Phase::Running => state.client.is_none(),
                _ => false,
            };
            if vacant {
                state.client = Some(handle);
                ServiceAction::Connect(query)
            } else {
                ServiceAction::Idle
            }
        },
        Err(error) => ServiceAction::Report(spawn_failure_notice(&error)),
    }
}

/// A response relay: the task that forwards what one connection says.
#[derive(Debug, Clone, Copy, PartialEq, Eq, Structural)]
pub struct Relay {
    /// The relay has stopped, by the end of the stream or by cancellation.
    pub finished: bool,
}

/// What a relay's race between its pump and its cancellation yields next.
pub enum RelayInput {
    /// The connection delivered a message.
    Message(pop_launcher::Response),
    /// The connection's stream ended.
    StreamEnded,
    /// The cancellation signal fired.
    Cancelled,
}

/// One turn of a relay.
///
/// While it runs, a relay turns each message into a response event, the end
/// of the stream into the one closed event, and a cancellation into
/// silence; the last two stop it. A stopped relay emits nothing.
pub open spec fn relay_turn(state: Relay, input: RelayInput) -> (Relay, Option<Event>) {
    if state.finished {
        (state, None)
    } else {
        match input {
            RelayInput::Message(payload) => (state, Some(Event::Response(payload))),
            RelayInput::StreamEnded => (Relay { finished: true }, Some(Event::Closed)),
            RelayInput::Cancelled => (Relay { finished: true }, None),
        }
    }
}

impl Relay {
    /// A relay that is pumping.
    pub fn new() -> (state: Self)
        ensures
            state == (Relay { finished: false }),
    {
        Relay { finished: false }
    }
}

/// One turn of a relay: see [`relay_turn`].
pub fn relay(state: &mut Relay, input: RelayInput) -> (emitted: Option<Event>)
    ensures
        (*final(state), emitted) == relay_turn(*old(state), input),
{
    if state.finished {
        None
    } else {
        match input {
            RelayInput::Message(payload) => Some(Event::Response(payload)),
            RelayInput::StreamEnded => {
                state.finished = true;
                Some(Event::Closed)
            },
            RelayInput::Cancelled => {
                state.finished = true;
                None
            },
        }
    }
}

/// What the subscription driver does with what a generation's stream
/// yielded.
pub enum DriverAction {
    /// Hand the event to the consumer.
    Forward(Event),
    /// Hand the event to the consumer, then end this generation and start
    /// the next.
    ForwardAndRestart(Event),
    /// The stream ended: start the next generation.
    Restart,
}

/// One turn of the subscription driver.
///
/// Every event goes to the consumer as it is. A generation is over when its
/// stream ends or when it reports that its connection closed; the next one
/// starts at once.
pub open spec fn subscription_turn(inner: Option<Event>) -> DriverAction {
    match inner {
        Some(Event::Closed) => DriverAction::ForwardAndRestart(Event::Closed),
        Some(event) => DriverAction::Forward(event),
        None => DriverAction::Restart,
    }
}

/// One turn of the subscription driver: see [`subscription_turn`].
pub fn subscription(inner: Option<Event>) -> (action: DriverAction)
    ensures
        action == subscription_turn(inner),
{
    match inner {
        Some(Event::Closed) => DriverAction::ForwardAndRestart(Event::Closed),
        Some(event) => DriverAction::Forward(event),
        None => DriverAction::Restart,
    }
}

/// The line logged when a generation starts.
pub fn starting_notice() -> (notice: &'static str)
    ensures
        notice@ == "starting pop-launcher service"@,
{
    "starting pop-launcher service"
}

/// The line logged when a relay starts.
pub fn relay_notice() -> (notice: &'static str)
    ensures
        notice@ == "starting pop-launcher instance"@,
{
    "starting pop-launcher instance"
}

} // verus!
