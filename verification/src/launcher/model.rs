//! The supervisor as one transition system, and what holds of all its runs.
//!
//! The tasks of the supervisor meet only through their channels. This module
//! puts their turn functions together with a bounded request queue and the
//! daemons' output into a single state, lets the surroundings choose any
//! interleaving of steps, and proves what no interleaving can break.

use super::{
    relay_turn, service_turn, spawn_turn, subscription_turn, ClientHandle, DriverAction, Event,
    Phase, Relay, RelayInput, Request, RequestView, ServiceActionView, ServiceInputView,
    ServiceLoop, SpawnError, REQUEST_CAPACITY,
};
use vstd::prelude::*;

verus! {

/// An event as the consumer received it, with the generation it came from.
pub struct Emitted {
    pub generation: nat,
    pub event: Event,
}

/// Everything one subscription consists of at one instant.
pub struct System<C> {
    /// Generations started so far; the live one, if any, is the last.
    pub epoch: nat,
    /// The service loop of the last generation.
    pub service: ServiceLoop<C>,
    /// Requests submitted to the last generation and not yet taken.
    pub queue: Seq<RequestView>,
    /// Every relay ever started, in the order of their start.
    pub relays: Seq<Relay>,
    /// The generation each relay was started in.
    pub relay_epoch: Seq<nat>,
    /// The relay that listens to the client in the slot.
    pub bound: Option<int>,
    /// Every event handed to the consumer, oldest first.
    pub output: Seq<Emitted>,
    /// The searches that the last generation's queue accepted, oldest first.
    pub submitted: Seq<Seq<char>>,
    /// The searches that the last generation handed to a client, oldest
    /// first.
    pub dispatched: Seq<Seq<char>>,
}

/// What may happen next.
pub enum Step<C> {
    /// The driver starts a generation, whose requests go through this
    /// handle.
    Begin(tokio::sync::mpsc::Sender<Request>),
    /// A consumer submits a request.
    Submit(RequestView),
    /// The service loop takes the oldest request. Should the turn ask for a
    /// daemon, this is how the start ends.
    Serve(Result<ClientHandle<C>, SpawnError>),
    /// The connection of this relay delivers a message, or ends.
    Daemon(int, Option<pop_launcher::Response>),
    /// The last sender of the request channel is dropped.
    Abandon,
}

impl<C> System<C> {
    /// Before the driver has started anything.
    pub open spec fn initial() -> Self {
        System {
            epoch: 0,
            service: ServiceLoop { phase: Phase::Exited, client: None },
            queue: Seq::empty(),
            relays: Seq::empty(),
            relay_epoch: Seq::empty(),
            bound: None,
            output: Seq::empty(),
            submitted: Seq::empty(),
            dispatched: Seq::empty(),
        }
    }

    /// A service loop is serving requests.
    pub open spec fn live(self) -> bool {
        self.service.phase == Phase::Running
    }

    /// The relay at this index is running.
    pub open spec fn relay_active(self, index: int) -> bool {
        0 <= index < self.relays.len() && !self.relays[index].finished
    }

    /// The relays once the client in the slot is released: its relay sees
    /// the cancellation.
    pub open spec fn relays_after_release(self) -> Seq<Relay> {
        match self.bound {
            Some(index) => self.relays.update(
                index,
                relay_turn(self.relays[index], RelayInput::Cancelled).0,
            ),
            None => self.relays,
        }
    }

    /// The end of a generation: its loop leaves, which releases the client.
    pub open spec fn torn_down(self) -> Self {
        System {
            service: service_turn(self.service, ServiceInputView::Disconnected).0,
            relays: self.relays_after_release(),
            bound: None,
            ..self
        }
    }

    /// The consumer receives an event of the live generation; the driver
    /// ends the generation where its turn says so.
    pub open spec fn delivered(self, generation: nat, event: Event) -> Self {
        match subscription_turn(Some(event)) {
            DriverAction::Forward(forwarded) => System {
                output: self.output.push(Emitted { generation, event: forwarded }),
                ..self
            },
            DriverAction::ForwardAndRestart(forwarded) => System {
                output: self.output.push(Emitted { generation, event: forwarded }),
                ..self
            }.torn_down(),
            DriverAction::Restart => self.torn_down(),
        }
    }

    /// The driver starts the next generation, unless one is live.
    pub open spec fn begun(self, handle: tokio::sync::mpsc::Sender<Request>) -> Self {
        if self.live() {
            self
        } else {
            let (service, action) = service_turn(
                ServiceLoop { phase: Phase::Fresh, client: None },
                ServiceInputView::Open(handle),
            );
            let opened = System {
                epoch: self.epoch + 1,
                service,
                queue: Seq::empty(),
                submitted: Seq::empty(),
                dispatched: Seq::empty(),
                ..self
            };
            match action {
                ServiceActionView::Emit(event) => opened.delivered(opened.epoch, event),
                _ => opened,
            }
        }
    }

    /// A request enters the queue if the generation is live and the queue
    /// has room; otherwise the sender waits, or holds a stale handle, and
    /// nothing changes.
    pub open spec fn submitted_with(self, request: RequestView) -> Self {
        if self.live() && self.queue.len() < REQUEST_CAPACITY {
            System {
                queue: self.queue.push(request),
                submitted: match request {
                    RequestView::Search(query) => self.submitted.push(query),
                    RequestView::NotifyClosed => self.submitted,
                },
                ..self
            }
        } else {
            self
        }
    }

    /// The service loop takes the oldest request and acts on it.
    pub open spec fn served(self, outcome: Result<ClientHandle<C>, SpawnError>) -> Self {
        if self.live() && self.queue.len() > 0 {
            let request = self.queue.first();
            let (service, action) = service_turn(self.service, ServiceInputView::Request(request));
            let taken = System { service, queue: self.queue.drop_first(), ..self };
            match action {
                ServiceActionView::Dispatch(query) => System {
                    dispatched: self.dispatched.push(query),
                    ..taken
                },
                ServiceActionView::Spawn(_, query) => {
                    let (service, action) = spawn_turn(taken.service, outcome, query);
                    match action {
                        ServiceActionView::Connect(query) => System {
                            service,
                            relays: self.relays.push(Relay { finished: false }),
                            relay_epoch: self.relay_epoch.push(self.epoch),
                            bound: Some(self.relays.len() as int),
                            dispatched: self.dispatched.push(query),
                            ..taken
                        },
                        _ => System { service, ..taken },
                    }
                },
                _ => System { relays: self.relays_after_release(), bound: None, ..taken },
            }
        } else {
            self
        }
    }

    /// A relay reads from its connection and passes on what its turn emits.
    pub open spec fn heard(self, index: int, message: Option<pop_launcher::Response>) -> Self {
        if 0 <= index < self.relays.len() && index < self.relay_epoch.len() {
            let input = match message {
                Some(payload) => RelayInput::Message(payload),
                None => RelayInput::StreamEnded,
            };
            let (relay, emitted) = relay_turn(self.relays[index], input);
            let read = System { relays: self.relays.update(index, relay), ..self };
            match emitted {
                Some(event) => read.delivered(self.relay_epoch[index], event),
                None => read,
            }
        } else {
            self
        }
    }

    /// The request channel loses its last sender: the loop leaves, its
    /// stream ends, and the driver's turn on the end of a stream applies.
    pub open spec fn abandoned(self) -> Self {
        if self.live() {
            match subscription_turn(None) {
                DriverAction::Restart => self.torn_down(),
                _ => self,
            }
        } else {
            self
        }
    }

    /// The state after one step.
    pub open spec fn step(self, step: Step<C>) -> Self {
        match step {
            Step::Begin(handle) => self.begun(handle),
            Step::Submit(request) => self.submitted_with(request),
            Step::Serve(outcome) => self.served(outcome),
            Step::Daemon(index, message) => self.heard(index, message),
            Step::Abandon => self.abandoned(),
        }
    }

    /// The state after these steps, in order.
    pub open spec fn run(self, steps: Seq<Step<C>>) -> Self
        decreases steps.len(),
    {
        if steps.len() == 0 {
            self
        } else {
            self.run(steps.drop_last()).step(steps.last())
        }
    }

    /// The slot, the relays and the queue fit together: the queue is within
    /// its capacity, a client is in the slot exactly when a relay is bound
    /// to it, the bound relay runs and belongs to the live generation, and
    /// no other relay runs.
    pub open spec fn coherent(self) -> bool {
        &&& self.relays.len() == self.relay_epoch.len()
        &&& self.queue.len() <= REQUEST_CAPACITY
        &&& self.service.phase != Phase::Fresh
        &&& (self.service.client is Some) == (self.bound is Some)
        &&& (self.bound matches Some(index) ==> self.relay_active(index) && self.live()
            && self.relay_epoch[index] == self.epoch)
        &&& forall|index: int| #[trigger]
            self.relay_active(index) ==> self.bound == Some(index)
        &&& self.live() ==> self.output.len() > 0 && self.output.last().generation == self.epoch
    }

    /// The consumer's events are well ordered, and a generation that
    /// reported its connection closed is over.
    pub open spec fn orderly(self) -> bool {
        &&& tagged_within(self.output, self.epoch)
        &&& generations_ascend(self.output)
        &&& generations_open_with_start(self.output)
        &&& closed_comes_last(self.output)
        &&& self.live() ==> closed_before(self.output, self.epoch)
    }

    /// What every reachable state satisfies.
    pub open spec fn sound(self) -> bool {
        self.coherent() && self.orderly()
    }

    /// The searches still waiting in the queue, oldest first.
    pub open spec fn waiting(self) -> Seq<Seq<char>> {
        searches(self.queue)
    }

    /// No search was lost: those handed to a client, followed by those
    /// still waiting, are the accepted ones in the order of their
    /// submission.
    pub open spec fn faithful(self) -> bool {
        self.dispatched + self.waiting() == self.submitted
    }
}

/// Every event carries the number of a generation that has started.
pub open spec fn tagged_within(output: Seq<Emitted>, epoch: nat) -> bool {
    forall|k: int| 0 <= k < output.len() ==> 1 <= (#[trigger] output[k]).generation <= epoch
}

/// No event of a generation comes after an event of a later one.
pub open spec fn generations_ascend(output: Seq<Emitted>) -> bool {
    forall|j: int, k: int|
        0 <= j <= k < output.len() ==> (#[trigger] output[j]).generation <= (
        #[trigger] output[k]).generation
}

/// The event at this place is the first of its generation.
pub open spec fn opens_generation(output: Seq<Emitted>, k: int) -> bool {
    k == 0 || output[k - 1].generation < output[k].generation
}

/// The first event of each generation is its start event, and no other
/// event of it is.
pub open spec fn generations_open_with_start(output: Seq<Emitted>) -> bool {
    forall|k: int|
        0 <= k < output.len() ==> (output[k].event is Started <==> #[trigger] opens_generation(
            output,
            k,
        ))
}

/// Whatever follows a closed event belongs to a later generation.
pub open spec fn closed_comes_last(output: Seq<Emitted>) -> bool {
    forall|j: int, k: int|
        0 <= j < k < output.len() && (#[trigger] output[j]).event is Closed ==> output[j].generation
            < (#[trigger] output[k]).generation
}

/// Every closed event belongs to a generation before this one.
pub open spec fn closed_before(output: Seq<Emitted>, epoch: nat) -> bool {
    forall|k: int|
        0 <= k < output.len() && (#[trigger] output[k]).event is Closed ==> output[k].generation
            < epoch
}

/// The queries of the searches among these requests, in order.
pub open spec fn searches(requests: Seq<RequestView>) -> Seq<Seq<char>>
    decreases requests.len(),
{
    if requests.len() == 0 {
        Seq::empty()
    } else {
        match requests.last() {
            RequestView::Search(query) => searches(requests.drop_last()).push(query),
            RequestView::NotifyClosed => searches(requests.drop_last()),
        }
    }
}

/// A step that costs a search: a start of the daemon fails while the oldest
/// request is a search and the slot is empty.
pub open spec fn loses_search<C>(state: System<C>, step: Step<C>) -> bool {
    &&& step matches Step::Serve(Err(_))
    &&& state.live()
    &&& state.queue.len() > 0
    &&& state.queue.first() is Search
    &&& state.service.client is None
}

/// Taking the oldest request off a queue takes its query off the searches,
/// if it is a search, and leaves them as they are otherwise.
pub proof fn searches_without_first(requests: Seq<RequestView>)
    requires
        requests.len() > 0,
    ensures
        searches(requests) == (match requests.first() {
            RequestView::Search(query) => seq![query] + searches(requests.drop_first()),
            RequestView::NotifyClosed => searches(requests.drop_first()),
        }),
    decreases requests.len(),
{
    if requests.len() == 1 {
        assert(requests.drop_last() =~= Seq::empty());
        assert(requests.drop_first() =~= Seq::empty());
    } else {
        searches_without_first(requests.drop_last());
        assert(requests.drop_last().drop_first() =~= requests.drop_first().drop_last());
    }
}

/// Nothing has happened yet, and nothing is wrong.
pub proof fn initial_is_sound<C>()
    ensures
        System::<C>::initial().sound(),
        System::<C>::initial().faithful(),
{
}

/// An event of the running generation, which is not its start event, may
/// follow what the consumer has, and the order stays.
proof fn output_accepts_event(output: Seq<Emitted>, epoch: nat, event: Event)
    requires
        tagged_within(output, epoch),
        generations_ascend(output),
        generations_open_with_start(output),
        closed_comes_last(output),
        closed_before(output, epoch),
        output.len() > 0,
        output.last().generation == epoch,
        !(event is Started),
    ensures
        tagged_within(output.push(Emitted { generation: epoch, event }), epoch),
        generations_ascend(output.push(Emitted { generation: epoch, event })),
        generations_open_with_start(output.push(Emitted { generation: epoch, event })),
        closed_comes_last(output.push(Emitted { generation: epoch, event })),
        !(event is Closed) ==> closed_before(
            output.push(Emitted { generation: epoch, event }),
            epoch,
        ),
{
    let pushed = output.push(Emitted { generation: epoch, event });
    assert forall|k: int| 0 <= k < pushed.len() implies (pushed[k].event is Started
        <==> #[trigger] opens_generation(pushed, k)) by {
        if k < output.len() {
            assert(opens_generation(output, k) == opens_generation(pushed, k));
        }
    }
}

/// The start event of a new generation may follow what the consumer has,
/// and the order stays.
proof fn output_accepts_start(output: Seq<Emitted>, epoch: nat, event: Event)
    requires
        tagged_within(output, epoch),
        generations_ascend(output),
        generations_open_with_start(output),
        closed_comes_last(output),
        event is Started,
    ensures
        tagged_within(output.push(Emitted { generation: epoch + 1, event }), epoch + 1),
        generations_ascend(output.push(Emitted { generation: epoch + 1, event })),
        generations_open_with_start(output.push(Emitted { generation: epoch + 1, event })),
        closed_comes_last(output.push(Emitted { generation: epoch + 1, event })),
        closed_before(output.push(Emitted { generation: epoch + 1, event }), epoch + 1),
{
    let pushed = output.push(Emitted { generation: epoch + 1, event });
    assert forall|k: int| 0 <= k < pushed.len() implies (pushed[k].event is Started
        <==> #[trigger] opens_generation(pushed, k)) by {
        if k < output.len() {
            assert(opens_generation(output, k) == opens_generation(pushed, k));
        }
    }
}

proof fn torn_down_keeps_sound<C>(state: System<C>)
    requires
        state.sound(),
    ensures
        state.torn_down().sound(),
        !state.torn_down().live(),
{
    let next = state.torn_down();
    assert forall|index: int| #[trigger] next.relay_active(index) implies next.bound == Some(
        index,
    ) by {
        assert(state.relay_active(index));
    }
}

proof fn begun_keeps_sound<C>(state: System<C>, handle: tokio::sync::mpsc::Sender<Request>)
    requires
        state.sound(),
    ensures
        state.begun(handle).sound(),
{
    if !state.live() {
        let next = state.begun(handle);
        output_accepts_start(state.output, state.epoch, Event::Started(handle));
        assert forall|index: int| #[trigger] next.relay_active(index) implies next.bound == Some(
            index,
        ) by {
            assert(state.relay_active(index));
        }
    }
}

proof fn submitted_keeps_sound<C>(state: System<C>, request: RequestView)
    requires
        state.sound(),
    ensures
        state.submitted_with(request).sound(),
{
    let next = state.submitted_with(request);
    assert forall|index: int| #[trigger] next.relay_active(index) implies next.bound == Some(
        index,
    ) by {
        assert(state.relay_active(index));
    }
}

proof fn served_keeps_sound<C>(state: System<C>, outcome: Result<ClientHandle<C>, SpawnError>)
    requires
        state.sound(),
    ensures
        state.served(outcome).sound(),
{
    let next = state.served(outcome);
    if state.live() && state.queue.len() > 0 {
        assert forall|index: int| #[trigger] next.relay_active(index) implies next.bound == Some(
            index,
        ) by {
            if index < state.relays.len() {
                assert(state.relay_active(index));
            }
        }
    }
}

proof fn heard_keeps_sound<C>(
    state: System<C>,
    index: int,
    message: Option<pop_launcher::Response>,
)
    requires
        state.sound(),
    ensures
        state.heard(index, message).sound(),
{
    let next = state.heard(index, message);
    if 0 <= index < state.relays.len() {
        if state.relays[index].finished {
            assert(next.relays =~= state.relays);
        } else {
            assert(state.relay_active(index));
            match message {
                Some(payload) => {
                    output_accepts_event(state.output, state.epoch, Event::Response(payload));
                    assert forall|other: int| #[trigger] next.relay_active(other) implies next.bound
                        == Some(other) by {
                        assert(state.relay_active(other));
                    }
                },
                None => {
                    output_accepts_event(state.output, state.epoch, Event::Closed);
                    assert forall|other: int| #[trigger] next.relay_active(other) implies next.bound
                        == Some(other) by {
                        if other != index {
                            assert(state.relay_active(other));
                        }
                    }
                },
            }
        }
    }
}

/// No step leads out of the sound states.
pub proof fn step_keeps_sound<C>(state: System<C>, step: Step<C>)
    requires
        state.sound(),
    ensures
        state.step(step).sound(),
{
    match step {
        Step::Begin(handle) => begun_keeps_sound(state, handle),
        Step::Submit(request) => submitted_keeps_sound(state, request),
        Step::Serve(outcome) => served_keeps_sound(state, outcome),
        Step::Daemon(index, message) => heard_keeps_sound(state, index, message),
        Step::Abandon => torn_down_keeps_sound(state),
    }
}

/// Every state that a run reaches from a sound one is sound.
pub proof fn run_keeps_sound<C>(state: System<C>, steps: Seq<Step<C>>)
    requires
        state.sound(),
    ensures
        state.run(steps).sound(),
    decreases steps.len(),
{
    if steps.len() > 0 {
        run_keeps_sound(state, steps.drop_last());
        step_keeps_sound(state.run(steps.drop_last()), steps.last());
    }
}

/// At any instant at most one relay runs, and a running relay listens to
/// the client of the one live generation. A generation is started only
/// when none is live, so at most one service loop runs as well.
pub proof fn single_generation<C>(steps: Seq<Step<C>>, first: int, second: int)
    requires
        System::<C>::initial().run(steps).relay_active(first),
        System::<C>::initial().run(steps).relay_active(second),
    ensures
        first == second,
        System::<C>::initial().run(steps).live(),
        System::<C>::initial().run(steps).service.client is Some,
        System::<C>::initial().run(steps).relay_epoch[first] == System::<C>::initial().run(
            steps,
        ).epoch,
        forall|handle: tokio::sync::mpsc::Sender<Request>|
            System::<C>::initial().run(steps).begun(handle) == System::<C>::initial().run(steps),
{
    initial_is_sound::<C>();
    run_keeps_sound(System::<C>::initial(), steps);
}

/// The generations do not overlap in what the consumer receives: once an
/// event of a generation has arrived, none of an earlier generation
/// follows.
pub proof fn generations_do_not_overlap<C>(steps: Seq<Step<C>>, earlier: int, later: int)
    requires
        0 <= earlier <= later < System::<C>::initial().run(steps).output.len(),
    ensures
        System::<C>::initial().run(steps).output[earlier].generation <= System::<C>::initial().run(
            steps,
        ).output[later].generation,
{
    initial_is_sound::<C>();
    run_keeps_sound(System::<C>::initial(), steps);
}

/// Each generation opens with its start event and has no second one.
pub proof fn started_once_and_first<C>(steps: Seq<Step<C>>, place: int)
    requires
        0 <= place < System::<C>::initial().run(steps).output.len(),
    ensures
        System::<C>::initial().run(steps).output[place].event is Started <==> opens_generation(
            System::<C>::initial().run(steps).output,
            place,
        ),
{
    initial_is_sound::<C>();
    run_keeps_sound(System::<C>::initial(), steps);
}

/// Once a generation has reported its connection closed, the consumer
/// receives nothing more of that generation: no response, and no second
/// closed event.
pub proof fn closed_ends_generation<C>(steps: Seq<Step<C>>, closed: int, later: int)
    requires
        0 <= closed < later < System::<C>::initial().run(steps).output.len(),
        System::<C>::initial().run(steps).output[closed].event is Closed,
    ensures
        System::<C>::initial().run(steps).output[closed].generation < System::<C>::initial().run(
            steps,
        ).output[later].generation,
{
    initial_is_sound::<C>();
    run_keeps_sound(System::<C>::initial(), steps);
}

/// A step keeps the account of the searches, unless it is one that costs a
/// search.
pub proof fn step_keeps_faithful<C>(state: System<C>, step: Step<C>)
    requires
        state.faithful(),
        !loses_search(state, step),
    ensures
        state.step(step).faithful(),
{
    let next = state.step(step);
    match step {
        Step::Submit(request) => {
            if state.live() && state.queue.len() < REQUEST_CAPACITY {
                assert(next.queue.drop_last() =~= state.queue);
            }
        },
        Step::Serve(outcome) => {
            if state.live() && state.queue.len() > 0 {
                searches_without_first(state.queue);
                match state.queue.first() {
                    RequestView::Search(query) => {
                        assert(next.dispatched + next.waiting() =~= state.dispatched + (seq![query]
                            + searches(state.queue.drop_first())));
                    },
                    RequestView::NotifyClosed => {},
                }
            }
        },
        _ => {},
    }
}

/// While the client is to be had, no search is lost, whatever the
/// interleaving and however often the full queue made a sender wait: the
/// searches handed to a client, followed by those still waiting, are the
/// accepted ones in the order of their submission. Once the queue is
/// drained, every accepted search has been dispatched, in that order.
pub proof fn no_search_is_lost<C>(state: System<C>, steps: Seq<Step<C>>)
    requires
        state.faithful(),
        forall|k: int|
            0 <= k < steps.len() ==> !loses_search(state.run(steps.take(k)), #[trigger] steps[k]),
    ensures
        state.run(steps).faithful(),
        state.run(steps).queue.len() == 0 ==> state.run(steps).dispatched == state.run(
            steps,
        ).submitted,
    decreases steps.len(),
{
    if steps.len() > 0 {
        let before = steps.drop_last();
        assert forall|k: int| 0 <= k < before.len() implies !loses_search(
            state.run(before.take(k)),
            #[trigger] before[k],
        ) by {
            assert(before.take(k) =~= steps.take(k));
        }
        no_search_is_lost(state, before);
        assert(steps.take(steps.len() - 1) =~= before);
        step_keeps_faithful(state.run(before), steps.last());
    }
}

/// A live service loop always takes the oldest request: a queue of so many
/// requests is drained by as many turns.
pub proof fn serve_takes_oldest<C>(state: System<C>, outcome: Result<ClientHandle<C>, SpawnError>)
    requires
        state.live(),
        state.queue.len() > 0,
    ensures
        state.served(outcome).queue == state.queue.drop_first(),
        state.served(outcome).live(),
{
}

/// The steps in which the service loop takes one request after the other,
/// each start of the daemon ending as given.
pub open spec fn serving<C>(outcomes: Seq<Result<ClientHandle<C>, SpawnError>>) -> Seq<Step<C>> {
    Seq::new(outcomes.len(), |i: int| Step::Serve(outcomes[i]))
}

/// After as many turns of the service loop as requests wait, with every
/// start of the daemon succeeding, the queue is empty and every search that
/// waited has been dispatched, in the order of the queue.
pub proof fn waiting_searches_are_dispatched<C>(
    state: System<C>,
    outcomes: Seq<Result<ClientHandle<C>, SpawnError>>,
)
    requires
        state.live(),
        outcomes.len() <= state.queue.len(),
        forall|i: int| 0 <= i < outcomes.len() ==> (#[trigger] outcomes[i]) is Ok,
    ensures
        state.run(serving(outcomes)).live(),
        state.run(serving(outcomes)).queue == state.queue.skip(outcomes.len() as int),
        state.run(serving(outcomes)).dispatched == state.dispatched + searches(
            state.queue.take(outcomes.len() as int),
        ),
        state.run(serving(outcomes)).submitted == state.submitted,
    decreases outcomes.len(),
{
    if outcomes.len() > 0 {
        let count = outcomes.len() as int;
        let before = outcomes.drop_last();
        waiting_searches_are_dispatched(state, before);
        assert(serving(outcomes).drop_last() =~= serving(before));
        assert(state.queue.take(count).drop_last() =~= state.queue.take(count - 1));
    }
}

/// A close notice that finds no client has no effect beyond leaving the
/// queue: no event, no relay started or stopped, nothing dispatched.
pub proof fn idle_close_changes_nothing<C>(
    state: System<C>,
    outcome: Result<ClientHandle<C>, SpawnError>,
)
    requires
        state.sound(),
        state.live(),
        state.queue.len() > 0,
        state.queue.first() is NotifyClosed,
        state.service.client is None,
    ensures
        state.served(outcome) == (System { queue: state.queue.drop_first(), ..state }),
{
}

/// A search whose daemon fails to start has no effect beyond leaving the
/// queue: the consumer receives nothing for it, and the slot stays empty
/// for the next search to try again.
pub proof fn failed_start_emits_nothing<C>(state: System<C>, error: SpawnError)
    requires
        loses_search(state, Step::Serve(Err(error))),
    ensures
        state.served(Err(error)) == (System { queue: state.queue.drop_first(), ..state }),
{
}

} // verus!
