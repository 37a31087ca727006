//! Whole runs of a single relay and of a single service loop.

use super::{
    daemon_args, relay_turn, service_turn, spawn_turn, ClientHandle, Event, Phase, Relay,
    RelayInput, RequestView, ServiceActionView, ServiceInputView, ServiceLoop, SpawnError,
};
use vstd::prelude::*;

verus! {

/// The relay after these inputs, in order, and everything it emitted.
pub open spec fn relay_run(state: Relay, inputs: Seq<RelayInput>) -> (Relay, Seq<Event>)
    decreases inputs.len(),
{
    if inputs.len() == 0 {
        (state, Seq::empty())
    } else {
        let (before, emitted) = relay_run(state, inputs.drop_last());
        let (after, event) = relay_turn(before, inputs.last());
        (
            after,
            match event {
                Some(event) => emitted.push(event),
                None => emitted,
            },
        )
    }
}

/// The inputs that deliver these messages, one each, in order.
pub open spec fn deliveries(messages: Seq<pop_launcher::Response>) -> Seq<RelayInput> {
    Seq::new(messages.len(), |i: int| RelayInput::Message(messages[i]))
}

/// The response events of these messages, one each, in order.
pub open spec fn responses(messages: Seq<pop_launcher::Response>) -> Seq<Event> {
    Seq::new(messages.len(), |i: int| Event::Response(messages[i]))
}

/// A run over two stretches of input is the run over the second, started
/// where the first ended.
pub proof fn relay_run_in_two(state: Relay, first: Seq<RelayInput>, second: Seq<RelayInput>)
    ensures
        relay_run(state, first + second) == (
            relay_run(relay_run(state, first).0, second).0,
            relay_run(state, first).1 + relay_run(relay_run(state, first).0, second).1,
        ),
    decreases second.len(),
{
    if second.len() > 0 {
        relay_run_in_two(state, first, second.drop_last());
        assert((first + second).drop_last() =~= first + second.drop_last());
    }
}

/// A running relay forwards every message as one response event, in the
/// order in which the connection delivered them, and goes on running.
pub proof fn relay_keeps_order(messages: Seq<pop_launcher::Response>)
    ensures
        relay_run(Relay { finished: false }, deliveries(messages)) == (
            Relay { finished: false },
            responses(messages),
        ),
    decreases messages.len(),
{
    if messages.len() > 0 {
        relay_keeps_order(messages.drop_last());
        assert(deliveries(messages).drop_last() =~= deliveries(messages.drop_last()));
    }
}

/// A relay that has stopped stays stopped and emits nothing, whatever
/// arrives.
pub proof fn relay_stays_silent(inputs: Seq<RelayInput>)
    ensures
        relay_run(Relay { finished: true }, inputs) == (
            Relay { finished: true },
            Seq::<Event>::empty(),
        ),
    decreases inputs.len(),
{
    if inputs.len() > 0 {
        relay_stays_silent(inputs.drop_last());
    }
}

/// When the connection ends after these messages, the relay has emitted
/// their responses in order and then exactly one closed event, and nothing
/// that arrives afterwards adds to that.
pub proof fn relay_closes_once(messages: Seq<pop_launcher::Response>, late: Seq<RelayInput>)
    ensures
        relay_run(
            Relay { finished: false },
            deliveries(messages).push(RelayInput::StreamEnded) + late,
        ) == (Relay { finished: true }, responses(messages).push(Event::Closed)),
{
    let pumping = Relay { finished: false };
    let until_end = deliveries(messages).push(RelayInput::StreamEnded);
    relay_keeps_order(messages);
    assert(until_end.drop_last() =~= deliveries(messages));
    relay_stays_silent(late);
    relay_run_in_two(pumping, until_end, late);
}

/// When the cancellation fires after these messages, the relay has emitted
/// their responses and nothing else: no closed event, and no response to
/// anything the daemon says afterwards.
pub proof fn relay_is_cut_short(messages: Seq<pop_launcher::Response>, late: Seq<RelayInput>)
    ensures
        relay_run(
            Relay { finished: false },
            deliveries(messages).push(RelayInput::Cancelled) + late,
        ) == (Relay { finished: true }, responses(messages)),
{
    let pumping = Relay { finished: false };
    let until_cut = deliveries(messages).push(RelayInput::Cancelled);
    relay_keeps_order(messages);
    assert(until_cut.drop_last() =~= deliveries(messages));
    relay_stays_silent(late);
    relay_run_in_two(pumping, until_cut, late);
}

/// What a daemon says that answers its commands in the order in which it
/// received them: the answers to the first command, then those to the
/// second, and so on.
pub open spec fn answered(answers: Seq<Seq<pop_launcher::Response>>) -> Seq<
    pop_launcher::Response,
>
    decreases answers.len(),
{
    if answers.len() == 0 {
        Seq::empty()
    } else {
        answered(answers.drop_last()) + answers.last()
    }
}

/// Where the answer of this number to the command of this number stands in
/// what the daemon says.
pub open spec fn place(answers: Seq<Seq<pop_launcher::Response>>, command: int, answer: int) -> int {
    answered(answers.take(command)).len() + answer
}

/// The answers to a command stand where `place` says.
pub proof fn answered_at(answers: Seq<Seq<pop_launcher::Response>>, command: int, answer: int)
    requires
        0 <= command < answers.len(),
        0 <= answer < answers[command].len(),
    ensures
        0 <= place(answers, command, answer) < answered(answers).len(),
        answered(answers)[place(answers, command, answer)] == answers[command][answer],
    decreases answers.len(),
{
    if command < answers.len() - 1 {
        answered_at(answers.drop_last(), command, answer);
        assert(answers.drop_last().take(command) =~= answers.take(command));
    }
}

/// The answers to an earlier command all stand before those to a later
/// one.
pub proof fn places_ascend(answers: Seq<Seq<pop_launcher::Response>>, earlier: int, later: int)
    requires
        0 <= earlier < later <= answers.len(),
    ensures
        answered(answers.take(earlier)).len() + answers[earlier].len() <= answered(
            answers.take(later),
        ).len(),
    decreases later - earlier,
{
    assert(answers.take(later).drop_last() =~= answers.take(later - 1));
    if earlier < later - 1 {
        places_ascend(answers, earlier, later - 1);
    }
}

/// Responses reach the consumer in the order of the requests they answer:
/// where the daemon answers its commands in the order in which it received
/// them, every response to an earlier command is relayed strictly before
/// every response to a later one.
pub proof fn responses_keep_request_order(
    answers: Seq<Seq<pop_launcher::Response>>,
    earlier: int,
    first: int,
    later: int,
    second: int,
)
    requires
        0 <= earlier < later < answers.len(),
        0 <= first < answers[earlier].len(),
        0 <= second < answers[later].len(),
    ensures
        0 <= place(answers, earlier, first) < place(answers, later, second) < relay_run(
            Relay { finished: false },
            deliveries(answered(answers)),
        ).1.len(),
        relay_run(Relay { finished: false }, deliveries(answered(answers))).1[place(
            answers,
            earlier,
            first,
        )] == Event::Response(answers[earlier][first]),
        relay_run(Relay { finished: false }, deliveries(answered(answers))).1[place(
            answers,
            later,
            second,
        )] == Event::Response(answers[later][second]),
{
    relay_keeps_order(answered(answers));
    answered_at(answers, earlier, first);
    answered_at(answers, later, second);
    places_ascend(answers, earlier, later);
}

/// The service loop after this many searches in a row whose daemon failed
/// to start: each turn asks for a start, and each start ends in the given
/// failure.
pub open spec fn after_failed_searches<C>(
    state: ServiceLoop<C>,
    queries: Seq<Seq<char>>,
    failures: Seq<SpawnError>,
) -> ServiceLoop<C>
    decreases queries.len(),
{
    if queries.len() == 0 || failures.len() != queries.len() {
        state
    } else {
        let before = after_failed_searches(state, queries.drop_last(), failures.drop_last());
        let asked = service_turn(
            before,
            ServiceInputView::Request(RequestView::Search(queries.last())),
        ).0;
        spawn_turn(asked, Err(failures.last()), queries.last()).0
    }
}

/// However often the daemon failed to start, the next search asks for it
/// again, with the same bounds: the slot is as empty as before the first
/// attempt.
pub proof fn spawn_is_retried<C>(
    state: ServiceLoop<C>,
    queries: Seq<Seq<char>>,
    failures: Seq<SpawnError>,
    next: Seq<char>,
)
    requires
        state.phase == Phase::Running,
        state.client is None,
        queries.len() == failures.len(),
    ensures
        after_failed_searches(state, queries, failures) == state,
        service_turn(
            after_failed_searches(state, queries, failures),
            ServiceInputView::Request(RequestView::Search(next)),
        ) == (state, ServiceActionView::Spawn(daemon_args(), next)),
    decreases queries.len(),
{
    if queries.len() > 0 {
        spawn_is_retried(state, queries.drop_last(), failures.drop_last(), queries.last());
    }
}

/// A close notice that finds no client changes nothing and asks for
/// nothing, and a second notice after a first is such a one.
pub proof fn close_is_idempotent<C>(state: ServiceLoop<C>)
    ensures
        state.client is None ==> service_turn(
            state,
            ServiceInputView::Request(RequestView::NotifyClosed),
        ) == (state, ServiceActionView::Idle),
        service_turn(
            service_turn(state, ServiceInputView::Request(RequestView::NotifyClosed)).0,
            ServiceInputView::Request(RequestView::NotifyClosed),
        ) == (
            service_turn(state, ServiceInputView::Request(RequestView::NotifyClosed)).0,
            ServiceActionView::Idle,
        ),
{
}

/// After a close notice the slot is empty, so the next search asks for a
/// new daemon.
pub proof fn search_after_close_respawns<C>(state: ServiceLoop<C>, query: Seq<char>)
    requires
        state.phase == Phase::Running,
    ensures
        service_turn(
            service_turn(state, ServiceInputView::Request(RequestView::NotifyClosed)).0,
            ServiceInputView::Request(RequestView::Search(query)),
        ).1 == ServiceActionView::Spawn(daemon_args(), query),
{
}

/// With a client in the slot, searches are dispatched to it one by one in
/// the order of their arrival, and the slot is left as it was.
pub open spec fn after_searches<C>(state: ServiceLoop<C>, queries: Seq<Seq<char>>) -> (
    ServiceLoop<C>,
    Seq<ServiceActionView>,
)
    decreases queries.len(),
{
    if queries.len() == 0 {
        (state, Seq::empty())
    } else {
        let (before, actions) = after_searches(state, queries.drop_last());
        let (after, action) = service_turn(
            before,
            ServiceInputView::Request(RequestView::Search(queries.last())),
        );
        (after, actions.push(action))
    }
}

/// A running loop with a client dispatches every search, in order.
pub proof fn searches_are_dispatched_in_order<C>(state: ServiceLoop<C>, queries: Seq<Seq<char>>)
    requires
        state.phase == Phase::Running,
        state.client is Some,
    ensures
        after_searches(state, queries).0 == state,
        after_searches(state, queries).1 == Seq::new(
            queries.len(),
            |i: int| ServiceActionView::Dispatch(queries[i]),
        ),
    decreases queries.len(),
{
    if queries.len() > 0 {
        let shorter = queries.drop_last();
        searches_are_dispatched_in_order(state, shorter);
        assert(Seq::new(shorter.len(), |i: int| ServiceActionView::Dispatch(shorter[i])).push(
            ServiceActionView::Dispatch(queries.last()),
        ) =~= Seq::new(queries.len(), |i: int| ServiceActionView::Dispatch(queries[i])));
    }
}

} // verus!
