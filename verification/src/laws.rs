//! What holds of every consumer, proved from the state machine.
//!
//! The executable consumer takes exactly the steps of [`crate::model::step`],
//! so whatever is proved here of steps and of runs holds of every sequence
//! of calls of `handle_message`.

use crate::action::ActionView;
use crate::messages::{
    PayloadView, RequestView, ResponseView, RoutedView, StreamMessageView, StreamWorkerCmd,
};
use crate::model::{
    accepts, checkpoint, deliveries, delivery, initial, offset_after, on_initialize, routing, run,
    step, ConsumerView, Handshake, Outcome, PULL_BATCH_SIZE,
};
use crate::parser::{lemma_first_claimant, HandlerKind};
use crate::routing::{decoded_envelope, Envelope, Hop};
use vstd::prelude::*;

verus! {

/// The action is a pull request to the stream service.
pub open spec fn is_pull_request(action: ActionView) -> bool {
    action matches ActionView::Send { request, .. } && request is Pull
}

/// The action is a get-offset request to the index service.
pub open spec fn is_offset_query(action: ActionView) -> bool {
    action matches ActionView::Send { request, .. } && request is IndexGet
}

/// The action is a save-offset request to the index service.
pub open spec fn is_checkpoint(action: ActionView) -> bool {
    action matches ActionView::Send { request, .. } && request is IndexSave
}

/// The action arms the fetch timer.
pub open spec fn is_timer(action: ActionView) -> bool {
    action is Schedule
}

/// One of the actions is a pull request.
pub open spec fn sends_pull_request(actions: Seq<ActionView>) -> bool {
    exists|n: int| 0 <= n < actions.len() && is_pull_request(#[trigger] actions[n])
}

/// One of the actions is a get-offset request.
pub open spec fn sends_offset_query(actions: Seq<ActionView>) -> bool {
    exists|n: int| 0 <= n < actions.len() && is_offset_query(#[trigger] actions[n])
}

/// One of the actions is a save-offset request.
pub open spec fn sends_checkpoint(actions: Seq<ActionView>) -> bool {
    exists|n: int| 0 <= n < actions.len() && is_checkpoint(#[trigger] actions[n])
}

/// One of the actions arms the fetch timer.
pub open spec fn arms_timer(actions: Seq<ActionView>) -> bool {
    exists|n: int| 0 <= n < actions.len() && is_timer(#[trigger] actions[n])
}

/// The body is an init response.
pub open spec fn is_init(body: PayloadView) -> bool {
    body matches PayloadView::Response(r) && r is Init
}

/// The body is an index response.
pub open spec fn is_index(body: PayloadView) -> bool {
    body matches PayloadView::Response(r) && r is Index
}

/// The body is a fetch command.
pub open spec fn is_fetch(body: PayloadView) -> bool {
    body == PayloadView::Command(StreamWorkerCmd::Fetch)
}

/// The batch that a body carries, if the body is a pull response.
pub open spec fn batch_of(body: PayloadView) -> Option<Seq<StreamMessageView>> {
    match body {
        PayloadView::Response(ResponseView::PullResponse { messages, .. }) => Some(messages),
        _ => None,
    }
}

/// Dispatch. A consumer that has been initialised handles exactly the
/// messages of its protocol: init, index and pull responses and the fetch
/// command. Every other message is left unhandled, changes nothing and asks
/// for nothing.
pub proof fn law_initialized_consumer_handles_its_protocol(c: ConsumerView, e: RoutedView)
    ensures
        step(on_initialize(c).state, e).handled <==> is_init(e.body) || is_index(e.body)
            || batch_of(e.body) is Some || is_fetch(e.body),
        !step(on_initialize(c).state, e).handled ==> step(on_initialize(c).state, e).state
            == on_initialize(c).state && step(on_initialize(c).state, e).actions
            == Seq::<ActionView>::empty(),
{
    let handlers = on_initialize(c).state.handlers;
    lemma_first_claimant(handlers, e.body);
    assert(handlers[handlers.len() - 2] == HandlerKind::Response);
    assert(handlers[handlers.len() - 1] == HandlerKind::Command);
}

/// The offsets of a batch never go down from one message to the next.
pub open spec fn ascending(messages: Seq<StreamMessageView>) -> bool {
    forall|i: int, j: int|
        0 <= i <= j < messages.len() ==> (#[trigger] messages[i]).index <= (
        #[trigger] messages[j]).index
}

/// The largest offset of a batch; 0 for the empty batch.
pub open spec fn highest_index(messages: Seq<StreamMessageView>) -> u64
    decreases messages.len(),
{
    if messages.len() == 0 {
        0
    } else {
        let earlier = highest_index(messages.drop_last());
        if messages.last().index >= earlier {
            messages.last().index
        } else {
            earlier
        }
    }
}

/// `highest_index` is an offset of the batch and no offset of the batch is
/// larger.
pub proof fn lemma_highest_index(messages: Seq<StreamMessageView>)
    ensures
        forall|i: int|
            0 <= i < messages.len() ==> (#[trigger] messages[i]).index <= highest_index(messages),
        messages.len() > 0 ==> exists|i: int|
            0 <= i < messages.len() && (#[trigger] messages[i]).index == highest_index(messages),
    decreases messages.len(),
{
    if messages.len() > 0 {
        let earlier = messages.drop_last();
        lemma_highest_index(earlier);
        assert forall|i: int| 0 <= i < messages.len() implies (#[trigger] messages[i]).index
            <= highest_index(messages) by {
            if i < earlier.len() {
                assert(earlier[i] == messages[i]);
            }
        }
        if messages.last().index >= highest_index(earlier) {
            assert(messages[messages.len() - 1].index == highest_index(messages));
        } else {
            let i = choose|i: int|
                0 <= i < earlier.len() && (#[trigger] earlier[i]).index == highest_index(earlier);
            assert(messages[i] == earlier[i]);
        }
    }
}

/// Offset monotonicity. In any state, a handled pull response whose
/// messages come in ascending offset order leaves the consumer's offset at
/// one past the largest offset of the batch; an empty batch leaves the
/// offset where it was.
pub proof fn law_offset_follows_batch(c: ConsumerView, e: RoutedView)
    requires
        accepts(c, e),
        step(c, e).handled,
        batch_of(e.body) is Some,
        ascending(batch_of(e.body)->0),
    ensures
        batch_of(e.body)->0.len() > 0 ==> step(c, e).state.last_index == highest_index(
            batch_of(e.body)->0,
        ) + 1,
        batch_of(e.body)->0.len() == 0 ==> step(c, e).state.last_index == c.last_index,
{
    let messages = batch_of(e.body)->0;
    lemma_highest_index(messages);
    if messages.len() > 0 {
        let i = choose|i: int|
            0 <= i < messages.len() && (#[trigger] messages[i]).index == highest_index(messages);
        assert(messages[i].index <= messages[messages.len() - 1].index);
    }
}

/// The offset never goes back but for two causes. A step lowers it only
/// if it is the index response that completes the handshake and reports a
/// smaller offset than the consumer holds, or a pull response whose last
/// message lies before the offset that the consumer holds.
pub proof fn law_offset_never_decreases(c: ConsumerView, e: RoutedView)
    requires
        accepts(c, e),
        step(c, e).state.last_index < c.last_index,
    ensures
        step(c, e).handled,
        (is_index(e.body) && c.handshake is AwaitingIndex) || (batch_of(e.body) matches Some(
            messages,
        ) && messages.len() > 0 && messages.last().index + 1 < c.last_index),
{
}

/// With every message of a batch at or after the offset that was asked
/// for, a pull response leaves the offset at least where it was.
pub proof fn law_offset_grows_with_answers(c: ConsumerView, e: RoutedView)
    requires
        accepts(c, e),
        batch_of(e.body) matches Some(messages) && forall|i: int|
            0 <= i < messages.len() ==> (#[trigger] messages[i]).index >= c.last_index,
    ensures
        step(c, e).state.last_index >= c.last_index,
{
    let messages = batch_of(e.body)->0;
    if messages.len() > 0 {
        assert(messages[messages.len() - 1].index >= c.last_index);
    }
}

/// The offset after a run of pull responses: one past the last message of
/// the last batch that is not empty, or the offset at the start if there is
/// no such batch.
pub open spec fn offset_after_batches(start: u64, batches: Seq<Seq<StreamMessageView>>) -> int
    decreases batches.len(),
{
    if batches.len() == 0 {
        start as int
    } else if batches.last().len() > 0 {
        batches.last().last().index + 1
    } else {
        offset_after_batches(start, batches.drop_last())
    }
}

/// Every message of the run is one that a step can be taken on, in the
/// state in which it arrives.
pub open spec fn run_accepts(c: ConsumerView, events: Seq<RoutedView>) -> bool {
    forall|k: int|
        0 <= k < events.len() ==> accepts(state_before(c, events, k), #[trigger] events[k])
}

/// The state in which the `k`-th message of a run arrives.
pub open spec fn state_before(c: ConsumerView, events: Seq<RoutedView>, k: int) -> ConsumerView {
    run(c, events.take(k))
}

/// What the `k`-th step of a run yields.
pub open spec fn outcome_at(c: ConsumerView, events: Seq<RoutedView>, k: int) -> Outcome {
    step(state_before(c, events, k), events[k])
}

/// The state after `k + 1` messages is the state that the `k`-th step
/// yields.
pub proof fn lemma_run_unfolds(c: ConsumerView, events: Seq<RoutedView>, k: int)
    requires
        0 <= k < events.len(),
    ensures
        state_before(c, events, k + 1) == outcome_at(c, events, k).state,
        state_before(c, events, 0) == c,
        state_before(c, events, events.len() as int) == run(c, events),
{
    assert(events.take(k + 1).drop_last() == events.take(k));
    assert(events.take(k + 1).last() == events[k]);
    assert(events.take(events.len() as int) == events);
}

/// Offset monotonicity over a whole run. After any sequence of handled pull
/// responses, the offset is one past the last message of the last batch
/// that held any, and the starting offset if every batch was empty.
pub proof fn law_offset_follows_batches(c: ConsumerView, events: Seq<RoutedView>)
    requires
        run_accepts(c, events),
        forall|k: int|
            0 <= k < events.len() ==> batch_of((#[trigger] events[k]).body) is Some && outcome_at(
                c,
                events,
                k,
            ).handled,
    ensures
        run(c, events).last_index == offset_after_batches(
            c.last_index,
            Seq::new(events.len(), |k: int| batch_of(events[k].body)->0),
        ),
    decreases events.len(),
{
    let batches = Seq::new(events.len(), |k: int| batch_of(events[k].body)->0);
    if events.len() > 0 {
        let earlier = events.drop_last();
        let last = events.len() - 1;
        assert forall|k: int| 0 <= k < earlier.len() implies accepts(
            state_before(c, earlier, k),
            #[trigger] earlier[k],
        ) && batch_of(earlier[k].body) is Some && outcome_at(c, earlier, k).handled by {
            assert(earlier.take(k) == events.take(k));
            assert(earlier[k] == events[k]);
            assert(accepts(state_before(c, events, k), events[k]));
            assert(outcome_at(c, events, k).handled);
        }
        law_offset_follows_batches(c, earlier);
        assert(Seq::new(earlier.len(), |k: int| batch_of(earlier[k].body)->0)
            == batches.drop_last());
        assert(events.take(last) == earlier);
        assert(accepts(state_before(c, events, last), events[last]));
        assert(outcome_at(c, events, last).handled);
        assert(batches.last() == batch_of(events.last().body)->0);
    }
}

/// A batch's deliveries are deliveries: none of them is a request to a
/// service and none arms the timer.
pub proof fn lemma_deliveries_deliver(
    messages: Seq<StreamMessageView>,
    producer: Option<Hop>,
    receiver: Hop,
)
    ensures
        forall|n: int|
            0 <= n < deliveries(messages, producer, receiver).len() ==> {
                let action = #[trigger] deliveries(messages, producer, receiver)[n];
                action is Forward || action is Deliver
            },
    decreases messages.len(),
{
    if messages.len() > 0 {
        lemma_deliveries_deliver(messages.drop_last(), producer, receiver);
    }
}

/// Checkpoint triggering. A step sends a save-offset request exactly if it
/// handles a pull response that changes the offset of a consumer whose
/// stream has a name. The request is then the last action of the step,
/// goes to the index service, and carries the stream's name, the client's
/// identity and the new offset. No step sends more than one.
pub proof fn law_checkpoint_iff_offset_moved(c: ConsumerView, e: RoutedView)
    requires
        accepts(c, e),
    ensures
        sends_checkpoint(step(c, e).actions) <==> step(c, e).handled && batch_of(e.body) is Some
            && step(c, e).state.last_index != c.last_index && c.stream is Some,
        sends_checkpoint(step(c, e).actions) ==> step(c, e).actions.last() == (ActionView::Send {
            to: c.index_peer,
            request: RequestView::IndexSave {
                stream_name: c.stream->0,
                client_id: c.client_id,
                index: step(c, e).state.last_index,
            },
        }),
        forall|n: int|
            0 <= n < step(c, e).actions.len() - 1 ==> !is_checkpoint(
                #[trigger] step(c, e).actions[n],
            ),
{
    let o = step(c, e);
    if o.handled && batch_of(e.body) is Some {
        let messages = batch_of(e.body)->0;
        let routed = deliveries(messages, c.producer, c.receiver);
        let saved = checkpoint(c, o.state.last_index);
        lemma_deliveries_deliver(messages, c.producer, c.receiver);
        assert(o.actions == routed + saved);
        assert forall|n: int| 0 <= n < routed.len() implies !is_checkpoint(
            #[trigger] o.actions[n],
        ) by {
            assert(o.actions[n] == routed[n]);
        }
        if o.state.last_index != c.last_index && c.stream is Some {
            assert(saved.len() == 1);
            assert(o.actions[routed.len() as int] == saved[0]);
            assert(is_checkpoint(o.actions[routed.len() as int]));
        }
    }
}

/// The stream has a name exactly once the init response has been
/// processed.
pub open spec fn named_by_init(c: ConsumerView) -> bool {
    c.stream is Some <==> !(c.handshake is AwaitingInit)
}

/// The stream is named by the handshake and by nothing else: a consumer
/// as constructed has no name and awaits the init response, and every step
/// keeps name and handshake in line. Past the init response, then, every
/// pull response that changes the offset has it saved.
pub proof fn law_stream_is_named_by_init(c: ConsumerView, events: Seq<RoutedView>)
    requires
        named_by_init(c),
    ensures
        named_by_init(run(c, events)),
    decreases events.len(),
{
    if events.len() > 0 {
        law_stream_is_named_by_init(c, events.drop_last());
    }
}

/// The payload of the message decodes to an envelope.
pub open spec fn decodable(message: StreamMessageView) -> bool {
    decoded_envelope(message.data) is Some
}

/// The delivery of a message that is known to be decodable.
pub open spec fn routed(producer: Option<Hop>, receiver: Hop) -> spec_fn(
    StreamMessageView,
) -> ActionView {
    |message: StreamMessageView| routing(producer, receiver)(message)->0
}

/// Decode resilience. Whatever a batch holds, its deliveries are those of
/// its decodable messages, one each and in batch order: a message that
/// cannot be decoded costs its own delivery and no other.
pub proof fn law_decodable_messages_are_routed(
    messages: Seq<StreamMessageView>,
    producer: Option<Hop>,
    receiver: Hop,
)
    ensures
        deliveries(messages, producer, receiver) == messages.filter(
            |m: StreamMessageView| decodable(m),
        ).map_values(routed(producer, receiver)),
        deliveries(messages, producer, receiver).len() == messages.filter(
            |m: StreamMessageView| decodable(m),
        ).len(),
    decreases messages.len(),
{
    reveal(Seq::filter);
    let good = |m: StreamMessageView| decodable(m);
    let route = routed(producer, receiver);
    if messages.len() > 0 {
        let earlier = messages.drop_last();
        law_decodable_messages_are_routed(earlier, producer, receiver);
        if decodable(messages.last()) {
            assert(earlier.filter(good).push(messages.last()).map_values(route)
                == earlier.filter(good).map_values(route) + seq![route(messages.last())]);
        }
    }
    assert(deliveries(messages, producer, receiver) == messages.filter(good).map_values(route));
}

/// Decode resilience, for the offset. Where a pull response is handled, the
/// offset moves past the last message of the batch whether or not that
/// message, or any other, can be decoded.
pub proof fn law_offset_ignores_decoding(c: ConsumerView, e: RoutedView)
    requires
        accepts(c, e),
        step(c, e).handled,
        batch_of(e.body) is Some,
    ensures
        step(c, e).state.last_index == offset_after(c.last_index, batch_of(e.body)->0),
        step(c, e).actions == deliveries(batch_of(e.body)->0, c.producer, c.receiver) + checkpoint(
            c,
            step(c, e).state.last_index,
        ),
{
}

/// Forward routing choice. A decoded envelope with hops left on its onward
/// route is relayed to the first of them, with that hop taken off, and not
/// handed to the receiver; one without is handed to the receiver, and
/// relayed nowhere.
pub proof fn law_forward_routing_choice(
    envelope: Envelope,
    message: StreamMessageView,
    producer: Option<Hop>,
    receiver: Hop,
)
    ensures
        envelope.onward_route.len() > 0 ==> (delivery(
            Some(envelope),
            message,
            producer,
            receiver,
        ) matches Some(ActionView::Forward { next_hop, envelope: relayed })
            && next_hop == envelope.onward_route[0] && relayed.envelope.onward_route
            == envelope.onward_route.drop_first() && relayed.envelope.payload == envelope.payload),
        envelope.onward_route.len() == 0 ==> delivery(Some(envelope), message, producer, receiver)
            == Some(ActionView::Deliver { receiver, message }),
{
}

/// What a step can send depends on what it handles and on how far the
/// handshake has come: only a fetch command of an attached consumer sends a
/// pull request, only the first init response asks for the stored offset,
/// and only such a fetch command or the index response that completes the
/// handshake arms the timer.
pub proof fn lemma_actions_name_their_cause(c: ConsumerView, e: RoutedView)
    ensures
        sends_pull_request(step(c, e).actions) ==> step(c, e).handled && is_fetch(e.body)
            && c.handshake is Attached,
        sends_offset_query(step(c, e).actions) ==> step(c, e).handled && is_init(e.body)
            && c.handshake is AwaitingInit,
        arms_timer(step(c, e).actions) ==> step(c, e).handled && ((is_fetch(e.body)
            && c.handshake is Attached) || (is_index(e.body) && c.handshake is AwaitingIndex)),
{
    let o = step(c, e);
    if o.handled && batch_of(e.body) is Some {
        let messages = batch_of(e.body)->0;
        let routed = deliveries(messages, c.producer, c.receiver);
        lemma_deliveries_deliver(messages, c.producer, c.receiver);
        assert forall|n: int| 0 <= n < o.actions.len() implies !is_pull_request(
            #[trigger] o.actions[n],
        ) && !is_offset_query(o.actions[n]) && !is_timer(o.actions[n]) by {
            if n < routed.len() {
                assert(o.actions[n] == routed[n]);
            }
        }
    }
}

/// The handshake moves forward only, one response at a time: a step
/// leaves it where it is unless it handles the init response that is
/// awaited, or the index response that is awaited.
pub proof fn law_handshake_advances(c: ConsumerView, e: RoutedView)
    ensures
        step(c, e).state.handshake == if step(c, e).handled && is_init(e.body)
            && c.handshake is AwaitingInit {
            Handshake::AwaitingIndex
        } else if step(c, e).handled && is_index(e.body) && c.handshake is AwaitingIndex {
            Handshake::Attached
        } else {
            c.handshake
        },
{
}

/// A consumer as constructed awaits the init response and has no name,
/// and initialising it changes neither.
pub proof fn law_constructed_consumer_awaits_init(
    client_id: Seq<char>,
    remote: Seq<Hop>,
    producer: Option<Hop>,
    requested: Option<Seq<char>>,
    interval_nanos: nat,
    receiver: Hop,
    stream_service: Hop,
    index_service: Hop,
)
    ensures
        ({
            let c = initial(
                client_id,
                remote,
                producer,
                requested,
                interval_nanos,
                receiver,
                stream_service,
                index_service,
            );
            &&& c.handshake is AwaitingInit
            &&& c.stream is None
            &&& named_by_init(c)
            &&& on_initialize(c).state.handshake is AwaitingInit
            &&& named_by_init(on_initialize(c).state)
        }),
{
}

/// One handshake in a consumer's life. An init response that is not the
/// first, and an index response that does not complete the handshake, are
/// handled by changing nothing and sending nothing.
pub proof fn law_late_responses_are_ignored(c: ConsumerView, e: RoutedView)
    requires
        step(c, e).handled,
        (is_init(e.body) && !(c.handshake is AwaitingInit)) || (is_index(e.body) && !(
        c.handshake is AwaitingIndex)),
    ensures
        step(c, e).state == c,
        step(c, e).actions == Seq::<ActionView>::empty(),
{
}

/// Handshake ordering, step by step. No step sends a pull request unless
/// both the init and the index response have been processed before it. In
/// particular no response ever leads to a pull request, and a fetch command
/// that comes before the handshake is complete is handled by sending
/// nothing and arming nothing.
pub proof fn law_no_pull_before_attach(c: ConsumerView, e: RoutedView)
    ensures
        sends_pull_request(step(c, e).actions) ==> c.handshake is Attached && is_fetch(e.body),
        is_fetch(e.body) && !(c.handshake is Attached) ==> step(c, e).state == c && step(
            c,
            e,
        ).actions == Seq::<ActionView>::empty(),
{
    lemma_actions_name_their_cause(c, e);
}

/// A consumer that awaits the init response at the start of a run has
/// handled an init response before it awaits the index response, and an
/// init response and then an index response before it is attached.
proof fn lemma_handshake_history(c: ConsumerView, events: Seq<RoutedView>, k: int)
    requires
        c.handshake is AwaitingInit,
        0 <= k <= events.len(),
    ensures
        state_before(c, events, k).handshake is AwaitingIndex ==> exists|i: int|
            0 <= i < k && is_init(events[i].body) && (#[trigger] outcome_at(c, events, i)).handled,
        state_before(c, events, k).handshake is Attached ==> exists|i: int, j: int|
            0 <= i < j < k && is_init(events[i].body) && (#[trigger] outcome_at(
                c,
                events,
                i,
            )).handled && is_index(events[j].body) && (#[trigger] outcome_at(c, events, j)).handled,
    decreases k,
{
    if k == 0 {
        assert(events.take(0) == Seq::<RoutedView>::empty());
    } else {
        lemma_handshake_history(c, events, k - 1);
        lemma_run_unfolds(c, events, k - 1);
        let before = state_before(c, events, k - 1);
        law_handshake_advances(before, events[k - 1]);
        if state_before(c, events, k).handshake is AwaitingIndex {
            if before.handshake is AwaitingInit {
                assert(outcome_at(c, events, k - 1).handled);
            } else {
                let i = choose|i: int|
                    0 <= i < k - 1 && is_init(events[i].body) && (#[trigger] outcome_at(
                        c,
                        events,
                        i,
                    )).handled;
                assert(0 <= i < k);
            }
        }
        if state_before(c, events, k).handshake is Attached {
            if before.handshake is AwaitingIndex {
                let i = choose|i: int|
                    0 <= i < k - 1 && is_init(events[i].body) && (#[trigger] outcome_at(
                        c,
                        events,
                        i,
                    )).handled;
                assert(outcome_at(c, events, i).handled && outcome_at(c, events, k - 1).handled);
            } else {
                let (i, j) = choose|i: int, j: int|
                    0 <= i < j < k - 1 && is_init(events[i].body) && (#[trigger] outcome_at(
                        c,
                        events,
                        i,
                    )).handled && is_index(events[j].body) && (#[trigger] outcome_at(
                        c,
                        events,
                        j,
                    )).handled;
                assert(outcome_at(c, events, i).handled && outcome_at(c, events, j).handled);
            }
        }
    }
}

/// Handshake ordering. Whatever messages a consumer is given after its
/// construction, in whatever order, a step that sends a pull request comes
/// after a handled init response and, later, a handled index response.
pub proof fn law_handshake_precedes_pull(c: ConsumerView, events: Seq<RoutedView>, k: int)
    requires
        c.handshake is AwaitingInit,
        0 <= k < events.len(),
        sends_pull_request(outcome_at(c, events, k).actions),
    ensures
        exists|i: int, j: int|
            0 <= i < j < k && is_init(events[i].body) && (#[trigger] outcome_at(
                c,
                events,
                i,
            )).handled && is_index(events[j].body) && (#[trigger] outcome_at(c, events, j)).handled,
{
    lemma_actions_name_their_cause(state_before(c, events, k), events[k]);
    lemma_handshake_history(c, events, k);
}

/// The routes to the two services and the stream's name change by the
/// handshake alone. A step replaces the route to the stream service, and
/// sets the name, only by the first init response that it handles; it
/// replaces the route to the index service only by the index response that
/// completes the handshake. What was configured never changes.
pub proof fn law_peers_are_learned(c: ConsumerView, e: RoutedView)
    ensures
        step(c, e).state.stream_peer == if step(c, e).handled && is_init(e.body)
            && c.handshake is AwaitingInit {
            e.return_route
        } else {
            c.stream_peer
        },
        step(c, e).state.stream != c.stream ==> step(c, e).handled && is_init(e.body)
            && c.handshake is AwaitingInit,
        step(c, e).state.index_peer == if step(c, e).handled && is_index(e.body)
            && c.handshake is AwaitingIndex {
            e.return_route
        } else {
            c.index_peer
        },
        step(c, e).state.client_id == c.client_id,
        step(c, e).state.producer == c.producer,
        step(c, e).state.receiver == c.receiver,
        step(c, e).state.interval_nanos == c.interval_nanos,
        step(c, e).state.requested == c.requested,
        step(c, e).state.handlers == c.handlers,
{
}

/// Peer learning. Once the first init response has been handled, from
/// return route `R`, every pull request goes to `R`, whatever messages come
/// in between, further init responses from other routes among them.
pub proof fn law_pulls_go_to_learned_peer(
    c: ConsumerView,
    events: Seq<RoutedView>,
    i: int,
    k: int,
    n: int,
)
    requires
        0 <= i < k < events.len(),
        state_before(c, events, i).handshake is AwaitingInit,
        is_init(events[i].body),
        outcome_at(c, events, i).handled,
        0 <= n < outcome_at(c, events, k).actions.len(),
        is_pull_request(outcome_at(c, events, k).actions[n]),
    ensures
        outcome_at(c, events, k).actions[n] matches ActionView::Send { to, .. } && to
            == events[i].return_route,
{
    lemma_peer_is_kept(c, events, i, k);
    lemma_actions_name_their_cause(state_before(c, events, k), events[k]);
}

/// After the first init response has been handled, the route to the stream
/// service is its return route for good, and the handshake never awaits an
/// init response again.
proof fn lemma_peer_is_kept(c: ConsumerView, events: Seq<RoutedView>, i: int, k: int)
    requires
        0 <= i < k <= events.len(),
        state_before(c, events, i).handshake is AwaitingInit,
        is_init(events[i].body),
        outcome_at(c, events, i).handled,
    ensures
        state_before(c, events, k).stream_peer == events[i].return_route,
        !(state_before(c, events, k).handshake is AwaitingInit),
    decreases k - i,
{
    lemma_run_unfolds(c, events, k - 1);
    law_peers_are_learned(state_before(c, events, k - 1), events[k - 1]);
    law_handshake_advances(state_before(c, events, k - 1), events[k - 1]);
    if k - 1 > i {
        lemma_peer_is_kept(c, events, i, k - 1);
    }
}

/// The poll loop sustains itself. A fetch command handled by an attached
/// consumer sends one pull request, for the current offset and the fixed
/// batch size and under the next request identifier, to the stream service,
/// and arms the timer once more for the configured interval, whatever
/// becomes of the request.
pub proof fn law_fetch_rearms(c: ConsumerView, e: RoutedView)
    requires
        accepts(c, e),
        is_fetch(e.body),
        step(c, e).handled,
        c.handshake is Attached,
    ensures
        step(c, e).actions == seq![
            ActionView::Send {
                to: c.stream_peer,
                request: RequestView::Pull {
                    request_id: c.next_id,
                    start_index: c.last_index,
                    count: PULL_BATCH_SIZE,
                },
            },
            ActionView::Schedule {
                delay_nanos: c.interval_nanos,
                command: StreamWorkerCmd::Fetch,
            },
        ],
        step(c, e).state.next_id > c.next_id,
        step(c, e).state.last_index == c.last_index,
{
}

/// No message of the batch lies before the offset.
pub open spec fn at_or_after(messages: Seq<StreamMessageView>, offset: u64) -> bool {
    forall|i: int| 0 <= i < messages.len() ==> (#[trigger] messages[i]).index >= offset
}

/// Every pull response of the run answers a pull request: it arrives at an
/// attached consumer and holds no message before the offset that the
/// consumer then holds.
pub open spec fn batches_are_answers(c: ConsumerView, events: Seq<RoutedView>) -> bool {
    forall|k: int|
        0 <= k < events.len() && batch_of((#[trigger] events[k]).body) is Some ==> state_before(
            c,
            events,
            k,
        ).handshake is Attached && at_or_after(
            batch_of(events[k].body)->0,
            state_before(c, events, k).last_index,
        )
}

/// Until the handshake is complete, the offset of such a run stays 0.
proof fn lemma_offset_waits_for_attach(c: ConsumerView, events: Seq<RoutedView>, k: int)
    requires
        c.last_index == 0,
        !(c.handshake is Attached),
        batches_are_answers(c, events),
        0 <= k <= events.len(),
    ensures
        !(state_before(c, events, k).handshake is Attached) ==> state_before(
            c,
            events,
            k,
        ).last_index == 0,
    decreases k,
{
    if k == 0 {
        assert(events.take(0) == Seq::<RoutedView>::empty());
    } else {
        lemma_offset_waits_for_attach(c, events, k - 1);
        lemma_run_unfolds(c, events, k - 1);
        law_handshake_advances(state_before(c, events, k - 1), events[k - 1]);
        assert(batch_of(events[k - 1].body) is Some ==> state_before(
            c,
            events,
            k - 1,
        ).handshake is Attached);
    }
}

/// The offset never goes back. In the life of a consumer whose pull
/// responses all answer its pull requests, the offset at a later point is
/// at least the offset at an earlier one.
pub proof fn law_offset_never_goes_back(c: ConsumerView, events: Seq<RoutedView>, j: int, k: int)
    requires
        c.last_index == 0,
        !(c.handshake is Attached),
        batches_are_answers(c, events),
        run_accepts(c, events),
        0 <= j <= k <= events.len(),
    ensures
        state_before(c, events, j).last_index <= state_before(c, events, k).last_index,
    decreases k - j,
{
    if j < k {
        law_offset_never_goes_back(c, events, j, k - 1);
        lemma_run_unfolds(c, events, k - 1);
        lemma_offset_waits_for_attach(c, events, k - 1);
        let before = state_before(c, events, k - 1);
        assert(accepts(before, events[k - 1]));
        if batch_of(events[k - 1].body) is Some {
            let messages = batch_of(events[k - 1].body)->0;
            assert(at_or_after(messages, before.last_index));
            if messages.len() > 0 {
                assert(messages[messages.len() - 1].index >= before.last_index);
            }
        }
    }
}

/// The request identifier of a pull request; `None` for any other action.
pub open spec fn pull_request_id(action: ActionView) -> Option<u64> {
    match action {
        ActionView::Send { request: RequestView::Pull { request_id, .. }, .. } => Some(request_id),
        _ => None,
    }
}

/// Along a run, the next request identifier never goes back.
proof fn lemma_next_id_grows(c: ConsumerView, events: Seq<RoutedView>, j: int, k: int)
    requires
        run_accepts(c, events),
        0 <= j <= k <= events.len(),
    ensures
        state_before(c, events, j).next_id <= state_before(c, events, k).next_id,
    decreases k - j,
{
    if j < k {
        lemma_next_id_grows(c, events, j, k - 1);
        lemma_run_unfolds(c, events, k - 1);
        assert(accepts(state_before(c, events, k - 1), events[k - 1]));
    }
}

/// A pull request carries the next request identifier, and the step that
/// sends it moves the identifier on by one.
proof fn lemma_pull_request_uses_next_id(c: ConsumerView, e: RoutedView, n: int)
    requires
        accepts(c, e),
        0 <= n < step(c, e).actions.len(),
        pull_request_id(step(c, e).actions[n]) is Some,
    ensures
        pull_request_id(step(c, e).actions[n]) == Some(c.next_id),
        step(c, e).state.next_id == c.next_id + 1,
{
    assert(is_pull_request(step(c, e).actions[n]));
    lemma_actions_name_their_cause(c, e);
}

/// Request identifiers strictly increase. Of two pull requests that a run
/// sends, the later one carries the larger identifier.
pub proof fn law_request_ids_increase(
    c: ConsumerView,
    events: Seq<RoutedView>,
    j: int,
    k: int,
    m: int,
    n: int,
)
    requires
        run_accepts(c, events),
        0 <= j < k < events.len(),
        0 <= m < outcome_at(c, events, j).actions.len(),
        0 <= n < outcome_at(c, events, k).actions.len(),
        pull_request_id(outcome_at(c, events, j).actions[m]) is Some,
        pull_request_id(outcome_at(c, events, k).actions[n]) is Some,
    ensures
        pull_request_id(outcome_at(c, events, j).actions[m])->0 < pull_request_id(
            outcome_at(c, events, k).actions[n],
        )->0,
{
    assert(accepts(state_before(c, events, j), events[j]));
    assert(accepts(state_before(c, events, k), events[k]));
    lemma_pull_request_uses_next_id(state_before(c, events, j), events[j], m);
    lemma_pull_request_uses_next_id(state_before(c, events, k), events[k], n);
    lemma_run_unfolds(c, events, j);
    lemma_next_id_grows(c, events, j + 1, k);
}

/// A step arms the fetch timer at most once.
pub proof fn law_one_timer_per_step(c: ConsumerView, e: RoutedView, m: int, n: int)
    requires
        0 <= m < step(c, e).actions.len(),
        0 <= n < step(c, e).actions.len(),
        is_timer(step(c, e).actions[m]),
        is_timer(step(c, e).actions[n]),
    ensures
        m == n,
{
    assert(arms_timer(step(c, e).actions));
    lemma_actions_name_their_cause(c, e);
}

/// How many of the first `k` steps of a run arm the fetch timer.
pub open spec fn timers_armed(c: ConsumerView, events: Seq<RoutedView>, k: int) -> int
    decreases k,
{
    if k <= 0 {
        0
    } else {
        timers_armed(c, events, k - 1) + if arms_timer(outcome_at(c, events, k - 1).actions) {
            1int
        } else {
            0int
        }
    }
}

/// How many of the first `k` messages of a run are fetch commands.
pub open spec fn fetches_delivered(events: Seq<RoutedView>, k: int) -> int
    decreases k,
{
    if k <= 0 {
        0
    } else {
        fetches_delivered(events, k - 1) + if is_fetch(events[k - 1].body) {
            1int
        } else {
            0int
        }
    }
}

/// One timer per handshake. At any point of a run of a consumer that is
/// not yet attached, the timers armed exceed the fetch commands delivered
/// by one at most: the handshake arms the timer once, and the poll loop
/// re-arms only as it fires.
pub proof fn law_one_timer_per_handshake(c: ConsumerView, events: Seq<RoutedView>, k: int)
    requires
        !(c.handshake is Attached),
        0 <= k <= events.len(),
    ensures
        timers_armed(c, events, k) - fetches_delivered(events, k) <= if state_before(
            c,
            events,
            k,
        ).handshake is Attached {
            1int
        } else {
            0int
        },
    decreases k,
{
    if k == 0 {
        assert(events.take(0) == Seq::<RoutedView>::empty());
    } else {
        law_one_timer_per_handshake(c, events, k - 1);
        lemma_run_unfolds(c, events, k - 1);
        lemma_actions_name_their_cause(state_before(c, events, k - 1), events[k - 1]);
        law_handshake_advances(state_before(c, events, k - 1), events[k - 1]);
    }
}

} // verus!
