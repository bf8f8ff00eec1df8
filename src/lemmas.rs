use vstd::prelude::*;

use crate::counter::CounterOp;
use crate::greet::{deliver_model, greet_event_text_model};
use crate::store::{initial_model, run, step_model, StoreModel, UiEvent};

verus! {

/// Number of events before and including the last click on "clear"; zero
/// when there is none.
pub open spec fn last_clear(evs: Seq<UiEvent>) -> int
    decreases evs.len(),
{
    if evs.len() == 0 {
        0
    } else if evs.last() == UiEvent::Counter(CounterOp::Clear) {
        evs.len() as int
    } else {
        last_clear(evs.drop_last())
    }
}

pub open spec fn increments(evs: Seq<UiEvent>) -> Seq<UiEvent> {
    evs.filter(|e: UiEvent| e == UiEvent::Counter(CounterOp::Increment))
}

pub open spec fn decrements(evs: Seq<UiEvent>) -> Seq<UiEvent> {
    evs.filter(|e: UiEvent| e == UiEvent::Counter(CounterOp::Decrement))
}

/// The counter's value after `evs`: increments minus decrements since the last
/// clear.
pub open spec fn net_counter(evs: Seq<UiEvent>) -> int {
    let since = evs.skip(last_clear(evs));
    increments(since).len() - decrements(since).len()
}

pub open spec fn emit_clicks(evs: Seq<UiEvent>) -> Seq<UiEvent> {
    evs.filter(|e: UiEvent| e is EmitClicked)
}

pub open spec fn generic_deliveries(evs: Seq<UiEvent>) -> Seq<UiEvent> {
    evs.filter(|e: UiEvent| e is GenericEvent)
}

pub open spec fn generic_payload(e: UiEvent) -> (u16, Seq<char>) {
    match e {
        UiEvent::GenericEvent(ev) => ev@,
        _ => (0, Seq::empty()),
    }
}

pub open spec fn greet_deliveries(evs: Seq<UiEvent>) -> Seq<UiEvent> {
    evs.filter(|e: UiEvent| e is GreetEvent)
}

pub open spec fn greet_payload(e: UiEvent) -> Seq<char> {
    match e {
        UiEvent::GreetEvent(g) => g@,
        _ => Seq::empty(),
    }
}

/// The greeting of the first `greet-event` among `evs`, if any.
pub open spec fn first_greet_event(evs: Seq<UiEvent>) -> Option<Seq<char>> {
    let d = greet_deliveries(evs);
    if d.len() == 0 {
        None
    } else {
        Some(greet_payload(d[0]))
    }
}

proof fn lemma_last_clear_bounds(evs: Seq<UiEvent>)
    ensures
        0 <= last_clear(evs) <= evs.len(),
    decreases evs.len(),
{
    if evs.len() > 0 {
        lemma_last_clear_bounds(evs.drop_last());
    }
}

/// After any sequence of interactions, starting from a freshly mounted view,
/// the counter shows the number of increments minus the number of decrements
/// since the last clear (since mounting, if there was none): each operation is
/// applied in order to an initial 0, and a clear sets exactly 0.
pub proof fn lemma_counter_net_effect(evs: Seq<UiEvent>)
    ensures
        run(initial_model(), evs).value == net_counter(evs),
    decreases evs.len(),
{
    broadcast use Seq::lemma_filter_push;

    reveal(Seq::filter);
    if evs.len() == 0 {
        assert(evs.skip(0) =~= Seq::<UiEvent>::empty());
    } else {
        let prev = evs.drop_last();
        let e = evs.last();
        lemma_counter_net_effect(prev);
        lemma_last_clear_bounds(prev);
        if e == UiEvent::Counter(CounterOp::Clear) {
            assert(evs.skip(evs.len() as int) =~= Seq::<UiEvent>::empty());
        } else {
            let k = last_clear(prev);
            assert(evs.skip(k) =~= prev.skip(k).push(e));
        }
    }
}

/// Each click on "emit generic event" advances the event counter by exactly
/// one, starting from 1, whatever else happens in between.
pub proof fn lemma_event_counter_counts_emits(evs: Seq<UiEvent>)
    ensures
        run(initial_model(), evs).event_counter == 1 + emit_clicks(evs).len(),
    decreases evs.len(),
{
    broadcast use Seq::lemma_filter_push;

    reveal(Seq::filter);
    if evs.len() > 0 {
        lemma_event_counter_counts_emits(evs.drop_last());
        assert(evs =~= evs.drop_last().push(evs.last()));
    }
}

/// The rendered list holds exactly the delivered `generic-event` payloads, in
/// order of delivery, one entry per delivery, repeated numbers included.
pub proof fn lemma_events_in_delivery_order(evs: Seq<UiEvent>)
    ensures
        run(initial_model(), evs).events == generic_deliveries(evs).map_values(
            |e: UiEvent| generic_payload(e),
        ),
        run(initial_model(), evs).events.len() == generic_deliveries(evs).len(),
    decreases evs.len(),
{
    broadcast use Seq::lemma_filter_push;

    reveal(Seq::filter);
    if evs.len() == 0 {
        assert(generic_deliveries(evs).map_values(|e: UiEvent| generic_payload(e)) =~= Seq::empty());
    } else {
        let prev = evs.drop_last();
        lemma_events_in_delivery_order(prev);
        assert(evs =~= prev.push(evs.last()));
        assert(generic_deliveries(evs).map_values(|e: UiEvent| generic_payload(e)) =~= run(
            initial_model(),
            evs,
        ).events);
    }
}

/// The greet-event cell shows the first `greet-event` delivered, and keeps
/// waiting while none has been delivered.
pub proof fn lemma_greet_event_first_delivery(evs: Seq<UiEvent>)
    ensures
        run(initial_model(), evs).greet_event == first_greet_event(evs),
    decreases evs.len(),
{
    broadcast use Seq::lemma_filter_push;

    reveal(Seq::filter);
    if evs.len() > 0 {
        let prev = evs.drop_last();
        lemma_greet_event_first_delivery(prev);
        assert(evs =~= prev.push(evs.last()));
    }
}

/// Once a `greet-event` has landed, a further delivery changes neither the
/// store nor the displayed message.
pub proof fn lemma_greet_event_fires_once(s: StoreModel, greeting: String)
    requires
        s.greet_event is Some,
    ensures
        step_model(s, UiEvent::GreetEvent(greeting)) == s,
        greet_event_text_model(step_model(s, UiEvent::GreetEvent(greeting)).greet_event)
            == greet_event_text_model(s.greet_event),
{
    assert(deliver_model(s.greet_event, greeting@) == s.greet_event);
}

} // verus!
