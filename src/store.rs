use vstd::prelude::*;

use crate::counter::{apply_counter_op, op_result, CounterOp};
use crate::events::{append_event, dispatch_emit, event_messages, events_view, GenericEventRes};
use crate::greet::{deliver_model, greet_event_text_model, GreetEventState};

verus! {

/// What happens to the mounted view: a user interaction, or something that
/// the host bridge handed back.
pub enum UiEvent {
    /// A click on one of the counter's buttons.
    Counter(CounterOp),
    /// The host's reply to the greet command.
    GreetReply(String),
    /// A delivery of `greet-event`.
    GreetEvent(String),
    /// A click on "emit generic event".
    EmitClicked,
    /// A delivery of `generic-event`.
    GenericEvent(GenericEventRes),
}

/// Work for the host bridge, performed outside the store.
#[derive(Debug, PartialEq, Eq)]
pub enum HostAction {
    /// Send the `greet` command with this name and report the reply as
    /// `UiEvent::GreetReply`.
    Greet(String),
    /// Wait for one `greet-event` and report it as `UiEvent::GreetEvent`.
    ListenGreetEvent,
    /// Report every `generic-event` as `UiEvent::GenericEvent`, for as long as
    /// the view is mounted.
    ListenGenericEvent,
    /// Send the `emit_event` command with this number.
    EmitEvent(u16),
}

/// The store as values: counter, greeting reply, greet-event cell (`None`
/// while waiting), event counter and the delivered generic events.
pub struct StoreModel {
    pub value: int,
    pub msg: Seq<char>,
    pub greet_event: Option<Seq<char>>,
    pub event_counter: int,
    pub events: Seq<(u16, Seq<char>)>,
}

/// The state owned by the root component for the lifetime of the mounted view.
pub struct SimpleCounterState {
    value: i32,
    msg: String,
    greet_event: GreetEventState,
    event_counter: u16,
    events: Vec<GenericEventRes>,
}

impl View for SimpleCounterState {
    type V = StoreModel;

    closed spec fn view(&self) -> StoreModel {
        StoreModel {
            value: self.value as int,
            msg: self.msg@,
            greet_event: self.greet_event@,
            event_counter: self.event_counter as int,
            events: events_view(self.events@),
        }
    }
}

/// The store right after mounting.
pub open spec fn initial_model() -> StoreModel {
    StoreModel {
        value: 0,
        msg: Seq::empty(),
        greet_event: None,
        event_counter: 1,
        events: Seq::empty(),
    }
}

/// The store after one event.
pub open spec fn step_model(s: StoreModel, e: UiEvent) -> StoreModel {
    match e {
        UiEvent::Counter(op) => StoreModel { value: op_result(s.value, op), ..s },
        UiEvent::GreetReply(g) => StoreModel { msg: g@, ..s },
        UiEvent::GreetEvent(g) => StoreModel { greet_event: deliver_model(s.greet_event, g@), ..s },
        UiEvent::EmitClicked => StoreModel { event_counter: s.event_counter + 1, ..s },
        UiEvent::GenericEvent(ev) => StoreModel { events: s.events.push(ev@), ..s },
    }
}

/// The bridge work that one event asks for.
pub open spec fn step_action(s: StoreModel, e: UiEvent) -> Option<HostAction> {
    match e {
        UiEvent::EmitClicked => Some(HostAction::EmitEvent(s.event_counter as u16)),
        _ => None,
    }
}

/// Whether the event keeps the counter in `i32` and the event counter in `u16`.
pub open spec fn step_fits(s: StoreModel, e: UiEvent) -> bool {
    match e {
        UiEvent::Counter(op) => i32::MIN <= op_result(s.value, op) <= i32::MAX,
        UiEvent::EmitClicked => s.event_counter < u16::MAX,
        _ => true,
    }
}

/// The store after a sequence of events, in order.
pub open spec fn run(s: StoreModel, evs: Seq<UiEvent>) -> StoreModel
    decreases evs.len(),
{
    if evs.len() == 0 {
        s
    } else {
        step_model(run(s, evs.drop_last()), evs.last())
    }
}

impl SimpleCounterState {
    /// Creates the store of a freshly mounted view for `name`, and the bridge
    /// work that mounting starts: the one-shot greet-event listener, the
    /// generic-event subscription and the greet command.
    pub fn mount(name: String) -> (r: (SimpleCounterState, Vec<HostAction>))
        ensures
            r.0@ == initial_model(),
            r.1@ == seq![
                HostAction::ListenGreetEvent,
                HostAction::ListenGenericEvent,
                HostAction::Greet(name),
            ],
    {
        let state = SimpleCounterState {
            value: 0,
            msg: String::new(),
            greet_event: GreetEventState::new(),
            event_counter: 1,
            events: Vec::new(),
        };
        let actions = vec![
            HostAction::ListenGreetEvent,
            HostAction::ListenGenericEvent,
            HostAction::Greet(name),
        ];
        proof {
            assert(events_view(state.events@) =~= Seq::empty());
        }
        (state, actions)
    }

    /// Applies one event and returns the bridge work it asks for.
    pub fn step(&mut self, e: UiEvent) -> (r: Option<HostAction>)
        requires
            step_fits(old(self)@, e),
        ensures
            final(self)@ == step_model(old(self)@, e),
            r == step_action(old(self)@, e),
    {
        match e {
            UiEvent::Counter(op) => {
                self.value = apply_counter_op(self.value, op);
                None
            },
            UiEvent::GreetReply(g) => {
                self.msg = g;
                None
            },
            UiEvent::GreetEvent(g) => {
                self.greet_event.deliver(g);
                None
            },
            UiEvent::EmitClicked => {
                let num = dispatch_emit(&mut self.event_counter);
                Some(HostAction::EmitEvent(num))
            },
            UiEvent::GenericEvent(ev) => {
                append_event(&mut self.events, ev);
                None
            },
        }
    }

    /// The counter's current value.
    pub fn value(&self) -> (r: i32)
        ensures
            r == self@.value,
    {
        self.value
    }

    /// The host's reply to the greet command; empty until it arrives.
    pub fn greeting(&self) -> (r: &String)
        ensures
            r@ == self@.msg,
    {
        &self.msg
    }

    /// The text of the greet-event cell.
    pub fn greet_event_text(&self) -> (r: String)
        ensures
            r@ == greet_event_text_model(self@.greet_event),
    {
        self.greet_event.display_text()
    }

    /// The number that the next click on "emit generic event" sends.
    pub fn event_counter(&self) -> (r: u16)
        ensures
            r == self@.event_counter,
    {
        self.event_counter
    }

    /// The delivered generic events, in order of delivery.
    pub fn events(&self) -> (r: &Vec<GenericEventRes>)
        ensures
            events_view(r@) == self@.events,
    {
        &self.events
    }

    /// The messages of the rendered event list, in order.
    pub fn event_messages(&self) -> (r: Vec<String>)
        ensures
            r@.len() == self@.events.len(),
            forall|i: int| 0 <= i < r@.len() ==> #[trigger] r@[i]@ == self@.events[i].1,
    {
        event_messages(&self.events)
    }
}

} // verus!
