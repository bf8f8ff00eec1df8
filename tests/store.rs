use src_ui::counter::{apply_counter_op, CounterOp};
use src_ui::events::{append_event, dispatch_emit, event_messages, GenericEventRes};
use src_ui::greet::{GreetEventState, WAITING_TEXT};
use src_ui::store::{HostAction, SimpleCounterState, UiEvent};

fn mounted(name: &str) -> SimpleCounterState {
    SimpleCounterState::mount(name.to_string()).0
}

#[test]
fn mount_starts_the_bridge_work() {
    let (state, actions) = SimpleCounterState::mount("Michal".to_string());
    assert_eq!(
        actions,
        vec![
            HostAction::ListenGreetEvent,
            HostAction::ListenGenericEvent,
            HostAction::Greet("Michal".to_string()),
        ]
    );
    assert_eq!(state.value(), 0);
    assert_eq!(state.greeting(), "");
    assert_eq!(state.event_counter(), 1);
    assert!(state.events().is_empty());
    assert_eq!(state.greet_event_text(), WAITING_TEXT);
}

#[test]
fn counter_applies_ops_in_order() {
    let mut s = mounted("a");
    for op in [
        CounterOp::Increment,
        CounterOp::Increment,
        CounterOp::Increment,
        CounterOp::Decrement,
    ] {
        assert_eq!(s.step(UiEvent::Counter(op)), None);
    }
    assert_eq!(s.value(), 2);
    s.step(UiEvent::Counter(CounterOp::Clear));
    assert_eq!(s.value(), 0);
    s.step(UiEvent::Counter(CounterOp::Decrement));
    s.step(UiEvent::Counter(CounterOp::Decrement));
    assert_eq!(s.value(), -2);
}

#[test]
fn counter_counts_since_last_clear_amid_other_events() {
    let mut s = mounted("a");
    s.step(UiEvent::Counter(CounterOp::Increment));
    s.step(UiEvent::EmitClicked);
    s.step(UiEvent::Counter(CounterOp::Clear));
    s.step(UiEvent::GreetReply("hi".to_string()));
    s.step(UiEvent::Counter(CounterOp::Increment));
    s.step(UiEvent::GenericEvent(GenericEventRes::new(3, "x".to_string())));
    s.step(UiEvent::Counter(CounterOp::Increment));
    s.step(UiEvent::Counter(CounterOp::Decrement));
    s.step(UiEvent::Counter(CounterOp::Increment));
    assert_eq!(s.value(), 2);
}

#[test]
fn clear_sets_exactly_zero() {
    assert_eq!(apply_counter_op(-17, CounterOp::Clear), 0);
    assert_eq!(apply_counter_op(0, CounterOp::Clear), 0);
    assert_eq!(apply_counter_op(41, CounterOp::Increment), 42);
    assert_eq!(apply_counter_op(0, CounterOp::Decrement), -1);
}

#[test]
fn counter_reaches_i32_bounds() {
    assert_eq!(apply_counter_op(i32::MAX - 1, CounterOp::Increment), i32::MAX);
    assert_eq!(apply_counter_op(i32::MIN + 1, CounterOp::Decrement), i32::MIN);
    assert_eq!(apply_counter_op(i32::MAX, CounterOp::Decrement), i32::MAX - 1);
    assert_eq!(apply_counter_op(i32::MIN, CounterOp::Clear), 0);
}

#[test]
fn greeting_reply_is_displayed() {
    let (mut s, actions) = SimpleCounterState::mount("Michal".to_string());
    assert!(actions.contains(&HostAction::Greet("Michal".to_string())));
    assert_eq!(s.greeting(), "");
    s.step(UiEvent::GreetReply("Hello, Michal!".to_string()));
    assert_eq!(s.greeting(), "Hello, Michal!");
}

#[test]
fn greet_event_lands_once() {
    let mut s = mounted("a");
    s.step(UiEvent::GreetEvent("Hello from the host".to_string()));
    assert_eq!(s.greet_event_text(), "Hello from the host");
    s.step(UiEvent::GreetEvent("A second greeting".to_string()));
    assert_eq!(s.greet_event_text(), "Hello from the host");
}

#[test]
fn greet_event_waits_without_delivery() {
    let mut s = mounted("a");
    s.step(UiEvent::GreetReply("Hello, a!".to_string()));
    s.step(UiEvent::Counter(CounterOp::Increment));
    s.step(UiEvent::EmitClicked);
    s.step(UiEvent::GenericEvent(GenericEventRes::new(1, "first".to_string())));
    assert_eq!(s.greet_event_text(), WAITING_TEXT);
    assert_eq!(
        s.greet_event_text(),
        "Waiting for `greet-event` from Tauri."
    );
}

#[test]
fn greet_event_cell_on_its_own() {
    let mut cell = GreetEventState::new();
    assert!(!cell.is_received());
    assert_eq!(cell.display_text(), WAITING_TEXT);
    cell.deliver("one".to_string());
    assert!(cell.is_received());
    assert_eq!(cell, GreetEventState::Received("one".to_string()));
    cell.deliver("two".to_string());
    assert_eq!(cell.display_text(), "one");
}

#[test]
fn emit_sends_counter_then_advances() {
    let mut s = mounted("a");
    assert_eq!(s.step(UiEvent::EmitClicked), Some(HostAction::EmitEvent(1)));
    s.step(UiEvent::GenericEvent(GenericEventRes::new(1, "first".to_string())));
    s.step(UiEvent::GenericEvent(GenericEventRes::new(9, "other".to_string())));
    assert_eq!(s.step(UiEvent::EmitClicked), Some(HostAction::EmitEvent(2)));
    assert_eq!(s.step(UiEvent::EmitClicked), Some(HostAction::EmitEvent(3)));
    assert_eq!(s.event_counter(), 4);
}

#[test]
fn emit_counter_up_to_u16_max() {
    let mut c: u16 = u16::MAX - 1;
    assert_eq!(dispatch_emit(&mut c), u16::MAX - 1);
    assert_eq!(c, u16::MAX);
}

#[test]
fn generic_events_render_in_delivery_order() {
    let mut s = mounted("a");
    s.step(UiEvent::GenericEvent(GenericEventRes::new(1, "first".to_string())));
    s.step(UiEvent::GenericEvent(GenericEventRes::new(2, "second".to_string())));
    assert_eq!(
        s.event_messages(),
        vec!["first".to_string(), "second".to_string()]
    );
    assert_eq!(s.events()[0].num(), 1);
    assert_eq!(s.events()[1].num(), 2);
}

#[test]
fn generic_events_keep_repeated_numbers() {
    let mut s = mounted("a");
    s.step(UiEvent::GenericEvent(GenericEventRes::new(5, "a".to_string())));
    s.step(UiEvent::GenericEvent(GenericEventRes::new(5, "b".to_string())));
    s.step(UiEvent::GenericEvent(GenericEventRes::new(5, "a".to_string())));
    assert_eq!(s.events().len(), 3);
    assert_eq!(
        s.event_messages(),
        vec!["a".to_string(), "b".to_string(), "a".to_string()]
    );
}

#[test]
fn event_list_helpers() {
    let mut v: Vec<GenericEventRes> = Vec::new();
    assert!(event_messages(&v).is_empty());
    append_event(&mut v, GenericEventRes::new(7, "seven".to_string()));
    append_event(&mut v, GenericEventRes::new(0, String::new()));
    assert_eq!(v.len(), 2);
    assert_eq!(v[0].message(), "seven");
    assert_eq!(event_messages(&v), vec!["seven".to_string(), String::new()]);
}
