use vstd::prelude::*;

verus! {

/// Text shown in the greet-event cell until a `greet-event` arrives.
pub const WAITING_TEXT: &'static str = "Waiting for `greet-event` from Tauri.";

/// The greet-event cell: it waits for one delivery and then keeps it.
#[derive(Clone, Debug, PartialEq, Eq)]
pub enum GreetEventState {
    Waiting,
    Received(String),
}

impl View for GreetEventState {
    /// `None` while waiting, the delivered greeting once received.
    type V = Option<Seq<char>>;

    open spec fn view(&self) -> Option<Seq<char>> {
        match self {
            GreetEventState::Waiting => None,
            GreetEventState::Received(g) => Some(g@),
        }
    }
}

/// The cell after a delivery of `greeting`: only the first delivery lands.
pub open spec fn deliver_model(cell: Option<Seq<char>>, greeting: Seq<char>) -> Option<Seq<char>> {
    match cell {
        None => Some(greeting),
        Some(g) => Some(g),
    }
}

/// The text that the cell displays.
pub open spec fn greet_event_text_model(cell: Option<Seq<char>>) -> Seq<char> {
    match cell {
        None => WAITING_TEXT@,
        Some(g) => g,
    }
}

impl GreetEventState {
    /// A cell that has not seen a delivery yet.
    pub fn new() -> (r: Self)
        ensures
            r@ == None::<Seq<char>>,
    {
        GreetEventState::Waiting
    }

    /// Takes in one delivery of the one-shot subscription. The first one moves
    /// the cell to `Received`; any later one leaves it unchanged.
    pub fn deliver(&mut self, greeting: String)
        ensures
            final(self)@ == deliver_model(old(self)@, greeting@),
    {
        if let GreetEventState::Waiting = self {
            *self = GreetEventState::Received(greeting);
        }
    }

    /// Whether a delivery has landed.
    pub fn is_received(&self) -> (r: bool)
        ensures
            r == self@.is_some(),
    {
        match self {
            GreetEventState::Waiting => false,
            GreetEventState::Received(_) => true,
        }
    }

    /// The text displayed for this cell: the placeholder while waiting, the
    /// delivered greeting afterwards.
    pub fn display_text(&self) -> (r: String)
        ensures
            r@ == greet_event_text_model(self@),
    {
        match self {
            GreetEventState::Waiting => WAITING_TEXT.to_owned(),
            GreetEventState::Received(g) => g.clone(),
        }
    }
}

} // verus!
