use vstd::prelude::*;

verus! {

/// One delivered `generic-event` payload.
#[derive(Clone, PartialEq, Eq, Debug)]
pub struct GenericEventRes {
    num: u16,
    message: String,
}

impl View for GenericEventRes {
    type V = (u16, Seq<char>);

    closed spec fn view(&self) -> (u16, Seq<char>) {
        (self.num, self.message@)
    }
}

impl GenericEventRes {
    pub fn new(num: u16, message: String) -> (r: Self)
        ensures
            r@ == (num, message@),
    {
        GenericEventRes { num, message }
    }

    /// The key under which the event is rendered.
    pub fn num(&self) -> (r: u16)
        ensures
            r == self@.0,
    {
        self.num
    }

    pub fn message(&self) -> (r: &String)
        ensures
            r@ == self@.1,
    {
        &self.message
    }
}

/// The views of a sequence of events.
pub open spec fn events_view(v: Seq<GenericEventRes>) -> Seq<(u16, Seq<char>)> {
    v.map_values(|e: GenericEventRes| e@)
}

/// Records the next payload of the subscription at the end of the list.
/// Nothing is dropped or merged: an event that repeats a `num` is a new entry.
pub fn append_event(events: &mut Vec<GenericEventRes>, event: GenericEventRes)
    ensures
        events_view(final(events)@) == events_view(old(events)@).push(event@),
{
    events.push(event);
    proof {
        assert(events_view(final(events)@) =~= events_view(old(events)@).push(event@));
    }
}

/// The messages that the list renders, in order of delivery.
pub fn event_messages(events: &Vec<GenericEventRes>) -> (r: Vec<String>)
    ensures
        r@.len() == events@.len(),
        forall|i: int| 0 <= i < r@.len() ==> #[trigger] r@[i]@ == events@[i]@.1,
{
    let mut r: Vec<String> = Vec::new();
    let mut i: usize = 0;
    while i < events.len()
        invariant
            i <= events@.len(),
            r@.len() == i,
            forall|j: int| 0 <= j < i ==> #[trigger] r@[j]@ == events@[j]@.1,
        decreases events@.len() - i,
    {
        r.push(events[i].message.clone());
        i = i + 1;
    }
    r
}

/// Handles a click on "emit generic event": returns the number to send with
/// the emit command, which is the counter's current value, and advances the
/// counter by one.
pub fn dispatch_emit(counter: &mut u16) -> (num: u16)
    requires
        *old(counter) < u16::MAX,
    ensures
        num == *old(counter),
        *final(counter) == *old(counter) + 1,
{
    let num = *counter;
    *counter = num + 1;
    num
}

} // verus!
