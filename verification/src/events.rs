//! Events are surfaced by the library to indicate some action must be taken
//! by the end-user.
//!
//! Because we don't have a built-in runtime, it's up to the end-user to poll
//! the queue to receive events.

use std::collections::VecDeque;

use vstd::prelude::*;

use crate::lsps1;
use crate::lsps1::event::{LSPS1ClientEvent, LSPS1ServiceEvent};
use crate::lsps2::event::{LSPS2ClientEvent, LSPS2Event, LSPS2ServiceEvent};

verus! {

/// Event which you should probably take some action in response to.
#[derive(Clone, Debug, PartialEq, Eq)]
pub enum Event {
    /// An LSPS2 (JIT Channel) protocol event.
    LSPS2(LSPS2Event),
    /// An LSPS1 protocol event.
    LSPS1(lsps1::event::Event),
    /// An LSPS1 client event.
    LSPS1Client(LSPS1ClientEvent),
    /// An LSPS1 server event.
    LSPS1Service(LSPS1ServiceEvent),
    /// An LSPS2 (JIT Channel) client event.
    LSPS2Client(LSPS2ClientEvent),
    /// An LSPS2 (JIT Channel) server event.
    LSPS2Service(LSPS2ServiceEvent),
}

/// The events that wait to be taken, in the order in which they came.
pub struct EventQueue {
    queue: VecDeque<Event>,
}

impl View for EventQueue {
    type V = Seq<Event>;

    closed spec fn view(&self) -> Seq<Event> {
        self.queue@
    }
}

impl EventQueue {
    /// Creates an empty queue.
    pub fn new() -> (queue: Self)
        ensures
            queue@ == Seq::<Event>::empty(),
    {
        EventQueue { queue: VecDeque::new() }
    }

    /// Adds an event at the end of the queue.
    pub fn enqueue(&mut self, event: Event)
        ensures
            final(self)@ == old(self)@.push(event),
    {
        self.queue.push_back(event);
    }

    /// Takes the event at the front of the queue.
    pub fn next_event(&mut self) -> (event: Option<Event>)
        ensures
            match event {
                Some(event) => old(self)@.len() > 0 && event == old(self)@.first()
                    && final(self)@ == old(self)@.drop_first(),
                None => old(self)@.len() == 0 && final(self)@ == old(self)@,
            },
    {
        let event = self.queue.pop_front();
        proof {
            if old(self)@.len() > 0 {
                assert(self@ =~= old(self)@.drop_first());
            } else {
                assert(self@ =~= old(self)@);
            }
        }
        event
    }

    /// Returns whether no event waits.
    pub fn is_empty(&self) -> (empty: bool)
        ensures
            empty == (self@.len() == 0),
    {
        self.queue.len() == 0
    }

    /// Takes the event at the front of a queue that is not empty, and tells whether another
    /// waiter is to be woken because events remain.
    pub fn wait_next_event(&mut self) -> (event: (Event, bool))
        requires
            old(self)@.len() > 0,
        ensures
            event.0 == old(self)@.first(),
            final(self)@ == old(self)@.drop_first(),
            event.1 == (final(self)@.len() > 0),
    {
        let event = match self.next_event() {
            Some(event) => event,
            None => vstd::pervasive::unreached(),
        };
        let should_notify = !self.is_empty();
        (event, should_notify)
    }

    /// Takes all events, in order.
    pub fn get_and_clear_pending_events(&mut self) -> (events: Vec<Event>)
        ensures
            events@ == old(self)@,
            final(self)@ == Seq::<Event>::empty(),
    {
        let mut events: Vec<Event> = Vec::new();
        while self.queue.len() > 0
            invariant
                events@ + self@ == old(self)@,
            decreases self@.len(),
        {
            let ghost before = self@;
            if let Some(event) = self.next_event() {
                events.push(event);
                assert(before =~= seq![event] + self@);
                assert(events@ + self@ =~= old(self)@);
            }
        }
        assert(self@ =~= Seq::<Event>::empty());
        assert(events@ + self@ =~= events@);
        events
    }
}

/// Events are taken in the order in which they came, each once.
pub proof fn lemma_events_are_taken_in_order(
    queue: &mut EventQueue,
    event: Event,
    enqueued: (),
    later: &mut EventQueue,
    taken: Option<Event>,
)
    requires
        call_ensures(EventQueue::enqueue, (queue, event), enqueued),
        call_ensures(EventQueue::next_event, (later, ), taken),
    ensures
        final(queue)@.len() == old(queue)@.len() + 1,
        final(queue)@.last() == event,
        forall|i: int| 0 <= i < old(queue)@.len() ==> #[trigger] final(queue)@[i] == old(queue)@[i],
        taken is None <==> old(later)@.len() == 0,
        taken is Some ==> {
            &&& taken->0 == old(later)@[0]
            &&& final(later)@.len() == old(later)@.len() - 1
            &&& forall|i: int|
                0 <= i < final(later)@.len() ==> #[trigger] final(later)@[i] == old(later)@[i + 1]
        },
        taken is None ==> final(later)@ == old(later)@,
{
}

/// Whether events wait is told as it is, and taking all of them gives them in order and leaves none.
pub proof fn lemma_waiting_events_are_told(
    queue: EventQueue,
    empty: bool,
    first: &mut EventQueue,
    event: (Event, bool),
    all: &mut EventQueue,
    events: Vec<Event>,
)
    requires
        call_ensures(EventQueue::is_empty, (&queue, ), empty),
        call_ensures(EventQueue::wait_next_event, (first, ), event),
        call_ensures(EventQueue::get_and_clear_pending_events, (all, ), events),
        old(first)@.len() > 0,
    ensures
        empty <==> queue@.len() == 0,
        event.0 == old(first)@[0],
        event.1 <==> old(first)@.len() > 1,
        final(first)@.len() == old(first)@.len() - 1,
        forall|i: int|
            0 <= i < final(first)@.len() ==> #[trigger] final(first)@[i] == old(first)@[i + 1],
        events@ == old(all)@,
        final(all)@.len() == 0,
{
}

} // verus!
