//! The reload channel: a broadcast of reload events to any number of
//! subscribers.
//!
//! The hub records every published event; a subscriber is a cursor into that
//! record.  A subscriber that falls more than the hub's capacity behind is
//! lagged: it skips ahead and misses events instead of holding anything back.
//! Publication never consults the subscribers, so a slow or vanished
//! subscriber cannot stall it.

use vstd::prelude::*;

verus! {

/// What a connected browser should do: re-fetch the data only, or reload the
/// whole page.
#[derive(Debug, Copy, Clone, PartialEq, Eq)]
pub enum ReloadKind {
    Value,
    Page,
}

/// One poll of a subscriber: nothing new yet, the next event, or a note that
/// `missed` events were dropped because the subscriber fell behind.
#[derive(Debug, Copy, Clone, PartialEq, Eq)]
pub enum Poll {
    Empty,
    Event(ReloadKind),
    Lagged(usize),
}

/// The broadcast hub.  `history` is every event published so far; only the
/// most recent `capacity` of them are still deliverable.
pub struct ReloadHub {
    history: Vec<ReloadKind>,
    capacity: usize,
}

/// A per-subscriber cursor into the hub's event record.
pub struct Subscriber {
    cursor: usize,
}

/// What one poll returns and where it leaves the cursor, given the events
/// published so far, the hub's capacity, and the subscriber's cursor.
pub open spec fn poll_outcome(events: Seq<ReloadKind>, capacity: nat, cursor: nat) -> (Poll, nat) {
    if events.len() <= cursor {
        (Poll::Empty, cursor)
    } else if events.len() - cursor <= capacity {
        (Poll::Event(events[cursor as int]), cursor + 1)
    } else {
        (Poll::Lagged((events.len() - capacity - cursor) as usize), (events.len() - capacity) as nat)
    }
}

impl ReloadHub {
    /// The events published so far, oldest first.
    pub closed spec fn events(&self) -> Seq<ReloadKind> {
        self.history@
    }

    /// How far behind a subscriber may fall before it is lagged.
    pub closed spec fn capacity(&self) -> nat {
        self.capacity as nat
    }

    /// A hub with no events published yet.  A capacity of zero could deliver
    /// nothing at all, so it is excluded.
    pub fn new(capacity: usize) -> (r: ReloadHub)
        requires
            capacity >= 1,
        ensures
            r.events() == Seq::<ReloadKind>::empty(),
            r.capacity() == capacity,
    {
        ReloadHub { history: Vec::new(), capacity }
    }

    /// Broadcasts `kind` to the subscribers.  The hub alone changes: no
    /// subscriber, however slow or long gone, is consulted or waited for.
    pub fn publish(&mut self, kind: ReloadKind)
        ensures
            final(self).events() == old(self).events().push(kind),
            final(self).capacity() == old(self).capacity(),
    {
        self.history.push(kind);
    }

    /// A new subscriber, which will see exactly the events published after
    /// this point, in publish order, as long as it keeps up.
    pub fn subscribe(&self) -> (r: Subscriber)
        ensures
            r.cursor() == self.events().len(),
    {
        Subscriber { cursor: self.history.len() }
    }
}

impl Subscriber {
    /// How many of the hub's events this subscriber has already seen.
    pub closed spec fn cursor(&self) -> nat {
        self.cursor as nat
    }

    /// Takes the next event, if any.  A subscriber more than `capacity`
    /// events behind is lagged: it skips to the oldest deliverable event and
    /// is told how many it missed.
    pub fn poll(&mut self, hub: &ReloadHub) -> (r: Poll)
        ensures
            (r, final(self).cursor()) == poll_outcome(
                hub.events(),
                hub.capacity(),
                old(self).cursor(),
            ),
    {
        let len = hub.history.len();
        if len <= self.cursor {
            Poll::Empty
        } else if len - self.cursor <= hub.capacity {
            let kind = hub.history[self.cursor];
            self.cursor = self.cursor + 1;
            Poll::Event(kind)
        } else {
            let missed = len - hub.capacity - self.cursor;
            self.cursor = len - hub.capacity;
            Poll::Lagged(missed)
        }
    }
}

/// The wire payload a push connection sends for an event: one marker asks
/// the browser to re-fetch the data only, the other to reload the page.
pub fn event_payload(kind: ReloadKind) -> (r: &'static str)
    ensures
        kind is Value ==> r@ == "reload_value"@,
        kind is Page ==> r@ == "reload_page"@,
{
    match kind {
        ReloadKind::Value => "reload_value",
        ReloadKind::Page => "reload_page",
    }
}

/// A subscriber that was up to date when one event was published observes
/// exactly that event: the next poll delivers it and the one after finds
/// nothing.
pub proof fn lemma_subscriber_sees_one_event(
    events: Seq<ReloadKind>,
    capacity: nat,
    kind: ReloadKind,
)
    requires
        capacity >= 1,
    ensures
        poll_outcome(events.push(kind), capacity, events.len()) == (
            Poll::Event(kind),
            events.len() + 1,
        ),
        poll_outcome(events.push(kind), capacity, events.len() + 1).0 == Poll::Empty,
{
    assert(events.push(kind)[events.len() as int] == kind);
}

/// Order is kept: as long as a subscriber does not lag, consecutive polls
/// deliver the hub's events exactly in publish order.
pub proof fn lemma_events_in_publish_order(events: Seq<ReloadKind>, capacity: nat, cursor: nat)
    requires
        cursor < events.len(),
        events.len() - cursor <= capacity,
    ensures
        poll_outcome(events, capacity, cursor) == (Poll::Event(events[cursor as int]), cursor + 1),
{
}

} // verus!
