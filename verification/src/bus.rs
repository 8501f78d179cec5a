//! A bounded single-producer, multi-subscriber broadcast bus.
//!
//! Publishing never blocks: the bus retains only the most recent `capacity`
//! events, overwriting the oldest when full.  Each subscriber owns an
//! independent cursor into the publish order; a subscriber that falls behind
//! the retention window is told exactly how many events it missed and is
//! resynchronized to the oldest event still available, instead of failing.

use vstd::prelude::*;

verus! {

/// Why a publish delivered nothing.
#[derive(Clone, Copy, Debug, PartialEq, Eq, Structural)]
pub enum PublishError {
    /// No subscriber is currently registered; the event was dropped.
    NoSubscribers,
    /// The bus has been torn down.
    Closed,
}

/// Why `try_receive` produced no event.
#[derive(Clone, Copy, Debug, PartialEq, Eq, Structural)]
pub enum ReceiveError {
    /// No unread event is currently buffered.
    Empty,
    /// The subscriber fell behind: this many unread events were overwritten,
    /// and the cursor was resynchronized to the oldest available event.
    Lagged(u64),
    /// The bus has been torn down and every retained event has been read.
    Closed,
}

/// The shared side of the broadcast: the ring of retained events together
/// with a ghost log of everything ever published.
pub struct EventBus<T> {
    buf: Vec<T>,
    capacity: usize,
    published: u64,
    subscribers: usize,
    closed: bool,
    log: Ghost<Seq<T>>,
}

/// A subscriber's private cursor: the sequence number of the next event it
/// has yet to observe.  Its view is that sequence number.
pub struct Subscription {
    next: u64,
}

impl View for Subscription {
    type V = int;

    closed spec fn view(&self) -> int {
        self.next as int
    }
}

impl<T> EventBus<T> {
    /// All events ever published on this bus, in publish order.
    pub closed spec fn log(&self) -> Seq<T> {
        self.log@
    }

    /// How many of the most recent events the bus retains.
    pub closed spec fn capacity(&self) -> int {
        self.capacity as int
    }

    /// Whether the bus has been torn down.
    pub closed spec fn is_closed(&self) -> bool {
        self.closed
    }

    /// How many subscribers have registered.
    pub closed spec fn subscriber_count(&self) -> int {
        self.subscribers as int
    }

    /// The events still buffered, oldest first.
    pub closed spec fn retained(&self) -> Seq<T> {
        self.buf@
    }

    /// Sequence number of the oldest event still buffered; events before it
    /// have been overwritten.
    pub open spec fn first_available(&self) -> int {
        self.log().len() - self.retained().len()
    }

    /// Internal consistency: the buffer holds exactly the most recent
    /// `capacity` events of the log (all of them while the log is shorter).
    pub closed spec fn wf(&self) -> bool {
        &&& self.capacity > 0
        &&& self.published == self.log@.len()
        &&& self.buf@.len() == if self.log@.len() <= self.capacity as int {
            self.log@.len() as int
        } else {
            self.capacity as int
        }
        &&& self.buf@ == self.log@.skip(self.log@.len() - self.buf@.len())
    }

    /// Creates an empty open bus retaining at most `capacity` events.
    pub fn new(capacity: usize) -> (r: EventBus<T>)
        requires
            capacity > 0,
        ensures
            r.wf(),
            r.log() == Seq::<T>::empty(),
            r.capacity() == capacity,
            !r.is_closed(),
            r.subscriber_count() == 0,
    {
        let r = EventBus {
            buf: Vec::new(),
            capacity,
            published: 0,
            subscribers: 0,
            closed: false,
            log: Ghost(Seq::empty()),
        };
        assert(r.buf@ =~= r.log@.skip(r.log@.len() - r.buf@.len()));
        r
    }

    /// Registers a new subscriber.  Its cursor starts at the end of the log,
    /// so it observes exactly the events published after this call.
    pub fn subscribe(&mut self) -> (r: Subscription)
        requires
            old(self).wf(),
            old(self).subscriber_count() < usize::MAX,
        ensures
            final(self).wf(),
            final(self).log() == old(self).log(),
            final(self).capacity() == old(self).capacity(),
            final(self).is_closed() == old(self).is_closed(),
            final(self).subscriber_count() == old(self).subscriber_count() + 1,
            r@ == old(self).log().len(),
    {
        self.subscribers = self.subscribers + 1;
        Subscription { next: self.published }
    }

    /// Publishes one event without blocking.  On success the event is
    /// appended to the log and the oldest retained event is dropped if the
    /// bus was full; on failure nothing changes, so a producer can treat the
    /// error as non-fatal telemetry loss.
    pub fn publish(&mut self, event: T) -> (r: Result<(), PublishError>)
        requires
            old(self).wf(),
            old(self).log().len() < u64::MAX,
        ensures
            final(self).wf(),
            final(self).capacity() == old(self).capacity(),
            final(self).is_closed() == old(self).is_closed(),
            final(self).subscriber_count() == old(self).subscriber_count(),
            r is Ok <==> !old(self).is_closed() && old(self).subscriber_count() > 0,
            r is Ok ==> final(self).log() == old(self).log().push(event),
            r is Err ==> final(self).log() == old(self).log(),
            old(self).is_closed() ==> r == Err::<(), PublishError>(PublishError::Closed),
            !old(self).is_closed() && r is Err ==> r == Err::<(), PublishError>(
                PublishError::NoSubscribers,
            ),
    {
        if self.closed {
            return Err(PublishError::Closed);
        }
        if self.subscribers == 0 {
            return Err(PublishError::NoSubscribers);
        }
        if self.buf.len() == self.capacity {
            self.buf.remove(0);
        }
        self.buf.push(event);
        self.published = self.published + 1;
        proof {
            self.log@ = self.log@.push(event);
        }
        assert(self.buf@ =~= self.log@.skip(self.log@.len() - self.buf@.len()));
        Ok(())
    }

    /// Tears the bus down.  Retained events stay readable; once a subscriber
    /// has read them all it sees `Closed` instead of `Empty`.
    pub fn close(&mut self)
        requires
            old(self).wf(),
        ensures
            final(self).wf(),
            final(self).is_closed(),
            final(self).log() == old(self).log(),
            final(self).capacity() == old(self).capacity(),
            final(self).subscriber_count() == old(self).subscriber_count(),
            final(self).retained() == old(self).retained(),
    {
        self.closed = true;
    }

    /// Lag tolerance law: while the log fits the retention capacity nothing
    /// is ever skipped, and once it overflows, exactly the oldest
    /// `log.len() - capacity` events are gone — so a subscriber whose cursor
    /// predates them misses precisely the overwritten events and no others.
    pub proof fn lemma_first_available(&self)
        requires
            self.wf(),
        ensures
            self.capacity() > 0,
            0 <= self.first_available() <= self.log().len(),
            self.first_available() == if self.log().len() <= self.capacity() {
                0
            } else {
                self.log().len() - self.capacity()
            },
    {
    }
}

impl Subscription {
    /// A cursor is a position in the publish order, never negative.
    pub proof fn lemma_cursor_nonneg(&self)
        ensures
            0 <= self@,
    {
    }
}

impl Subscription {
    /// Whether at least one event published on `bus` is still unread.
    pub fn has_pending<T>(&self, bus: &EventBus<T>) -> (r: bool)
        requires
            bus.wf(),
            self@ <= bus.log().len(),
        ensures
            r <==> self@ < bus.log().len(),
    {
        self.next < bus.published
    }

    /// Pops the next unread event in publish order.  A subscriber that fell
    /// behind the retention capacity is resynchronized to the oldest
    /// available event and told how many it missed; it never fails
    /// permanently and never observes an event twice or out of order.
    pub fn try_receive<T: Copy>(&mut self, bus: &EventBus<T>) -> (r: Result<T, ReceiveError>)
        requires
            bus.wf(),
            old(self)@ <= bus.log().len(),
        ensures
            final(self)@ <= bus.log().len(),
            old(self)@ < bus.first_available() ==> r == Err::<T, ReceiveError>(
                ReceiveError::Lagged((bus.first_available() - old(self)@) as u64),
            ) && final(self)@ == bus.first_available(),
            bus.first_available() <= old(self)@ < bus.log().len() ==> r == Ok::<T, ReceiveError>(
                bus.log()[old(self)@],
            ) && final(self)@ == old(self)@ + 1,
            old(self)@ == bus.log().len() && !bus.is_closed() ==> r == Err::<T, ReceiveError>(
                ReceiveError::Empty,
            ) && final(self)@ == old(self)@,
            old(self)@ == bus.log().len() && bus.is_closed() ==> r == Err::<T, ReceiveError>(
                ReceiveError::Closed,
            ) && final(self)@ == old(self)@,
    {
        let first: u64 = bus.published - bus.buf.len() as u64;
        if self.next < first {
            let missed: u64 = first - self.next;
            self.next = first;
            Err(ReceiveError::Lagged(missed))
        } else if self.next < bus.published {
            let idx: usize = (self.next - first) as usize;
            let event: T = bus.buf[idx];
            self.next = self.next + 1;
            Ok(event)
        } else if bus.closed {
            Err(ReceiveError::Closed)
        } else {
            Err(ReceiveError::Empty)
        }
    }
}

} // verus!
