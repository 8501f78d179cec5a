//! A per-subscriber rolling window over an event bus.
//!
//! Each drain moves every event currently pending on the subscription into a
//! bounded history, evicting the oldest entries first, and hands the newly
//! observed events back to the caller.  Draining is bounded by the number of
//! pending events and never waits for a future publish.

use crate::bus::{EventBus, ReceiveError, Subscription};
use vstd::prelude::*;

verus! {

/// The failure a drain surfaces once the underlying bus is torn down; the
/// retained history stays valid and usable.
#[derive(Clone, Copy, Debug, PartialEq, Eq, Structural)]
pub enum DrainError {
    ChannelClosed,
}

/// The `n` most recent elements of `s`, in order (all of `s` when it is shorter).
pub open spec fn take_last<T>(s: Seq<T>, n: int) -> Seq<T> {
    if s.len() <= n {
        s
    } else {
        s.skip(s.len() - n)
    }
}

/// Where a subscriber at sequence number `cursor` resumes reading when the
/// oldest available event is `first`: skipped ahead if it fell behind.
pub open spec fn resync_cursor(cursor: int, first: int) -> int {
    if cursor < first {
        first
    } else {
        cursor
    }
}

/// A subscription together with the bounded history of events drained from
/// it, oldest first.  At most `limit` events are retained.
pub struct EventQueue<T> {
    sub: Subscription,
    content: Vec<T>,
    limit: usize,
}

impl<T> EventQueue<T> {
    /// Sequence number of the next event this window has yet to observe.
    pub closed spec fn cursor(&self) -> int {
        self.sub@
    }

    /// The retained history, oldest first, most recent last.
    pub closed spec fn history(&self) -> Seq<T> {
        self.content@
    }

    /// How many drained events the window retains.
    pub closed spec fn limit(&self) -> int {
        self.limit as int
    }

    /// Validity with respect to the bus this window subscribes to.
    pub open spec fn wf(&self, bus: &EventBus<T>) -> bool {
        &&& self.cursor() <= bus.log().len()
        &&& self.history().len() <= self.limit()
    }

    /// Subscribes a fresh window to `bus`; it starts with an empty history
    /// and observes exactly the events published after this call.
    pub fn new(bus: &mut EventBus<T>, limit: usize) -> (r: EventQueue<T>)
        requires
            old(bus).wf(),
            old(bus).subscriber_count() < usize::MAX,
        ensures
            final(bus).wf(),
            final(bus).log() == old(bus).log(),
            final(bus).capacity() == old(bus).capacity(),
            final(bus).is_closed() == old(bus).is_closed(),
            final(bus).subscriber_count() == old(bus).subscriber_count() + 1,
            r.wf(final(bus)),
            r.history() == Seq::<T>::empty(),
            r.cursor() == old(bus).log().len(),
            r.limit() == limit,
    {
        EventQueue { sub: bus.subscribe(), content: Vec::new(), limit }
    }

    /// Read-only snapshot of the retained history, stable until the next drain.
    pub fn inner(&self) -> (r: &Vec<T>)
        ensures
            r@ == self.history(),
    {
        &self.content
    }
}

impl<T: Copy> EventQueue<T> {
    /// Drains every event currently pending on the subscription, in publish
    /// order, and returns the newly observed events.  Events overwritten
    /// while this subscriber lagged are skipped silently; the history keeps
    /// the `limit` most recent observed events.  The drain fails only when
    /// the bus has been torn down, and even then the history is updated
    /// first, so a caller can finish its frame from what is retained.
    pub fn drain(&mut self, bus: &EventBus<T>) -> (r: Result<Vec<T>, DrainError>)
        requires
            bus.wf(),
            old(self).wf(bus),
        ensures
            final(self).wf(bus),
            final(self).limit() == old(self).limit(),
            final(self).cursor() == bus.log().len(),
            final(self).history() == take_last(
                old(self).history() + bus.log().subrange(
                    resync_cursor(old(self).cursor(), bus.first_available()),
                    bus.log().len() as int,
                ),
                old(self).limit(),
            ),
            r matches Ok(v) ==> v@ == bus.log().subrange(
                resync_cursor(old(self).cursor(), bus.first_available()),
                bus.log().len() as int,
            ),
            r is Err <==> bus.is_closed(),
    {
        let ghost start = resync_cursor(old(self).cursor(), bus.first_available());
        proof {
            bus.lemma_first_available();
            self.sub.lemma_cursor_nonneg();
        }
        let mut received: Vec<T> = Vec::new();
        while self.sub.has_pending(bus)
            invariant
                bus.wf(),
                self.limit == old(self).limit,
                self.content@.len() <= self.limit,
                0 <= self.sub@ <= bus.log().len(),
                old(self).wf(bus),
                0 <= start <= bus.log().len(),
                start == resync_cursor(old(self).cursor(), bus.first_available()),
                (self.sub@ == old(self).cursor() && self.sub@ <= start && received@
                    == Seq::<T>::empty() && self.content@ == old(self).history()) || (start
                    <= self.sub@ && received@ == bus.log().subrange(start, self.sub@)
                    && self.content@ == take_last(
                    old(self).history() + received@,
                    self.limit as int,
                )),
            decreases bus.log().len() - self.sub@,
        {
            let ghost pre_received = received@;
            let ghost pre_cursor = self.sub@;
            let ghost pre_content = self.content@;
            proof {
                bus.lemma_first_available();
            }
            match self.sub.try_receive(bus) {
                Ok(event) => {
                    received.push(event);
                    self.content.push(event);
                    if self.content.len() > self.limit {
                        self.content.remove(0);
                    }
                    proof {
                        // An event came out, so no lag was pending: the
                        // cursor already stood at or past the resync point.
                        assert(bus.first_available() <= pre_cursor);
                        assert(start <= pre_cursor);
                        if pre_cursor <= start && pre_received == Seq::<T>::empty() {
                            // First event of a drain that never lagged.
                            assert(pre_cursor == start);
                            assert(pre_received =~= bus.log().subrange(start, pre_cursor));
                            assert(old(self).history() + pre_received =~= old(self).history());
                            assert(pre_content == take_last(
                                old(self).history() + pre_received,
                                self.limit as int,
                            ));
                        }
                        assert(event == bus.log()[pre_cursor]);
                        assert(received@ =~= bus.log().subrange(start, self.sub@));
                        lemma_take_last_extend(old(self).history() + pre_received, event,
                            self.limit as int);
                        assert((old(self).history() + pre_received).push(event) =~= old(
                            self,
                        ).history() + received@);
                        assert(self.content@ == take_last(
                            old(self).history() + received@,
                            self.limit as int,
                        ));
                    }
                }
                Err(_) => {
                    // Only a lag can occur while events are pending: the
                    // cursor jumps to the oldest available event and the
                    // skipped events are silently left out of the history.
                    proof {
                        assert(pre_cursor < bus.log().len());
                        assert(pre_cursor < bus.first_available());
                        assert(pre_cursor < start);
                        // The cursor was still short of the resync point, so
                        // nothing had been received yet.
                        assert(pre_received == Seq::<T>::empty());
                        assert(self.sub@ == bus.first_available());
                        assert(self.sub@ == start);
                        assert(received@ =~= bus.log().subrange(start, self.sub@));
                        assert(old(self).history() + received@ =~= old(self).history());
                        assert(self.content@ == take_last(
                            old(self).history() + received@,
                            self.limit as int,
                        ));
                    }
                }
            }
        }
        proof {
            bus.lemma_first_available();
            if self.sub@ == old(self).cursor() && received@ == Seq::<T>::empty() && self.content@
                == old(self).history() && self.sub@ <= start {
                assert(self.sub@ == bus.log().len());
                assert(start == bus.log().len());
                assert(received@ =~= bus.log().subrange(start, self.sub@));
                assert(old(self).history() + received@ =~= old(self).history());
            }
        }
        match self.sub.try_receive(bus) {
            Err(ReceiveError::Closed) => Err(DrainError::ChannelClosed),
            _ => Ok(received),
        }
    }

    /// Drains like `drain`, discarding the newly observed events; the
    /// history is updated all the same.
    pub fn process(&mut self, bus: &EventBus<T>) -> (r: Result<(), DrainError>)
        requires
            bus.wf(),
            old(self).wf(bus),
        ensures
            final(self).wf(bus),
            final(self).limit() == old(self).limit(),
            final(self).cursor() == bus.log().len(),
            final(self).history() == take_last(
                old(self).history() + bus.log().subrange(
                    resync_cursor(old(self).cursor(), bus.first_available()),
                    bus.log().len() as int,
                ),
                old(self).limit(),
            ),
            r is Err <==> bus.is_closed(),
    {
        match self.drain(bus) {
            Ok(_) => Ok(()),
            Err(e) => Err(e),
        }
    }
}

/// How one more element changes a bounded suffix: it is appended, and the
/// oldest element is evicted exactly when the suffix is already full.
proof fn lemma_take_last_extend<T>(q: Seq<T>, v: T, lim: int)
    requires
        lim >= 0,
    ensures
        take_last(q, lim).len() + 1 <= lim ==> take_last(q.push(v), lim) == take_last(
            q,
            lim,
        ).push(v),
        take_last(q, lim).len() + 1 > lim ==> take_last(q.push(v), lim) == take_last(
            q,
            lim,
        ).push(v).remove(0),
{
    if take_last(q, lim).len() + 1 <= lim {
        assert(take_last(q.push(v), lim) =~= take_last(q, lim).push(v));
    } else {
        assert(take_last(q.push(v), lim) =~= take_last(q, lim).push(v).remove(0));
    }
}

/// Bounded history law, pointwise: once at least `limit` events have been
/// observed, the history is full and holds exactly the `limit` most recent
/// of them, in order.
pub proof fn lemma_take_last_exact<T>(s: Seq<T>, limit: int)
    requires
        0 <= limit <= s.len(),
    ensures
        take_last(s, limit).len() == limit,
        forall|i: int| 0 <= i < limit ==> take_last(s, limit)[i] == s[s.len() - limit + i],
{
}

/// Bounded history law: maintaining a rolling history across several drains
/// yields the same history as one drain of the concatenated events.  Hence a
/// window of capacity `limit` that has observed the events `h + s`, in any
/// split, retains exactly the `limit` most recent of them, in publish order.
pub proof fn lemma_history_compose<T>(h: Seq<T>, s: Seq<T>, limit: int)
    requires
        limit >= 0,
    ensures
        take_last(take_last(h, limit) + s, limit) == take_last(h + s, limit),
{
    assert(take_last(take_last(h, limit) + s, limit) =~= take_last(h + s, limit));
}

} // verus!
