//! The event bus: a multicast, lossy-if-slow broadcast primitive.
//!
//! One bus carries the manager-level device add/remove feed; a second
//! instance per BLE peripheral forwards raw notification payloads for the
//! request/response primitive. A publisher never blocks: a listener that
//! falls more than the configured depth behind loses the oldest unread
//! events, and a listener subscribed after an event was published never
//! observes it.

use vstd::prelude::*;

verus! {

/// What one receive attempt yields.
#[derive(Debug)]
pub enum BusRecv<'a, T> {
    /// The next unread event.
    Event(&'a T),
    /// The listener fell behind and the carried number of events were
    /// dropped for it; it resumes at the oldest retained event.
    Lagged(usize),
    /// Nothing published beyond what the listener has already read.
    Empty,
}

/// A subscription to one [`EventBus`]: a cursor into the bus's history.
#[derive(Debug, Clone, Copy)]
pub struct BusListener {
    cursor: usize,
}

impl BusListener {
    /// The index into the bus's history of the next event this listener
    /// would read.
    pub closed spec fn spec_cursor(&self) -> int {
        self.cursor as int
    }
}

/// A broadcast channel that retains at most `depth` events: publishing is
/// always accepted, and each listener reads the retained events in order
/// from its own cursor.
pub struct EventBus<T> {
    /// Every event ever published, in order; only a suffix is retained.
    history: Ghost<Seq<T>>,
    /// The retained suffix of the history.
    buffer: Vec<T>,
    /// The index in the history of the first retained event.
    base: usize,
    /// How many events the bus retains at most.
    depth: usize,
}

impl<T> EventBus<T> {
    /// Every event ever published on this bus, oldest first.
    pub closed spec fn spec_history(&self) -> Seq<T> {
        self.history@
    }

    /// The history index of the oldest event still retained.
    pub closed spec fn spec_base(&self) -> int {
        self.base as int
    }

    /// The configured retention depth.
    pub closed spec fn spec_depth(&self) -> int {
        self.depth as int
    }

    /// The bus retains exactly the suffix of its history that starts at
    /// `base`, and that suffix is as full as the depth allows: the newest
    /// `depth` events, or the whole history while it is shorter.
    pub closed spec fn wf(&self) -> bool {
        &&& self.history@.len() <= usize::MAX
        &&& self.base + self.buffer@.len() == self.history@.len()
        &&& self.buffer@ == self.history@.subrange(self.base as int, self.history@.len() as int)
        &&& self.buffer@.len() == (if self.history@.len() <= self.depth {
            self.history@.len() as int
        } else {
            self.depth as int
        })
    }

    /// Creates a bus that will retain at most `depth` events.
    pub fn new(depth: usize) -> (r: Self)
        ensures
            r.wf(),
            r.spec_history() == Seq::<T>::empty(),
            r.spec_depth() == depth,
    {
        let r = EventBus {
            history: Ghost(Seq::empty()),
            buffer: Vec::new(),
            base: 0,
            depth,
        };
        proof {
            assert(r.buffer@ =~= r.history@.subrange(0, 0));
        }
        r
    }

    /// Publishes one event: it is appended to the history, and only if
    /// the bus already retained `depth` events is the oldest retained one
    /// dropped — well-formedness keeps retention full, so nothing within
    /// the depth is ever lost. Publishing never fails and never waits for
    /// listeners.
    pub fn publish(&mut self, event: T)
        requires
            old(self).wf(),
            old(self).spec_history().len() < usize::MAX,
        ensures
            final(self).wf(),
            final(self).spec_history() == old(self).spec_history().push(event),
            final(self).spec_depth() == old(self).spec_depth(),
            final(self).spec_base() >= old(self).spec_base(),
    {
        self.buffer.push(event);
        proof {
            self.history@ = self.history@.push(event);
        }
        if self.buffer.len() > self.depth {
            self.buffer.remove(0);
            self.base = self.base + 1;
        }
        proof {
            assert(self.buffer@ =~= self.history@.subrange(
                self.base as int,
                self.history@.len() as int,
            ));
        }
    }

    /// Subscribes a new listener. Its cursor starts at the end of the
    /// history, so it observes only events published strictly after this
    /// call: there is no replay.
    pub fn subscribe(&self) -> (r: BusListener)
        requires
            self.wf(),
        ensures
            r.spec_cursor() == self.spec_history().len(),
    {
        BusListener { cursor: self.buffer.len() + self.base }
    }

    /// One receive attempt for `listener`:
    /// - past the end of the history, nothing is there yet: `Empty`;
    /// - behind the oldest retained event, the listener lost the events
    ///   between its cursor and the retained suffix: `Lagged` with their
    ///   number, and the cursor resumes at the oldest retained event;
    /// - otherwise the event at the cursor is yielded, exactly once, and
    ///   the cursor moves one past it.
    pub fn recv<'a>(&'a self, listener: &mut BusListener) -> (r: BusRecv<'a, T>)
        requires
            self.wf(),
        ensures
            old(listener).spec_cursor() >= self.spec_history().len() ==> {
                &&& r is Empty
                &&& final(listener).spec_cursor() == old(listener).spec_cursor()
            },
            old(listener).spec_cursor() < self.spec_base() ==> {
                &&& (r matches BusRecv::Lagged(n)
                    && n == self.spec_base() - old(listener).spec_cursor())
                &&& final(listener).spec_cursor() == self.spec_base()
            },
            self.spec_base() <= old(listener).spec_cursor() < self.spec_history().len() ==> {
                &&& (r matches BusRecv::Event(e)
                    && *e == self.spec_history()[old(listener).spec_cursor()])
                &&& final(listener).spec_cursor() == old(listener).spec_cursor() + 1
            },
            final(listener).spec_cursor() == spec_cursor_after_recv(
                self.spec_base(),
                self.spec_history().len() as int,
                old(listener).spec_cursor(),
            ),
            r is Event <==> spec_recv_delivers(
                self.spec_base(),
                self.spec_history().len() as int,
                old(listener).spec_cursor(),
                old(listener).spec_cursor(),
            ),
    {
        if listener.cursor >= self.base + self.buffer.len() {
            BusRecv::Empty
        } else if listener.cursor < self.base {
            let missed: usize = self.base - listener.cursor;
            listener.cursor = self.base;
            BusRecv::Lagged(missed)
        } else {
            let idx: usize = listener.cursor - self.base;
            listener.cursor = listener.cursor + 1;
            BusRecv::Event(&self.buffer[idx])
        }
    }
}

/// Where a listener's cursor stands after one receive attempt on a bus with
/// the given history length and oldest retained index.
pub open spec fn spec_cursor_after_recv(base: int, history_len: int, cursor: int) -> int {
    if cursor >= history_len {
        cursor
    } else if cursor < base {
        base
    } else {
        cursor + 1
    }
}

/// Whether one receive attempt at `cursor` yields the event published at
/// history index `k`.
pub open spec fn spec_recv_delivers(base: int, history_len: int, cursor: int, k: int) -> bool {
    base <= cursor < history_len && cursor == k
}

/// A listener's cursor never moves backwards, and never skips an event that
/// is still retained: a receive either yields the event exactly at the
/// cursor or leaves the cursor at or below every retained unread event.
pub proof fn lemma_cursor_monotone(base: int, history_len: int, cursor: int)
    requires
        base <= history_len,
    ensures
        spec_cursor_after_recv(base, history_len, cursor) >= cursor,
{
}

/// At-most-once delivery: once a receive has yielded the event at index
/// `k`, the cursor stands past `k`, and since cursors never move backwards
/// no later receive on that listener yields that event again.
pub proof fn lemma_delivered_at_most_once(
    base: int,
    history_len: int,
    cursor: int,
    later_base: int,
    later_len: int,
    later_cursor: int,
    k: int,
)
    requires
        spec_recv_delivers(base, history_len, cursor, k),
        later_cursor >= spec_cursor_after_recv(base, history_len, cursor),
    ensures
        !spec_recv_delivers(later_base, later_len, later_cursor, k),
{
}

/// Delivery to every timely subscriber: a listener whose cursor stands at
/// or before a retained event `k` does not skip it — one receive either
/// yields exactly the event at `k` (when the cursor stands at `k`) or moves
/// the cursor closer to `k` without passing it.
pub proof fn lemma_no_skip(base: int, history_len: int, cursor: int, k: int)
    requires
        cursor <= k,
        base <= k < history_len,
    ensures
        spec_cursor_after_recv(base, history_len, cursor) <= k + 1,
        spec_cursor_after_recv(base, history_len, cursor) == k + 1
            ==> spec_recv_delivers(base, history_len, cursor, k),
{
}

/// A well-formed bus retains the newest events in full: the oldest
/// retained index is exactly the history length minus the depth, floored
/// at zero. Nothing within the retention depth is ever dropped.
pub proof fn lemma_full_retention<T>(bus: &EventBus<T>)
    requires
        bus.wf(),
    ensures
        bus.spec_base() == (if bus.spec_history().len() <= bus.spec_depth() {
            0int
        } else {
            bus.spec_history().len() - bus.spec_depth()
        }),
{
}

/// Timely delivery: a listener whose cursor stands no further than the
/// retention depth behind the end of a well-formed bus's history is not
/// lagged — its next receive yields exactly the event at its cursor.
pub proof fn lemma_timely_delivery<T>(bus: &EventBus<T>, cursor: int)
    requires
        bus.wf(),
        0 <= cursor < bus.spec_history().len(),
        bus.spec_history().len() - cursor <= bus.spec_depth(),
    ensures
        spec_recv_delivers(
            bus.spec_base(),
            bus.spec_history().len() as int,
            cursor,
            cursor,
        ),
{
    lemma_full_retention(bus);
}

/// No replay: a listener subscribed strictly after event `k` was published
/// starts with its cursor past `k`, and since cursors never move backwards
/// no receive ever yields event `k` to it.
pub proof fn lemma_no_replay(history_len_at_subscribe: int, cursor: int, base: int, history_len: int, k: int)
    requires
        k < history_len_at_subscribe,
        cursor >= history_len_at_subscribe,
    ensures
        !spec_recv_delivers(base, history_len, cursor, k),
{
}

} // verus!
