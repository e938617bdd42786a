//! The event handler registry: handlers kept in registration order, each
//! under the event it listens for. Calling them is up to the embedding
//! program; the registry says which to call, and in what order.

use vstd::prelude::*;
use crate::protocol::Event;

verus! {

/// The positions, among the first `n` registrations, of those for `event`,
/// in increasing order.
pub open spec fn positions(events: Seq<Event>, event: Event, n: nat) -> Seq<usize>
    decreases n,
{
    if n == 0 {
        Seq::empty()
    } else {
        let before = positions(events, event, (n - 1) as nat);
        if events[n - 1] == event {
            before.push((n - 1) as usize)
        } else {
            before
        }
    }
}

/// A table from events to the handlers registered for them.
pub struct HandlerRegistry<H> {
    entries: Vec<(Event, H)>,
}

impl<H> HandlerRegistry<H> {
    /// The event of each registration, in registration order.
    pub closed spec fn events(&self) -> Seq<Event> {
        self.entries@.map_values(|e: (Event, H)| e.0)
    }

    /// The handler of each registration, in registration order.
    pub closed spec fn handlers(&self) -> Seq<H> {
        self.entries@.map_values(|e: (Event, H)| e.1)
    }

    /// One event and one handler for each registration.
    pub proof fn lemma_lengths(&self)
        ensures
            self.events().len() == self.handlers().len(),
    {
    }

    pub fn new() -> (r: HandlerRegistry<H>)
        ensures
            r.events() == Seq::<Event>::empty(),
            r.handlers() == Seq::<H>::empty(),
    {
        let r = HandlerRegistry { entries: Vec::new() };
        assert(r.events() =~= Seq::<Event>::empty());
        assert(r.handlers() =~= Seq::<H>::empty());
        r
    }

    /// Adds `handler` for `event` after every earlier registration.
    pub fn register(&mut self, event: Event, handler: H)
        ensures
            final(self).events() == old(self).events().push(event),
            final(self).handlers() == old(self).handlers().push(handler),
    {
        self.entries.push((event, handler));
        assert(final(self).events() =~= old(self).events().push(event));
        assert(final(self).handlers() =~= old(self).handlers().push(handler));
    }

    /// The number of registrations.
    pub fn len(&self) -> (r: usize)
        ensures
            r == self.events().len(),
            r == self.handlers().len(),
    {
        self.entries.len()
    }

    /// The handler of registration `i`.
    pub fn handler(&self, i: usize) -> (r: &H)
        requires
            i < self.handlers().len(),
        ensures
            *r == self.handlers()[i as int],
    {
        &self.entries[i].1
    }

    /// The registrations to call for `event`: all of them, in the order in
    /// which they were made.
    pub fn handlers_for(&self, event: Event) -> (r: Vec<usize>)
        ensures
            r@ == positions(self.events(), event, self.events().len()),
            forall|j: int| 0 <= j < r@.len() ==> r@[j] < self.events().len(),
    {
        let mut out: Vec<usize> = Vec::new();
        let mut i: usize = 0;
        while i < self.entries.len()
            invariant
                0 <= i <= self.entries@.len(),
                out@ == positions(self.events(), event, i as nat),
                forall|j: int| 0 <= j < out@.len() ==> out@[j] < i,
            decreases self.entries@.len() - i,
        {
            if self.entries[i].0 == event {
                out.push(i);
            }
            i = i + 1;
        }
        out
    }
}

/// Dispatch reaches every handler registered for the event, each once, in
/// registration order, whatever the other handlers are.
pub proof fn lemma_dispatch_reaches_all(events: Seq<Event>, event: Event, n: nat)
    requires
        n <= events.len(),
        n <= usize::MAX,
    ensures
        forall|i: int|
            0 <= i < n ==> (events[i] == event <==> positions(events, event, n).contains(
                i as usize,
            )),
        forall|j: int, k: int|
            0 <= j < k < positions(events, event, n).len() ==> positions(events, event, n)[j]
                < positions(events, event, n)[k],
        forall|j: int|
            0 <= j < positions(events, event, n).len() ==> positions(events, event, n)[j] < n,
    decreases n,
{
    if n > 0 {
        lemma_dispatch_reaches_all(events, event, (n - 1) as nat);
        let before = positions(events, event, (n - 1) as nat);
        let now = positions(events, event, n);
        assert forall|j: int| 0 <= j < now.len() implies now[j] < n by {
            if j < before.len() {
                assert(now[j] == before[j]);
            }
        }
        assert forall|j: int, k: int| 0 <= j < k < now.len() implies now[j] < now[k] by {
            if k < before.len() {
                assert(now[j] == before[j] && now[k] == before[k]);
            } else {
                assert(now[j] == before[j]);
                assert(before[j] < n - 1);
            }
        }
        assert forall|i: int| 0 <= i < n implies (events[i] == event <==> now.contains(i as usize)) by {
            if i < n - 1 {
                if now.contains(i as usize) && events[i] != event {
                    let w = choose|w: int| 0 <= w < now.len() && now[w] == i as usize;
                    if w < before.len() {
                        assert(before[w] == now[w]);
                        assert(before.contains(i as usize));
                    } else {
                        assert(now[w] == (n - 1) as usize);
                    }
                }
                if events[i] == event {
                    assert(before.contains(i as usize));
                    let w = choose|w: int| 0 <= w < before.len() && before[w] == i as usize;
                    assert(now[w] == i as usize);
                }
            } else {
                if events[i] == event {
                    assert(now[now.len() - 1] == i as usize);
                } else {
                    if now.contains(i as usize) {
                        let w = choose|w: int| 0 <= w < now.len() && now[w] == i as usize;
                        assert(now[w] == before[w]);
                        assert(before[w] < n - 1);
                    }
                }
            }
        }
    }
}

} // verus!
