//! The shared event queue between the keyboard-scan interrupt and the main
//! dispatch loop.
//!
//! The interrupt handler pushes, the main loop pops while holding a
//! critical section, and arrival order is preserved: the backing vector
//! keeps the newest event at the front and gives up the oldest from the
//! back, so the queue is first-in first-out by arrival.  The view of the
//! queue is the pending events in arrival order, oldest first; both
//! mutation contracts are stated over that view.

use vstd::prelude::*;
use crate::critical::CriticalSection;
use crate::critical::InterruptState;

verus! {

/// One logical key transition: which key, and whether it went down or came
/// back up.  Immutable once constructed.
#[derive(Clone, Copy, Debug, PartialEq, Eq, Structural)]
pub struct ButtonEvent {
    /// The logical key, numbered by its raster line (see the keyboard
    /// module).
    pub button: u8,
    /// `true` for a down-transition, `false` for an up-transition.
    pub button_down: bool,
}

/// The buffer of pending input events.  Newest events are inserted at the
/// front of the backing vector and the oldest is removed from the back;
/// the view hides that convention and shows the pending events oldest
/// first.
pub struct EventQueue {
    items: Vec<ButtonEvent>,
}

impl View for EventQueue {
    type V = Seq<ButtonEvent>;

    /// The pending events in arrival order, oldest first.
    closed spec fn view(&self) -> Seq<ButtonEvent> {
        self.items@.reverse()
    }
}

impl EventQueue {
    /// An empty queue, as the firmware starts with.
    pub fn new() -> (q: EventQueue)
        ensures
            q@ == Seq::<ButtonEvent>::empty(),
    {
        let q = EventQueue { items: Vec::new() };
        proof {
            assert(q@ =~= Seq::<ButtonEvent>::empty());
        }
        q
    }

    /// How many events are pending.
    pub fn len(&self) -> (n: usize)
        ensures
            n == self@.len(),
    {
        self.items.len()
    }

    /// Inserts one event as the newest.  Called only from the interrupt
    /// handler, which the hardware keeps from re-entering itself.
    pub fn push(&mut self, event: ButtonEvent)
        ensures
            final(self)@ == old(self)@.push(event),
    {
        self.items.insert(0, event);
        proof {
            assert(self.items@.reverse() =~= old(self).items@.reverse().push(event));
        }
    }

    /// Removes and returns the oldest-by-arrival event, or `None` when the
    /// queue is empty, in which case nothing else changes.  Called only
    /// from main context while holding a critical section.
    pub fn pop(&mut self) -> (r: Option<ButtonEvent>)
        ensures
            old(self)@.len() == 0 ==> r is None && final(self)@ == old(self)@,
            old(self)@.len() > 0 ==> r == Some(old(self)@[0]) && final(self)@ == old(
                self,
            )@.drop_first(),
    {
        let r = self.items.pop();
        proof {
            if old(self).items@.len() > 0 {
                assert(old(self)@[0] == old(self).items@.last());
                assert(self.items@.reverse() =~= old(self).items@.reverse().drop_first());
            } else {
                assert(self.items@.reverse() =~= old(self).items@.reverse());
            }
        }
        r
    }
}

/// Pops the oldest pending event under an interrupt-masking critical
/// section, the only safe way for main-context code to touch the queue;
/// interrupt delivery is restored before the event is acted on.
pub fn pop_button_event(queue: &mut EventQueue, ints: &mut InterruptState) -> (r: Option<
    ButtonEvent,
>)
    requires
        old(ints).enabled,
    ensures
        final(ints).enabled,
        old(queue)@.len() == 0 ==> r is None && final(queue)@ == old(queue)@,
        old(queue)@.len() > 0 ==> r == Some(old(queue)@[0]) && final(queue)@ == old(
            queue,
        )@.drop_first(),
{
    let critical_section = CriticalSection::start(ints);
    let return_value = queue.pop();
    critical_section.end(ints);
    return_value
}

/// The queue contents after pushing the arrivals `ps`, in order, onto a
/// queue holding `q`: mirrors `EventQueue::push`.
pub open spec fn enqueue_all(q: Seq<ButtonEvent>, ps: Seq<ButtonEvent>) -> Seq<ButtonEvent>
    decreases ps.len(),
{
    if ps.len() == 0 {
        q
    } else {
        enqueue_all(q.push(ps.first()), ps.drop_first())
    }
}

/// The events returned by popping a queue holding `q` until it reports
/// empty: mirrors `EventQueue::pop`.
pub open spec fn drain_all(q: Seq<ButtonEvent>) -> Seq<ButtonEvent>
    decreases q.len(),
{
    if q.len() == 0 {
        Seq::empty()
    } else {
        seq![q.first()] + drain_all(q.drop_first())
    }
}

/// Pushing arrivals appends them in order to what is already pending.
pub proof fn lemma_enqueue_all(q: Seq<ButtonEvent>, ps: Seq<ButtonEvent>)
    ensures
        enqueue_all(q, ps) == q + ps,
    decreases ps.len(),
{
    if ps.len() == 0 {
        assert(enqueue_all(q, ps) =~= q + ps);
    } else {
        lemma_enqueue_all(q.push(ps.first()), ps.drop_first());
        assert(q.push(ps.first()) + ps.drop_first() =~= q + ps);
    }
}

/// Draining a queue returns exactly the pending events, in order.
pub proof fn lemma_drain_all(q: Seq<ButtonEvent>)
    ensures
        drain_all(q) == q,
    decreases q.len(),
{
    if q.len() == 0 {
        assert(drain_all(q) =~= q);
    } else {
        lemma_drain_all(q.drop_first());
        assert(seq![q.first()] + q.drop_first() =~= q);
    }
}

/// First-in first-out: for any arrivals pushed onto an initially empty
/// queue, popping until empty returns them in arrival order.
pub proof fn lemma_fifo(ps: Seq<ButtonEvent>)
    ensures
        drain_all(enqueue_all(Seq::empty(), ps)) == ps,
{
    lemma_enqueue_all(Seq::empty(), ps);
    assert(Seq::empty() + ps =~= ps);
    lemma_drain_all(ps);
}

} // verus!
