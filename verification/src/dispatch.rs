//! The main-context dispatch loop's decision logic.
//!
//! The loop runs forever: open a critical section, pop, close it again
//! before acting — so the potentially slow display refresh never holds
//! interrupts masked — then either forward a down-transition to the
//! calculator state and repaint the display, merely observe an
//! up-transition, or, with the queue empty, execute the idle instruction
//! and re-check on wake.  The loop body's outside work (the calculator
//! update, the bus traffic, the idle instruction) is performed by the
//! caller; the decision each iteration takes is computed and proved here.

use vstd::prelude::*;
use crate::critical::InterruptState;
use crate::events::ButtonEvent;
use crate::events::EventQueue;
use crate::events::pop_button_event;

verus! {

/// What one dispatch iteration asks the caller to do.
#[derive(Clone, Copy, Debug, PartialEq, Eq, Structural)]
pub enum DispatchAction {
    /// Forward the key to the calculator state, then repaint the display
    /// from the updated image: done for a down-transition.
    ApplyAndRefresh { button: u8 },
    /// An up-transition: observed, not acted on.
    Observe,
    /// The queue was empty: execute the idle instruction, which suspends
    /// until any interrupt fires, then re-check the queue.
    Idle,
}

/// The decision for one popped value: down-transitions are applied and
/// followed by a repaint, up-transitions only observed, an empty queue
/// idles the processor.
pub open spec fn spec_decide(popped: Option<ButtonEvent>) -> DispatchAction {
    match popped {
        None => DispatchAction::Idle,
        Some(e) => if e.button_down {
            DispatchAction::ApplyAndRefresh { button: e.button }
        } else {
            DispatchAction::Observe
        },
    }
}

/// Decides what to do with one popped value: exactly `spec_decide`.
pub fn decide(popped: Option<ButtonEvent>) -> (a: DispatchAction)
    ensures
        a == spec_decide(popped),
{
    match popped {
        None => DispatchAction::Idle,
        Some(e) => if e.button_down {
            DispatchAction::ApplyAndRefresh { button: e.button }
        } else {
            DispatchAction::Observe
        },
    }
}

/// One iteration of the dispatch loop up to its action: pops the oldest
/// pending event under a critical section — closed again before the
/// action is taken — and decides.  Events are consumed in arrival order,
/// one per iteration, never concurrently with the scan handler.
pub fn dispatch_once(queue: &mut EventQueue, ints: &mut InterruptState) -> (a: DispatchAction)
    requires
        old(ints).enabled,
    ensures
        final(ints).enabled,
        old(queue)@.len() == 0 ==> a == DispatchAction::Idle && final(queue)@ == old(queue)@,
        old(queue)@.len() > 0 ==> a == spec_decide(Some(old(queue)@[0])) && final(queue)@ == old(
            queue,
        )@.drop_first(),
{
    let popped = pop_button_event(queue, ints);
    decide(popped)
}

/// The actions a full drain takes: one decision per pending event, in
/// arrival order, as `dispatch_once` consumes them.  The drain ends with
/// one further `Idle` once the queue reports empty, not listed here.
pub open spec fn drain_actions(arrivals: Seq<ButtonEvent>) -> Seq<DispatchAction>
    decreases arrivals.len(),
{
    if arrivals.len() == 0 {
        Seq::empty()
    } else {
        seq![spec_decide(Some(arrivals.first()))] + drain_actions(arrivals.drop_first())
    }
}

/// The keys a sequence of actions forwards to the calculator state, in
/// order; each such forward is followed by exactly one display repaint.
pub open spec fn applied_buttons(actions: Seq<DispatchAction>) -> Seq<u8>
    decreases actions.len(),
{
    if actions.len() == 0 {
        Seq::empty()
    } else {
        match actions.first() {
            DispatchAction::ApplyAndRefresh { button } => seq![button] + applied_buttons(
                actions.drop_first(),
            ),
            _ => applied_buttons(actions.drop_first()),
        }
    }
}

/// The keys of the down-transitions of an event sequence, in order.
pub open spec fn down_buttons(events: Seq<ButtonEvent>) -> Seq<u8>
    decreases events.len(),
{
    if events.len() == 0 {
        Seq::empty()
    } else if events.first().button_down {
        seq![events.first().button] + down_buttons(events.drop_first())
    } else {
        down_buttons(events.drop_first())
    }
}

/// Draining forwards exactly the down-transitions' keys, in arrival
/// order: one apply and one repaint per down-transition, none for
/// up-transitions.
pub proof fn lemma_drain_applies(arrivals: Seq<ButtonEvent>)
    ensures
        applied_buttons(drain_actions(arrivals)) == down_buttons(arrivals),
    decreases arrivals.len(),
{
    if arrivals.len() > 0 {
        let first_action = spec_decide(Some(arrivals.first()));
        let rest = drain_actions(arrivals.drop_first());
        assert((seq![first_action] + rest).first() == first_action);
        assert((seq![first_action] + rest).drop_first() =~= rest);
        lemma_drain_applies(arrivals.drop_first());
    }
}

/// A single down-transition for key `k`, drained: exactly one apply of
/// `k` (and with it exactly one repaint).
pub proof fn lemma_dispatch_single_down(k: u8)
    ensures
        drain_actions(seq![ButtonEvent { button: k, button_down: true }]) == seq![
            DispatchAction::ApplyAndRefresh { button: k },
        ],
{
    let arrivals = seq![ButtonEvent { button: k, button_down: true }];
    assert(arrivals.drop_first() =~= Seq::<ButtonEvent>::empty());
    assert(drain_actions(Seq::<ButtonEvent>::empty()) =~= Seq::<DispatchAction>::empty());
    assert(drain_actions(arrivals) =~= seq![DispatchAction::ApplyAndRefresh { button: k }]);
}

/// A single up-transition, drained: it is observed only, no apply and no
/// repaint.
pub proof fn lemma_dispatch_single_up(k: u8)
    ensures
        drain_actions(seq![ButtonEvent { button: k, button_down: false }]) == seq![
            DispatchAction::Observe,
        ],
        applied_buttons(drain_actions(seq![ButtonEvent { button: k, button_down: false }]))
            == Seq::<u8>::empty(),
{
    let arrivals = seq![ButtonEvent { button: k, button_down: false }];
    assert(arrivals.drop_first() =~= Seq::<ButtonEvent>::empty());
    assert(drain_actions(Seq::<ButtonEvent>::empty()) =~= Seq::<DispatchAction>::empty());
    assert(drain_actions(arrivals) =~= seq![DispatchAction::Observe]);
    lemma_drain_applies(arrivals);
    assert(down_buttons(Seq::<ButtonEvent>::empty()) =~= Seq::<u8>::empty());
    assert(down_buttons(arrivals) =~= Seq::<u8>::empty());
}

/// End to end: push any arrivals onto an empty queue, drain it, and the
/// calculator state sees exactly the down-transitions' keys, in arrival
/// order.
pub proof fn lemma_dispatch_end_to_end(arrivals: Seq<ButtonEvent>)
    ensures
        applied_buttons(
            drain_actions(
                crate::events::drain_all(crate::events::enqueue_all(Seq::empty(), arrivals)),
            ),
        ) == down_buttons(arrivals),
{
    crate::events::lemma_fifo(arrivals);
    lemma_drain_applies(arrivals);
}

} // verus!
