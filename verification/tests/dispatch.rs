use calc_core::critical::InterruptState;
use calc_core::dispatch::decide;
use calc_core::dispatch::dispatch_once;
use calc_core::dispatch::DispatchAction;
use calc_core::events::ButtonEvent;
use calc_core::events::EventQueue;

#[test]
fn decide_down_event_applies_and_refreshes() {
    let e = ButtonEvent { button: 12, button_down: true };
    assert_eq!(decide(Some(e)), DispatchAction::ApplyAndRefresh { button: 12 });
}

#[test]
fn decide_up_event_is_only_observed() {
    let e = ButtonEvent { button: 12, button_down: false };
    assert_eq!(decide(Some(e)), DispatchAction::Observe);
}

#[test]
fn decide_empty_queue_idles() {
    assert_eq!(decide(None), DispatchAction::Idle);
}

#[test]
fn draining_one_down_event_applies_it_exactly_once() {
    let mut ints = InterruptState { enabled: true };
    let mut q = EventQueue::new();
    q.push(ButtonEvent { button: 7, button_down: true });
    let mut applies = Vec::new();
    loop {
        match dispatch_once(&mut q, &mut ints) {
            DispatchAction::ApplyAndRefresh { button } => applies.push(button),
            DispatchAction::Observe => {}
            DispatchAction::Idle => break,
        }
        assert!(ints.enabled);
    }
    assert_eq!(applies, vec![7]);
}

#[test]
fn draining_one_up_event_applies_nothing() {
    let mut ints = InterruptState { enabled: true };
    let mut q = EventQueue::new();
    q.push(ButtonEvent { button: 7, button_down: false });
    let mut applies: Vec<u8> = Vec::new();
    let mut observed = 0;
    loop {
        match dispatch_once(&mut q, &mut ints) {
            DispatchAction::ApplyAndRefresh { button } => applies.push(button),
            DispatchAction::Observe => observed += 1,
            DispatchAction::Idle => break,
        }
    }
    assert!(applies.is_empty());
    assert_eq!(observed, 1);
}

#[test]
fn draining_applies_down_events_in_arrival_order() {
    let mut ints = InterruptState { enabled: true };
    let mut q = EventQueue::new();
    q.push(ButtonEvent { button: 1, button_down: true });
    q.push(ButtonEvent { button: 1, button_down: false });
    q.push(ButtonEvent { button: 2, button_down: true });
    q.push(ButtonEvent { button: 3, button_down: true });
    let mut applies = Vec::new();
    loop {
        match dispatch_once(&mut q, &mut ints) {
            DispatchAction::ApplyAndRefresh { button } => applies.push(button),
            DispatchAction::Observe => {}
            DispatchAction::Idle => break,
        }
    }
    assert_eq!(applies, vec![1, 2, 3]);
    assert!(ints.enabled);
}
