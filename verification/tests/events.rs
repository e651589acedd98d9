use calc_core::critical::CriticalSection;
use calc_core::critical::InterruptState;
use calc_core::events::pop_button_event;
use calc_core::events::ButtonEvent;
use calc_core::events::EventQueue;

fn down(button: u8) -> ButtonEvent {
    ButtonEvent { button, button_down: true }
}

fn up(button: u8) -> ButtonEvent {
    ButtonEvent { button, button_down: false }
}

#[test]
fn queue_is_fifo() {
    let mut q = EventQueue::new();
    q.push(down(1));
    q.push(up(1));
    q.push(down(2));
    assert_eq!(q.pop(), Some(down(1)));
    assert_eq!(q.pop(), Some(up(1)));
    assert_eq!(q.pop(), Some(down(2)));
    assert_eq!(q.pop(), None);
}

#[test]
fn queue_fifo_interleaved_with_pops() {
    let mut q = EventQueue::new();
    q.push(down(1));
    q.push(down(2));
    assert_eq!(q.pop(), Some(down(1)));
    q.push(down(3));
    assert_eq!(q.pop(), Some(down(2)));
    assert_eq!(q.pop(), Some(down(3)));
    assert_eq!(q.pop(), None);
}

#[test]
fn popping_empty_queue_has_no_effect() {
    let mut q = EventQueue::new();
    assert_eq!(q.pop(), None);
    assert_eq!(q.len(), 0);
    q.push(down(9));
    assert_eq!(q.len(), 1);
    assert_eq!(q.pop(), Some(down(9)));
    assert_eq!(q.pop(), None);
    assert_eq!(q.len(), 0);
}

#[test]
fn critical_section_masks_and_restores() {
    let mut ints = InterruptState { enabled: true };
    let guard = CriticalSection::start(&mut ints);
    assert!(!ints.enabled);
    guard.end(&mut ints);
    assert!(ints.enabled);
    let guard = CriticalSection::start(&mut ints);
    assert!(!ints.enabled);
    guard.end(&mut ints);
    assert!(ints.enabled);
}

#[test]
fn pop_button_event_pops_oldest_under_critical_section() {
    let mut ints = InterruptState { enabled: true };
    let mut q = EventQueue::new();
    q.push(down(5));
    q.push(up(5));
    assert_eq!(pop_button_event(&mut q, &mut ints), Some(down(5)));
    assert!(ints.enabled);
    assert_eq!(pop_button_event(&mut q, &mut ints), Some(up(5)));
    assert!(ints.enabled);
    assert_eq!(pop_button_event(&mut q, &mut ints), None);
    assert!(ints.enabled);
}
