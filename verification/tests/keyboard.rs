use calc_core::events::ButtonEvent;
use calc_core::events::EventQueue;
use calc_core::keyboard::get_row_column_state;
use calc_core::keyboard::scan_step;
use calc_core::keyboard::RasterState;

#[test]
fn port_word_splits_into_rows_and_columns() {
    let r = get_row_column_state(0b00_00010_00001);
    assert_eq!(r, RasterState { rows: 2, cols: 1 });
    let r = get_row_column_state(0b11_11111_11111);
    assert_eq!(r, RasterState { rows: 0x1f, cols: 0x1f });
    let r = get_row_column_state(0);
    assert_eq!(r, RasterState { rows: 0, cols: 0 });
}

#[test]
fn no_change_produces_no_event() {
    let a = RasterState { rows: 0b10010, cols: 0b00101 };
    assert_eq!(ButtonEvent::from_keyboard_state(a, a), None);
    let idle = RasterState { rows: 0, cols: 0 };
    assert_eq!(ButtonEvent::from_keyboard_state(idle, idle), None);
}

#[test]
fn single_column_press_is_one_down_event() {
    let a = RasterState { rows: 0, cols: 0 };
    let b = RasterState { rows: 0, cols: 0b00100 };
    assert_eq!(
        ButtonEvent::from_keyboard_state(a, b),
        Some(ButtonEvent { button: 2, button_down: true })
    );
}

#[test]
fn single_column_release_is_one_up_event() {
    let a = RasterState { rows: 0, cols: 0b00100 };
    let b = RasterState { rows: 0, cols: 0 };
    assert_eq!(
        ButtonEvent::from_keyboard_state(a, b),
        Some(ButtonEvent { button: 2, button_down: false })
    );
}

#[test]
fn single_row_press_names_the_row_line_key() {
    let a = RasterState { rows: 0, cols: 0b00011 };
    let b = RasterState { rows: 0b01000, cols: 0b00011 };
    assert_eq!(
        ButtonEvent::from_keyboard_state(a, b),
        Some(ButtonEvent { button: 8, button_down: true })
    );
}

#[test]
fn lowest_changed_line_wins() {
    let a = RasterState { rows: 0, cols: 0 };
    let b = RasterState { rows: 1, cols: 0b10000 };
    assert_eq!(
        ButtonEvent::from_keyboard_state(a, b),
        Some(ButtonEvent { button: 4, button_down: true })
    );
}

#[test]
fn scan_step_enqueues_event_and_retains_sample() {
    let mut q = EventQueue::new();
    let prev = RasterState { rows: 0, cols: 0 };
    let cur = RasterState { rows: 0, cols: 1 };
    let next = scan_step(prev, cur, &mut q);
    assert_eq!(next, cur);
    assert_eq!(q.pop(), Some(ButtonEvent { button: 0, button_down: true }));
    assert_eq!(q.pop(), None);
}

#[test]
fn scan_step_without_change_retains_sample_and_enqueues_nothing() {
    let mut q = EventQueue::new();
    let s = RasterState { rows: 3, cols: 7 };
    let next = scan_step(s, s, &mut q);
    assert_eq!(next, s);
    assert_eq!(q.len(), 0);
}
