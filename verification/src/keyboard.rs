//! Keyboard raster sampling and edge detection, the compute part of the
//! timer-interrupt handler.
//!
//! Each timer tick the handler samples which of the ten matrix lines (five
//! column lines in the low GPIO bits, five row lines above them) are
//! electrically asserted, compares the sample with the one retained from
//! the previous tick, and derives at most one button event: the lowest
//! line that changed names the key, and the new level gives the
//! direction.  Reading the GPIO port and acknowledging the timer are
//! hardware accesses done outside this crate; everything from the sampled
//! port word onward is verified here.

use vstd::prelude::*;
use crate::events::ButtonEvent;
use crate::events::EventQueue;

verus! {

/// How many matrix lines the keyboard drives: five columns and five rows.
pub const RASTER_LINES: u16 = 10;

/// An instantaneous snapshot of which keyboard lines are asserted: five
/// row lines and five column lines, one bit each.
#[derive(Clone, Copy, Debug, PartialEq, Eq, Structural)]
pub struct RasterState {
    /// Row lines, bits 0 to 4.
    pub rows: u8,
    /// Column lines, bits 0 to 4.
    pub cols: u8,
}

impl RasterState {
    /// Only the five low bits of each mask can be asserted.
    pub open spec fn wf(self) -> bool {
        self.rows < 32 && self.cols < 32
    }
}

/// The ten raster lines of a snapshot packed into one word: column lines
/// in bits 0 to 4, row lines in bits 5 to 9.
pub open spec fn raster_bits(s: RasterState) -> u16 {
    (s.cols + s.rows * 32) as u16
}

/// The level of line `i` in the packed word `x`: 1 asserted, 0 released.
pub open spec fn line_bit(x: u16, i: u16) -> u16 {
    (x >> i) & 1
}

/// Whether line `i` is asserted in snapshot `s`.
pub open spec fn line_asserted(s: RasterState, i: u16) -> bool {
    line_bit(raster_bits(s), i) == 1
}

/// The lowest line at or above `i` whose level differs between the packed
/// snapshots `a` and `b`, if any line below `RASTER_LINES` does.
pub open spec fn first_changed_line(a: u16, b: u16, i: u16) -> Option<u16>
    decreases RASTER_LINES - i when i <= RASTER_LINES
{
    if i >= RASTER_LINES {
        None
    } else if line_bit(a, i) != line_bit(b, i) {
        Some(i)
    } else {
        first_changed_line(a, b, (i + 1) as u16)
    }
}

/// The event derived from two consecutive snapshots: none when no line
/// changed, otherwise the key named by the lowest changed line, a
/// down-transition exactly when that line is asserted in the newer
/// snapshot.
pub open spec fn spec_event_between(prev: RasterState, current: RasterState) -> Option<
    ButtonEvent,
> {
    match first_changed_line(raster_bits(prev), raster_bits(current), 0) {
        None => None,
        Some(line) => Some(
            ButtonEvent {
                button: line as u8,
                button_down: line_bit(raster_bits(current), line) == 1,
            },
        ),
    }
}

/// Splits a sampled GPIO port word into the raster snapshot: column lines
/// from port bits 0 to 4, row lines from port bits 5 to 9.  Sampling the
/// port itself is a hardware read done by the caller.
pub fn get_row_column_state(port_state: u32) -> (r: RasterState)
    ensures
        r.cols == (port_state & 0x1f) as u8,
        r.rows == ((port_state >> 5) & 0x1f) as u8,
        r.wf(),
{
    let cols = (port_state & 0x1f) as u8;
    let rows = ((port_state >> 5) & 0x1f) as u8;
    proof {
        assert((port_state & 0x1f) < 32 && ((port_state >> 5) & 0x1f) < 32) by (bit_vector);
    }
    RasterState { rows, cols }
}

impl ButtonEvent {
    /// Derives at most one event from two consecutive raster snapshots:
    /// exactly the event `spec_event_between` names.
    pub fn from_keyboard_state(prev: RasterState, current: RasterState) -> (r: Option<ButtonEvent>)
        requires
            prev.wf(),
            current.wf(),
        ensures
            r == spec_event_between(prev, current),
    {
        let a: u16 = prev.cols as u16 + prev.rows as u16 * 32;
        let b: u16 = current.cols as u16 + current.rows as u16 * 32;
        let mut line: u16 = 0;
        while line < RASTER_LINES
            invariant
                line <= RASTER_LINES,
                a == raster_bits(prev),
                b == raster_bits(current),
                first_changed_line(a, b, 0) == first_changed_line(a, b, line),
            decreases RASTER_LINES - line,
        {
            if (a >> line) & 1 != (b >> line) & 1 {
                return Some(
                    ButtonEvent { button: line as u8, button_down: (b >> line) & 1 == 1 },
                );
            }
            line += 1;
        }
        None
    }
}

/// The compute part of one timer tick: derive the event from the retained
/// and the fresh snapshot, enqueue it if there is one, and hand back the
/// fresh snapshot as the state to retain — the retained state advances
/// even when no event is produced.
pub fn scan_step(prev: RasterState, current: RasterState, queue: &mut EventQueue) -> (next:
    RasterState)
    requires
        prev.wf(),
        current.wf(),
    ensures
        next == current,
        match spec_event_between(prev, current) {
            None => final(queue)@ == old(queue)@,
            Some(e) => final(queue)@ == old(queue)@.push(e),
        },
{
    let event = ButtonEvent::from_keyboard_state(prev, current);
    if let Some(event) = event {
        queue.push(event);
    }
    current
}

/// No change, no event: two identical snapshots never produce an event.
pub proof fn lemma_scan_no_change(s: RasterState)
    ensures
        spec_event_between(s, s) is None,
{
    lemma_no_change_from(raster_bits(s), 0);
}

proof fn lemma_no_change_from(x: u16, i: u16)
    requires
        i <= RASTER_LINES,
    ensures
        first_changed_line(x, x, i) is None,
    decreases RASTER_LINES - i,
{
    if i < RASTER_LINES {
        lemma_no_change_from(x, (i + 1) as u16);
    }
}

/// Exactly one line changed, exactly one event: if the two snapshots
/// differ on line `k` and agree on every other line, the derived event
/// names key `k`, a down-transition exactly when the new snapshot asserts
/// the line.
pub proof fn lemma_scan_single_change(prev: RasterState, current: RasterState, k: u16)
    requires
        k < RASTER_LINES,
        forall|i: u16|
            i < RASTER_LINES ==> ((line_bit(raster_bits(prev), i) == line_bit(
                raster_bits(current),
                i,
            )) <==> i != k),
    ensures
        spec_event_between(prev, current) == Some(
            ButtonEvent { button: k as u8, button_down: line_asserted(current, k) },
        ),
{
    lemma_first_change_exact(raster_bits(prev), raster_bits(current), 0, k);
}

proof fn lemma_first_change_exact(a: u16, b: u16, i: u16, k: u16)
    requires
        i <= k < RASTER_LINES,
        forall|j: u16| j < RASTER_LINES ==> ((line_bit(a, j) == line_bit(b, j)) <==> j != k),
    ensures
        first_changed_line(a, b, i) == Some(k),
    decreases RASTER_LINES - i,
{
    if i < k {
        lemma_first_change_exact(a, b, (i + 1) as u16, k);
    }
}

} // verus!
