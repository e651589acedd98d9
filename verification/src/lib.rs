//! Verified core of a pocket-calculator firmware.
//!
//! The firmware boots a microcontroller, scans a button matrix from a timer
//! interrupt, buffers the resulting input events across the interrupt/main
//! boundary, and repaints a monochrome display over a two-wire bus.  This
//! crate holds the parts whose correctness matters under that concurrency:
//! the memory-image bootstrap, the interrupt vector table layout, the
//! interrupt-masking critical section, the shared event queue, the keyboard
//! edge detection, the dispatch state machine, and the framebuffer paging
//! protocol.  Hardware access itself (register writes, the bus, the idle
//! instruction) stays outside; every function here is a pure state
//! transition or a plan of bus bytes, stated and proved over plain values.

pub mod bootstrap;
pub mod critical;
pub mod display;
pub mod dispatch;
pub mod events;
pub mod keyboard;
