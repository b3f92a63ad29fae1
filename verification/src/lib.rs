//! Core of a cooperative, interrupt-driven firmware loop: a fixed-capacity
//! ring buffer, atomic interrupt mailboxes, a software timer multiplexer that
//! shares one hardware comparator among many logical delays, and the driver
//! state machines built on top of them.
//!
//! Hardware registers are represented by typed model structs owned by the
//! components that drive them; a thin platform layer mirrors those models onto
//! the real device registers.

pub mod interrupts;
pub mod machines;
pub mod pac_utils;
pub mod qq_alarm_queue;
pub mod ring_buffer;
pub mod rmt_tx;
pub mod scheduler;
pub mod sdc;
pub mod sony_ir;
pub mod usb_writer;
pub mod usb_writer_buffered;

use vstd::prelude::*;

verus! {

/// Frequency of the monotonic system tick counter, in ticks per second.
pub const TICKS_PER_SECOND: u64 = 16_000_000;

} // verus!
