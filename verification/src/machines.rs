//! Cooperative task drivers: each a state machine polled once per scheduler
//! iteration, advancing at most one protocol step per call and never blocking
//! the shared thread.

use vstd::prelude::*;

verus! {

/// Helper state machine representing one outstanding wait on the timer
/// multiplexer: waiting for a given alarm id, or done.
#[derive(Debug, Clone, Copy, PartialEq, Eq, Structural)]
pub enum Delay {
    Waiting { qq_alarm_id: usize },
    Done,
}

impl Delay {
    pub fn new(qq_alarm_id: usize) -> (d: Delay)
        ensures
            d == (Delay::Waiting { qq_alarm_id }),
    {
        Delay::Waiting { qq_alarm_id }
    }

    /// Offers a drained alarm id. Claims it — returning true and becoming
    /// `Done` — exactly when still waiting for that id; in every other case,
    /// including when already `Done`, returns false without mutation. `Done`
    /// is therefore terminal: once reached, every later call returns false,
    /// whatever id it carries.
    pub fn on_alarm(&mut self, qq_alarm_id: usize) -> (claimed: bool)
        ensures
            claimed == (*old(self) == (Delay::Waiting { qq_alarm_id })),
            claimed ==> *final(self) is Done,
            !claimed ==> *final(self) == *old(self),
            *old(self) is Done ==> !claimed && *final(self) is Done,
    {
        match *self {
            Delay::Waiting { qq_alarm_id: id } => {
                if id == qq_alarm_id {
                    *self = Delay::Done;
                    true
                } else {
                    false
                }
            },
            Delay::Done => false,
        }
    }
}

} // verus!

pub mod controller;
pub mod debug_print;
pub mod ir_nec_rx;
pub mod sdc_simple_measurment;
pub mod status_led;
