//! The scheduler loop's idle decision.
//!
//! Once per iteration, after every task has been polled, the loop decides
//! whether the system may enter a low-power wait: only when no mailbox holds
//! an undrained event and no task did observable work. The platform layer
//! must evaluate this inside a critical section spanning the mailbox reads
//! and the decision itself — a handler firing between them would otherwise be
//! invisible until the next spin.

use vstd::prelude::*;
use crate::interrupts::{
    gpio_interrupt_get, i2c_interrupt_get, rmt_interrupt_get, systimer_target0_interrupt_get,
    usb_interrupt_get, GPIOInterruptStatus, I2CInterruptStatus, Mailbox, RMTInterruptStatus,
    SystimerTartet0InterruptStatus, USBInterruptStatus,
};

verus! {

/// True exactly when every peripheral mailbox is free of undrained events
/// (of the bits its status word carries) and no task reported work this
/// iteration.
pub fn idle_decision(
    usb: &Mailbox,
    systimer: &Mailbox,
    i2c: &Mailbox,
    gpio: &Mailbox,
    rmt: &Mailbox,
    did_something: bool,
) -> (idle: bool)
    ensures
        idle == (usb@ & USBInterruptStatus::ALL == 0 && systimer@
            & SystimerTartet0InterruptStatus::ALL == 0 && i2c@ & I2CInterruptStatus::ALL == 0
            && gpio@ & GPIOInterruptStatus::ALL == 0 && rmt@ & RMTInterruptStatus::ALL == 0
            && !did_something),
{
    let no_interrupts = usb_interrupt_get(usb).is_empty() && systimer_target0_interrupt_get(
        systimer,
    ).is_empty() && i2c_interrupt_get(i2c).is_empty() && gpio_interrupt_get(gpio).is_empty()
        && rmt_interrupt_get(rmt).is_empty();
    no_interrupts && !did_something
}

} // verus!
