//! Interrupt mailboxes: one 32-bit bitmask per peripheral class.
//!
//! The handler bound to a peripheral's interrupt line ORs every observed
//! status bit into the mailbox ([`Mailbox::record`]) after acknowledging it at
//! the hardware register, so the mailbox is the only record of the event
//! thereafter. The poll loop drains bits with [`Mailbox::get_and_clear`], a
//! single read-modify-write, so no event is observed twice or dropped between
//! a read and a clear. The platform layer performs both accesses under the
//! required masking discipline; this module carries the functional contract.

use vstd::prelude::*;

verus! {

/// Bitmask of observed-but-not-yet-handled hardware events for one
/// peripheral class.
pub struct Mailbox {
    bits: u32,
}

impl View for Mailbox {
    type V = u32;

    closed spec fn view(&self) -> u32 {
        self.bits
    }
}

impl Mailbox {
    pub fn new() -> (m: Mailbox)
        ensures
            m@ == 0u32,
    {
        Mailbox { bits: 0 }
    }

    /// Handler side: accumulates freshly observed hardware status bits.
    /// Bits may pile up across invocations; consumers treat the mailbox as a
    /// multi-bit event set, not a single edge.
    pub fn record(&mut self, observed: u32)
        ensures
            final(self)@ == old(self)@ | observed,
    {
        self.bits = self.bits | observed;
    }

    /// Reads the pending bits without clearing any.
    pub fn get(&self) -> (r: u32)
        ensures
            r == self@,
    {
        self.bits
    }

    /// Clears the given bits, leaving the others pending.
    pub fn clear(&mut self, mask: u32)
        ensures
            final(self)@ == old(self)@ & !mask,
    {
        self.bits = self.bits & !mask;
    }

    /// Atomically clears `mask` and returns the bits that were both set and
    /// requested. After the call none of the `mask` bits remains pending, so
    /// a second call with the same mask and no intervening `record` returns
    /// no bits.
    pub fn get_and_clear(&mut self, mask: u32) -> (r: u32)
        ensures
            r == old(self)@ & mask,
            final(self)@ == old(self)@ & !mask,
            final(self)@ & mask == 0,
    {
        let prev = self.bits;
        self.bits = self.bits & !mask;
        proof {
            assert((prev & !mask) & mask == 0u32) by (bit_vector);
        }
        prev & mask
    }
}

/// Mailbox idempotence: whatever bits a mailbox holds, once `mask` has been
/// cleared by `get_and_clear`, a second `get_and_clear` with the same mask
/// (and no intervening `record`) returns the empty set.
pub proof fn lemma_get_and_clear_idempotent(bits: u32, mask: u32)
    ensures
        (bits & !mask) & mask == 0u32,
{
    assert((bits & !mask) & mask == 0u32) by (bit_vector);
}

/// Status bits of the USB serial device's interrupt register.
#[derive(Debug, Clone, Copy, PartialEq, Eq, Structural)]
pub struct USBInterruptStatus {
    pub bits: u32,
}

impl USBInterruptStatus {
    /// Bit 3 of the status register.
    pub const SERIAL_IN_EMPTY: u32 = 0x8;

    pub const ALL: u32 = 0x8;

    pub fn from_bits_truncate(bits: u32) -> (r: Self)
        ensures
            r.bits == bits & Self::ALL,
    {
        USBInterruptStatus { bits: bits & Self::ALL }
    }

    pub fn empty() -> (r: Self)
        ensures
            r.bits == 0u32,
    {
        USBInterruptStatus { bits: 0 }
    }

    pub fn is_empty(&self) -> (r: bool)
        ensures
            r == (self.bits == 0u32),
    {
        self.bits == 0
    }
}

/// Status bits of the system timer's comparator-0 interrupt register.
#[derive(Debug, Clone, Copy, PartialEq, Eq, Structural)]
pub struct SystimerTartet0InterruptStatus {
    pub bits: u32,
}

impl SystimerTartet0InterruptStatus {
    /// Bit 0 of the status register.
    pub const TARGET: u32 = 0x1;

    pub const ALL: u32 = 0x1;

    pub fn from_bits_truncate(bits: u32) -> (r: Self)
        ensures
            r.bits == bits & Self::ALL,
    {
        SystimerTartet0InterruptStatus { bits: bits & Self::ALL }
    }

    pub fn empty() -> (r: Self)
        ensures
            r.bits == 0u32,
    {
        SystimerTartet0InterruptStatus { bits: 0 }
    }

    pub fn is_empty(&self) -> (r: bool)
        ensures
            r == (self.bits == 0u32),
    {
        self.bits == 0
    }
}

/// Status bits of the I2C controller's interrupt register.
#[derive(Debug, Clone, Copy, PartialEq, Eq, Structural)]
pub struct I2CInterruptStatus {
    pub bits: u32,
}

impl I2CInterruptStatus {
    /// Bit 5 of the status register.
    pub const ARBITRATION_LOST: u32 = 0x20;

    /// Bit 7 of the status register.
    pub const TRANSACTION_COMPLETE: u32 = 0x80;

    /// Bit 8 of the status register.
    pub const TIME_OUT: u32 = 0x100;

    /// Bit 10 of the status register.
    pub const NACK: u32 = 0x400;

    /// Bit 13 of the status register.
    pub const SCL_ST_TIME_OUT: u32 = 0x2000;

    /// Bit 14 of the status register.
    pub const SCL_MAIN_ST_TIME_OUT: u32 = 0x4000;

    pub const ALL: u32 = 0x20 + 0x80 + 0x100 + 0x400 + 0x2000 + 0x4000;

    /// The bits that signal a failed transaction (everything but
    /// `TRANSACTION_COMPLETE`).
    pub const ERROR_BITS: u32 = 0x20 + 0x100 + 0x400 + 0x2000 + 0x4000;

    pub fn from_bits_truncate(bits: u32) -> (r: Self)
        ensures
            r.bits == bits & Self::ALL,
    {
        I2CInterruptStatus { bits: bits & Self::ALL }
    }

    pub fn empty() -> (r: Self)
        ensures
            r.bits == 0u32,
    {
        I2CInterruptStatus { bits: 0 }
    }

    pub fn all() -> (r: Self)
        ensures
            r.bits == Self::ALL,
    {
        I2CInterruptStatus { bits: Self::ALL }
    }

    pub fn is_empty(&self) -> (r: bool)
        ensures
            r == (self.bits == 0u32),
    {
        self.bits == 0
    }

    pub fn intersects(&self, other: Self) -> (r: bool)
        ensures
            r == (self.bits & other.bits != 0u32),
    {
        self.bits & other.bits != 0
    }

    /// True when any bit signalling a failed transaction is set.
    pub fn is_error(&self) -> (r: bool)
        ensures
            r == (self.bits & Self::ERROR_BITS != 0u32),
    {
        proof {
            assert(0x20u32 | 0x100u32 | 0x400u32 | 0x2000u32 | 0x4000u32 == 0x6520u32)
                by (bit_vector);
        }
        self.intersects(
            I2CInterruptStatus {
                bits: Self::ARBITRATION_LOST | Self::TIME_OUT | Self::NACK | Self::SCL_ST_TIME_OUT
                    | Self::SCL_MAIN_ST_TIME_OUT,
            },
        )
    }
}

/// Status bits of the GPIO interrupt register.
#[derive(Debug, Clone, Copy, PartialEq, Eq, Structural)]
pub struct GPIOInterruptStatus {
    pub bits: u32,
}

impl GPIOInterruptStatus {
    /// Bit 6 of the status register.
    pub const GPIO6: u32 = 0x40;

    pub const ALL: u32 = 0x40;

    pub fn from_bits_truncate(bits: u32) -> (r: Self)
        ensures
            r.bits == bits & Self::ALL,
    {
        GPIOInterruptStatus { bits: bits & Self::ALL }
    }

    pub fn empty() -> (r: Self)
        ensures
            r.bits == 0u32,
    {
        GPIOInterruptStatus { bits: 0 }
    }

    pub fn is_empty(&self) -> (r: bool)
        ensures
            r == (self.bits == 0u32),
    {
        self.bits == 0
    }
}

/// Status bits of the RMT (pulse capture/transmit) interrupt register.
#[derive(Debug, Clone, Copy, PartialEq, Eq, Structural)]
pub struct RMTInterruptStatus {
    pub bits: u32,
}

impl RMTInterruptStatus {
    /// Bit 2 of the status register.
    pub const CH2_END: u32 = 0x4;

    /// Bit 6 of the status register.
    pub const CH2_ERROR: u32 = 0x40;

    pub const ALL: u32 = 0x4 + 0x40;

    pub fn from_bits_truncate(bits: u32) -> (r: Self)
        ensures
            r.bits == bits & Self::ALL,
    {
        RMTInterruptStatus { bits: bits & Self::ALL }
    }

    pub fn empty() -> (r: Self)
        ensures
            r.bits == 0u32,
    {
        RMTInterruptStatus { bits: 0 }
    }

    pub fn is_empty(&self) -> (r: bool)
        ensures
            r == (self.bits == 0u32),
    {
        self.bits == 0
    }

    pub fn intersects(&self, other: Self) -> (r: bool)
        ensures
            r == (self.bits & other.bits != 0u32),
    {
        self.bits & other.bits != 0
    }

    /// True when the capture channel reported an error.
    pub fn is_error(&self) -> (r: bool)
        ensures
            r == (self.bits & Self::CH2_ERROR != 0u32),
    {
        self.intersects(RMTInterruptStatus { bits: Self::CH2_ERROR })
    }
}

pub fn usb_interrupt_get(mb: &Mailbox) -> (r: USBInterruptStatus)
    ensures
        r.bits == mb@ & USBInterruptStatus::ALL,
{
    USBInterruptStatus::from_bits_truncate(mb.get())
}

pub fn usb_interrupt_clear(mb: &mut Mailbox, interrupts: USBInterruptStatus)
    ensures
        final(mb)@ == old(mb)@ & !interrupts.bits,
{
    mb.clear(interrupts.bits);
}

pub fn usb_interrupt_get_and_clear(mb: &mut Mailbox, interrupts: USBInterruptStatus) -> (r:
    USBInterruptStatus)
    ensures
        r.bits == old(mb)@ & interrupts.bits & USBInterruptStatus::ALL,
        final(mb)@ == old(mb)@ & !interrupts.bits,
{
    USBInterruptStatus::from_bits_truncate(mb.get_and_clear(interrupts.bits))
}

pub fn systimer_target0_interrupt_get(mb: &Mailbox) -> (r: SystimerTartet0InterruptStatus)
    ensures
        r.bits == mb@ & SystimerTartet0InterruptStatus::ALL,
{
    SystimerTartet0InterruptStatus::from_bits_truncate(mb.get())
}

pub fn systimer_target0_interrupt_clear(mb: &mut Mailbox, interrupts: SystimerTartet0InterruptStatus)
    ensures
        final(mb)@ == old(mb)@ & !interrupts.bits,
{
    mb.clear(interrupts.bits);
}

pub fn systimer_target0_interrupt_get_and_clear(
    mb: &mut Mailbox,
    interrupts: SystimerTartet0InterruptStatus,
) -> (r: SystimerTartet0InterruptStatus)
    ensures
        r.bits == old(mb)@ & interrupts.bits & SystimerTartet0InterruptStatus::ALL,
        final(mb)@ == old(mb)@ & !interrupts.bits,
{
    SystimerTartet0InterruptStatus::from_bits_truncate(mb.get_and_clear(interrupts.bits))
}

pub fn i2c_interrupt_get(mb: &Mailbox) -> (r: I2CInterruptStatus)
    ensures
        r.bits == mb@ & I2CInterruptStatus::ALL,
{
    I2CInterruptStatus::from_bits_truncate(mb.get())
}

pub fn i2c_interrupt_clear(mb: &mut Mailbox, interrupts: I2CInterruptStatus)
    ensures
        final(mb)@ == old(mb)@ & !interrupts.bits,
{
    mb.clear(interrupts.bits);
}

pub fn i2c_interrupt_get_and_clear(mb: &mut Mailbox, interrupts: I2CInterruptStatus) -> (r:
    I2CInterruptStatus)
    ensures
        r.bits == old(mb)@ & interrupts.bits & I2CInterruptStatus::ALL,
        final(mb)@ == old(mb)@ & !interrupts.bits,
{
    I2CInterruptStatus::from_bits_truncate(mb.get_and_clear(interrupts.bits))
}

pub fn gpio_interrupt_get(mb: &Mailbox) -> (r: GPIOInterruptStatus)
    ensures
        r.bits == mb@ & GPIOInterruptStatus::ALL,
{
    GPIOInterruptStatus::from_bits_truncate(mb.get())
}

pub fn gpio_interrupt_clear(mb: &mut Mailbox, interrupts: GPIOInterruptStatus)
    ensures
        final(mb)@ == old(mb)@ & !interrupts.bits,
{
    mb.clear(interrupts.bits);
}

pub fn gpio_interrupt_get_and_clear(mb: &mut Mailbox, interrupts: GPIOInterruptStatus) -> (r:
    GPIOInterruptStatus)
    ensures
        r.bits == old(mb)@ & interrupts.bits & GPIOInterruptStatus::ALL,
        final(mb)@ == old(mb)@ & !interrupts.bits,
{
    GPIOInterruptStatus::from_bits_truncate(mb.get_and_clear(interrupts.bits))
}

pub fn rmt_interrupt_get(mb: &Mailbox) -> (r: RMTInterruptStatus)
    ensures
        r.bits == mb@ & RMTInterruptStatus::ALL,
{
    RMTInterruptStatus::from_bits_truncate(mb.get())
}

pub fn rmt_interrupt_clear(mb: &mut Mailbox, interrupts: RMTInterruptStatus)
    ensures
        final(mb)@ == old(mb)@ & !interrupts.bits,
{
    mb.clear(interrupts.bits);
}

pub fn rmt_interrupt_get_and_clear(mb: &mut Mailbox, interrupts: RMTInterruptStatus) -> (r:
    RMTInterruptStatus)
    ensures
        r.bits == old(mb)@ & interrupts.bits & RMTInterruptStatus::ALL,
        final(mb)@ == old(mb)@ & !interrupts.bits,
{
    RMTInterruptStatus::from_bits_truncate(mb.get_and_clear(interrupts.bits))
}

} // verus!
