//! Pulse-transmit channel: configuration value mappers and the model of the
//! channel's pulse RAM and status registers.

use vstd::prelude::*;

verus! {

/// One RAM word of the pulse engine: two (level, length) halves. A zero
/// length marks the end of a sequence.
#[derive(Debug, Clone, Copy, PartialEq, Eq, Structural)]
pub struct PulseCode {
    pub level1: bool,
    pub length1: u16,
    pub level2: bool,
    pub length2: u16,
}

#[derive(Debug, Clone, Copy, PartialEq, Eq, Structural)]
pub struct RmtClockConfig {
    pub selection: u8,
    pub div_num: u8,
    pub div_a: u8,
    pub div_b: u8,
}

/// What the transmitter drives between sequences.
#[derive(Debug, Clone, Copy, PartialEq, Eq, Structural)]
pub enum RmtChannelIdleConfig {
    EndMarker,
    Level(bool),
}

impl RmtChannelIdleConfig {
    /// The (idle-output-enable, idle-level) register pair.
    pub fn into_regs(&self) -> (r: (bool, bool))
        ensures
            r == match *self {
                RmtChannelIdleConfig::EndMarker => (false, false),
                RmtChannelIdleConfig::Level(level) => (true, level),
            },
    {
        match *self {
            RmtChannelIdleConfig::EndMarker => (false, false),
            RmtChannelIdleConfig::Level(level) => (true, level),
        }
    }
}

/// Carrier modulation of the output.
#[derive(Debug, Clone, Copy, PartialEq, Eq, Structural)]
pub enum RmtChannelCarrierConfig {
    Disabled,
    Enabled { on_level: bool, on_idle: bool, duty_low: u16, duty_high: u16 },
}

impl RmtChannelCarrierConfig {
    /// The (enable, output-level, effective-enable, duty-high, duty-low)
    /// register tuple.
    pub fn into_regs(&self) -> (r: (bool, bool, bool, u16, u16))
        ensures
            r == match *self {
                RmtChannelCarrierConfig::Disabled => (false, false, false, 0u16, 0u16),
                RmtChannelCarrierConfig::Enabled { on_level, on_idle, duty_low, duty_high } => (
                    true,
                    on_level,
                    on_idle,
                    duty_low,
                    duty_high,
                ),
            },
    {
        match *self {
            RmtChannelCarrierConfig::Disabled => (false, false, false, 0, 0),
            RmtChannelCarrierConfig::Enabled { on_level, on_idle, duty_low, duty_high } => (
                true,
                on_level,
                on_idle,
                duty_low,
                duty_high,
            ),
        }
    }
}

#[derive(Debug, Clone, Copy, PartialEq, Eq, Structural)]
pub struct RmtChannelConfig {
    pub div: u8,
    pub carrier: RmtChannelCarrierConfig,
    pub idle: RmtChannelIdleConfig,
}

/// Model of the transmit channel the encoder drives: the pulse RAM and the
/// latched end/error interrupt flags. The platform layer mirrors RAM writes
/// and the start bit onto the device and latches its interrupt flags here.
pub struct RmtTxChannel {
    /// The pulse words the next start will send.
    pub ram: Vec<PulseCode>,
    /// Latched transmit-error interrupt.
    pub int_err: bool,
    /// Latched transmit-end interrupt.
    pub int_end: bool,
    /// Whether a transmission has been started.
    pub running: bool,
}

impl RmtTxChannel {
    pub fn new() -> (c: RmtTxChannel)
        ensures
            c.ram@ == Seq::<PulseCode>::empty(),
            !c.int_err,
            !c.int_end,
            !c.running,
    {
        RmtTxChannel { ram: Vec::new(), int_err: false, int_end: false, running: false }
    }

    /// Fills the channel's RAM with the given pulse words; one RAM block
    /// holds at most 48 of them.
    pub fn rmt_ch0_fill_ram(&mut self, codes: Vec<PulseCode>)
        requires
            codes@.len() <= 48,
        ensures
            final(self).ram@ == codes@,
            final(self).int_err == old(self).int_err,
            final(self).int_end == old(self).int_end,
            final(self).running == old(self).running,
    {
        self.ram = codes;
    }

    /// Starts sending the RAM contents.
    pub fn rmt_ch0_start(&mut self)
        ensures
            final(self).running,
            final(self).ram@ == old(self).ram@,
            final(self).int_err == old(self).int_err,
            final(self).int_end == old(self).int_end,
    {
        self.running = true;
    }

    /// Polls and acknowledges the channel's latched interrupts: `Err` on a
    /// transmit error, `Ok(true)` when a transmission finished, `Ok(false)`
    /// while it is still running.
    pub fn rmt_ch0_is_done(&mut self) -> (r: Result<bool, ()>)
        ensures
            final(self).ram@ == old(self).ram@,
            final(self).running == old(self).running,
            old(self).int_err ==> r == Err::<bool, ()>(()) && !final(self).int_err && final(self).int_end == old(self).int_end,
            !old(self).int_err && old(self).int_end ==> r == Ok::<bool, ()>(true) && !final(self).int_end && final(self).int_err == old(self).int_err,
            !old(self).int_err && !old(self).int_end ==> r == Ok::<bool, ()>(false) && *final(self)
                == *old(self),
    {
        if self.int_err {
            self.int_err = false;
            Err(())
        } else if self.int_end {
            self.int_end = false;
            Ok(true)
        } else {
            Ok(false)
        }
    }
}

} // verus!
