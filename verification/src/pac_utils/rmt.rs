//! Model of the pulse-capture channel: the received pulse fifo and the
//! classification of drained interrupt status bits.

use vstd::prelude::*;
use crate::interrupts::RMTInterruptStatus;
use crate::rmt_tx::PulseCode;

verus! {

#[derive(Debug, Clone, Copy, PartialEq, Eq, Structural)]
pub enum RMTError {
    Unknown(RMTInterruptStatus),
}

impl RMTError {
    /// Classifies drained status bits: an error value exactly when the
    /// capture channel's error bit is set.
    pub fn from_interrupt_flags(interrupt: RMTInterruptStatus) -> (r: Option<RMTError>)
        ensures
            r == if interrupt.bits & RMTInterruptStatus::CH2_ERROR != 0u32 {
                Some(RMTError::Unknown(interrupt))
            } else {
                None::<RMTError>
            },
    {
        if interrupt.is_error() {
            Some(RMTError::Unknown(interrupt))
        } else {
            None
        }
    }
}

#[derive(Debug, Clone, Copy, PartialEq, Eq, Structural)]
pub struct RmtRxChConfig {
    pub clock_div: u8,
    pub idle_thresh: u16,
}

/// One half of a captured RAM word.
#[derive(Debug, Clone, Copy, PartialEq, Eq, Structural)]
pub struct HalfPulseCode {
    pub level: bool,
    pub length: u16,
}

impl HalfPulseCode {
    /// Splits a captured RAM word into its two halves.
    pub fn from_pulse_code(pulse_code: PulseCode) -> (r: (HalfPulseCode, HalfPulseCode))
        ensures
            r.0 == (HalfPulseCode { level: pulse_code.level1, length: pulse_code.length1 }),
            r.1 == (HalfPulseCode { level: pulse_code.level2, length: pulse_code.length2 }),
    {
        (
            HalfPulseCode { level: pulse_code.level1, length: pulse_code.length1 },
            HalfPulseCode { level: pulse_code.level2, length: pulse_code.length2 },
        )
    }
}

/// The pulse lengths held in captured RAM words, cut off at the first
/// zero-length half (the hardware's end marker).
pub open spec fn captured_lengths(ws: Seq<PulseCode>) -> Seq<u16>
    decreases ws.len(),
{
    if ws.len() == 0 {
        Seq::empty()
    } else if ws[0].length1 == 0 {
        Seq::empty()
    } else if ws[0].length2 == 0 {
        seq![ws[0].length1]
    } else {
        seq![ws[0].length1, ws[0].length2] + captured_lengths(ws.drop_first())
    }
}

/// Model of the capture channel the infrared receiver drains: the captured
/// RAM words and the receive-enable flag. The platform layer fills `fifo`
/// from the device RAM and mirrors `rx_enabled` onto the channel.
pub struct RmtRxChannel {
    /// Captured RAM words, terminated by a zero-length half.
    pub fifo: Vec<PulseCode>,
    pub rx_enabled: bool,
}

impl RmtRxChannel {
    pub fn new() -> (c: RmtRxChannel)
        ensures
            c.fifo@ == Seq::<PulseCode>::empty(),
            !c.rx_enabled,
    {
        RmtRxChannel { fifo: Vec::new(), rx_enabled: false }
    }

    /// Enables receiving.
    pub fn ch2_start(&mut self)
        ensures
            final(self).rx_enabled,
            final(self).fifo@ == old(self).fifo@,
    {
        self.rx_enabled = true;
    }

    /// Reads the captured pulse lengths out of the channel RAM, stopping at
    /// the first zero-length half.
    pub fn ch2_fifo_lengths(&self) -> (r: Vec<u16>)
        ensures
            r@ == captured_lengths(self.fifo@),
    {
        let mut out: Vec<u16> = Vec::new();
        let mut i: usize = 0;
        let mut done = false;
        proof {
            assert(self.fifo@.skip(0) =~= self.fifo@);
            assert(out@ + captured_lengths(self.fifo@) =~= captured_lengths(self.fifo@));
        }
        while !done && i < self.fifo.len()
            invariant
                i <= self.fifo@.len(),
                captured_lengths(self.fifo@) == if done {
                    out@
                } else {
                    out@ + captured_lengths(self.fifo@.skip(i as int))
                },
            decreases self.fifo@.len() - i, (if done { 0int } else { 1int }),
        {
            let w = self.fifo[i];
            proof {
                assert(self.fifo@.skip(i as int)[0] == self.fifo@[i as int]);
                assert(self.fifo@.skip(i as int).drop_first() =~= self.fifo@.skip(i + 1));
            }
            let ghost out_before = out@;
            let ghost rest = captured_lengths(self.fifo@.skip(i as int));
            if w.length1 == 0 {
                done = true;
            } else if w.length2 == 0 {
                out.push(w.length1);
                done = true;
                proof {
                    assert(out@ =~= out_before + rest);
                }
            } else {
                out.push(w.length1);
                out.push(w.length2);
                proof {
                    assert(rest == seq![w.length1, w.length2] + captured_lengths(
                        self.fifo@.skip(i + 1),
                    ));
                    assert(out_before + rest =~= out@ + captured_lengths(self.fifo@.skip(i + 1)));
                }
            }
            i = i + 1;
        }
        proof {
            if !done {
                assert(self.fifo@.skip(i as int) =~= Seq::<PulseCode>::empty());
            }
        }
        out
    }

    /// Acknowledges a finished capture: resets the channel RAM write address
    /// and fifo, handing the RAM back to the device.
    pub fn ch2_reset_after_recieving(&mut self)
        ensures
            final(self).fifo@ == Seq::<PulseCode>::empty(),
            final(self).rx_enabled == old(self).rx_enabled,
    {
        self.fifo.clear();
    }

    /// Platform/test side: delivers captured words into the model fifo.
    pub fn device_capture(&mut self, words: Vec<PulseCode>)
        ensures
            final(self).fifo@ == old(self).fifo@ + words@,
            final(self).rx_enabled == old(self).rx_enabled,
    {
        let mut words = words;
        self.fifo.append(&mut words);
    }
}

} // verus!
