//! Infrared receiver: a pure decoder for 32-bit NEC remote-control frames
//! over pulse-length measurements, and the driver state machine that feeds it
//! from the pulse-capture channel.
//!
//! A frame is a long preamble pulse, a long space, four bytes sent least
//! significant bit first as (mark, space) pairs — address, inverted address,
//! command, inverted command — and a final stop mark. Every length is checked
//! against a tolerance window around a base unit.

use vstd::prelude::*;
use crate::interrupts::{Mailbox, RMTInterruptStatus, rmt_interrupt_get_and_clear};
use crate::pac_utils::rmt::{RMTError, RmtRxChannel};
use crate::usb_writer::{noted_k_more, u32_to_decimal, DiagnosticSink};
use vstd::string::StringExecFns;

verus! {

pub open spec fn in_range_spec(value: u16, min: u16, max: u16) -> bool {
    min <= value && value <= max
}

pub fn in_range(value: u16, min: u16, max: u16) -> (r: bool)
    ensures
        r == in_range_spec(value, min, max),
{
    min <= value && value <= max
}

/// The nine ways a pulse sequence can fail to be a NEC frame.
#[derive(Debug, Clone, Copy, PartialEq, Eq, Structural)]
pub enum NecDecodeError {
    InvalidPulseCountTooShort,
    InvalidPulseCountTooLong,
    Start1InvalidLength,
    Start0InvalidLength,
    Data1InvalidLength(u16),
    Data0InvalidLength,
    Last1InvalidLength,
    AddressInvertedNotMatching,
    MessageInvertedNotMatching,
}

impl NecDecodeError {
    /// The diagnostic wording of this format violation.
    pub fn describe(&self) -> &'static str {
        match *self {
            NecDecodeError::InvalidPulseCountTooShort => "too few pulses",
            NecDecodeError::InvalidPulseCountTooLong => "too many pulses",
            NecDecodeError::Start1InvalidLength => "preamble mark out of tolerance",
            NecDecodeError::Start0InvalidLength => "preamble space out of tolerance",
            NecDecodeError::Data1InvalidLength(_) => "data mark out of tolerance",
            NecDecodeError::Data0InvalidLength => "data space out of tolerance",
            NecDecodeError::Last1InvalidLength => "stop mark out of tolerance",
            NecDecodeError::AddressInvertedNotMatching => "inverted address does not match",
            NecDecodeError::MessageInvertedNotMatching => "inverted command does not match",
        }
    }
}

#[derive(Debug, Clone, Copy, PartialEq, Eq, Structural)]
pub enum NecMessage {
    Message { address: u8, message: u8 },
    Repeat,
}

/// Tolerance configuration: windows are `short * multiplier * (tol_div ±
/// tol_num) / tol_div` wide.
#[derive(Debug, Clone, Copy, PartialEq, Eq, Structural)]
pub struct NecIrTimingConfig {
    /// Duration of the shortest NEC pulse, in capture-channel ticks.
    pub short: u16,
    pub tol_div: u16,
    pub tol_num: u16,
}

/// Precomputed tolerance windows for each pulse kind.
#[derive(Debug, Clone, Copy, PartialEq, Eq, Structural)]
pub struct NecDecoder {
    pub short_min: u16,
    pub short_max: u16,
    pub long_min: u16,
    pub long_max: u16,
    pub start_1_min: u16,
    pub start_1_max: u16,
    pub start_0_min: u16,
    pub start_0_max: u16,
    pub repeat_min: u16,
    pub repeat_max: u16,
}

/// One tolerance window bound: `short * mul * tol / div`, rounded down.
pub open spec fn nec_bound(short: u16, mul: int, tol: int, div: u16) -> int {
    (short * mul * tol) / (div as int)
}

impl NecDecoder {
    /// Space length multiplier of a "one" data bit.
    pub const LONG_MUL: u16 = 3;

    /// Preamble mark length multiplier.
    pub const START_1_MUL: u16 = 16;

    /// Preamble space length multiplier.
    pub const START_0_MUL: u16 = 8;

    /// Repeat-frame space length multiplier.
    pub const REPEAT_MUL: u16 = 4;

    /// Most significant bit of a byte.
    pub const MS_1: u8 = 0x80;

    pub fn new(config: NecIrTimingConfig) -> (dec: NecDecoder)
        requires
            0 < config.tol_num < config.tol_div,
            config.tol_div + config.tol_num <= u16::MAX,
            config.short * 16 * (config.tol_div + config.tol_num) <= u16::MAX,
        ensures
            dec.short_min == nec_bound(config.short, 1, config.tol_div - config.tol_num, config.tol_div),
            dec.short_max == nec_bound(config.short, 1, config.tol_div + config.tol_num, config.tol_div),
            dec.long_min == nec_bound(config.short, 3, config.tol_div - config.tol_num, config.tol_div),
            dec.long_max == nec_bound(config.short, 3, config.tol_div + config.tol_num, config.tol_div),
            dec.start_1_min == nec_bound(config.short, 16, config.tol_div - config.tol_num, config.tol_div),
            dec.start_1_max == nec_bound(config.short, 16, config.tol_div + config.tol_num, config.tol_div),
            dec.start_0_min == nec_bound(config.short, 8, config.tol_div - config.tol_num, config.tol_div),
            dec.start_0_max == nec_bound(config.short, 8, config.tol_div + config.tol_num, config.tol_div),
            dec.repeat_min == nec_bound(config.short, 4, config.tol_div - config.tol_num, config.tol_div),
            dec.repeat_max == nec_bound(config.short, 4, config.tol_div + config.tol_num, config.tol_div),
    {
        NecDecoder {
            short_min: Self::bound(config.short, 1, config.tol_div - config.tol_num, config),
            short_max: Self::bound(config.short, 1, config.tol_div + config.tol_num, config),
            long_min: Self::bound(config.short, Self::LONG_MUL, config.tol_div - config.tol_num, config),
            long_max: Self::bound(config.short, Self::LONG_MUL, config.tol_div + config.tol_num, config),
            start_1_min: Self::bound(config.short, Self::START_1_MUL, config.tol_div - config.tol_num, config),
            start_1_max: Self::bound(config.short, Self::START_1_MUL, config.tol_div + config.tol_num, config),
            start_0_min: Self::bound(config.short, Self::START_0_MUL, config.tol_div - config.tol_num, config),
            start_0_max: Self::bound(config.short, Self::START_0_MUL, config.tol_div + config.tol_num, config),
            repeat_min: Self::bound(config.short, Self::REPEAT_MUL, config.tol_div - config.tol_num, config),
            repeat_max: Self::bound(config.short, Self::REPEAT_MUL, config.tol_div + config.tol_num, config),
        }
    }

    /// Computes one window bound without overflowing.
    fn bound(short: u16, mul: u16, tol: u16, config: NecIrTimingConfig) -> (r: u16)
        requires
            short == config.short,
            0 < config.tol_num < config.tol_div,
            config.tol_div + config.tol_num <= u16::MAX,
            config.short * 16 * (config.tol_div + config.tol_num) <= u16::MAX,
            1 <= mul <= 16,
            tol <= config.tol_div + config.tol_num,
        ensures
            r == nec_bound(short, mul as int, tol as int, config.tol_div),
    {
        proof {
            vstd::arithmetic::mul::lemma_mul_inequality(mul as int, 16, short as int);
            vstd::arithmetic::mul::lemma_mul_is_commutative(short as int, mul as int);
            vstd::arithmetic::mul::lemma_mul_is_commutative(short as int, 16);
            vstd::arithmetic::mul::lemma_mul_upper_bound(
                short * mul as int,
                short * 16 as int,
                tol as int,
                (config.tol_div + config.tol_num) as int,
            );
            vstd::arithmetic::div_mod::lemma_div_is_ordered(
                short * mul * tol as int,
                short * 16 * ((config.tol_div + config.tol_num) as int),
                config.tol_div as int,
            );
            vstd::arithmetic::div_mod::lemma_div_nonincreasing(
                short * 16 * ((config.tol_div + config.tol_num) as int),
                config.tol_div as int,
            );
        }
        let wide: u64 = (short as u64) * (mul as u64) * (tol as u64);
        let r = wide / (config.tol_div as u64);
        r as u16
    }
}

/// Number of (mark, space) pairs the byte decoder examines: at most eight,
/// fewer when the sequence runs out first.
pub open spec fn nec_pairs(s: Seq<u16>) -> int {
    if s.len() >= 16 {
        8
    } else {
        (s.len() as int) / 2
    }
}

/// The byte decoder's fold, starting at pair `j` with accumulator `n`: each
/// pair must open with a short mark; a short space shifts a zero bit into the
/// accumulator from the top, a long space a one bit (so bits arrive least
/// significant first); anything else is an error. Exactly eight good pairs
/// yield the byte.
pub open spec fn nec_decode_u8_rec(dec: NecDecoder, s: Seq<u16>, j: int, n: u8) -> Result<
    u8,
    NecDecodeError,
>
    decreases 8 - j,
{
    if j < 0 || j >= 8 || j >= nec_pairs(s) {
        if j == 8 {
            Ok(n)
        } else {
            Err(NecDecodeError::InvalidPulseCountTooShort)
        }
    } else {
        let p1 = s[2 * j];
        let p0 = s[2 * j + 1];
        if !in_range_spec(p1, dec.short_min, dec.short_max) {
            Err(NecDecodeError::Data1InvalidLength(p1))
        } else if in_range_spec(p0, dec.short_min, dec.short_max) {
            nec_decode_u8_rec(dec, s, j + 1, n / 2)
        } else if in_range_spec(p0, dec.long_min, dec.long_max) {
            nec_decode_u8_rec(dec, s, j + 1, (n / 2 + 128) as u8)
        } else {
            Err(NecDecodeError::Data0InvalidLength)
        }
    }
}

/// One byte decoded from the opening of `s` (at most 16 pulses are
/// examined).
pub open spec fn nec_decode_u8_spec(dec: NecDecoder, s: Seq<u16>) -> Result<u8, NecDecodeError> {
    nec_decode_u8_rec(dec, s, 0, 0u8)
}

/// A whole frame decoded from `s`: preamble, four bytes with their inverted
/// checks, stop mark, and nothing after it.
pub open spec fn nec_decode_spec(dec: NecDecoder, s: Seq<u16>) -> Result<
    NecMessage,
    NecDecodeError,
> {
    if s.len() < 1 {
        Err(NecDecodeError::InvalidPulseCountTooShort)
    } else if !in_range_spec(s[0], dec.start_1_min, dec.start_1_max) {
        Err(NecDecodeError::Start1InvalidLength)
    } else if s.len() < 2 {
        Err(NecDecodeError::InvalidPulseCountTooShort)
    } else if in_range_spec(s[1], dec.repeat_min, dec.repeat_max) {
        Ok(NecMessage::Repeat)
    } else if !in_range_spec(s[1], dec.start_0_min, dec.start_0_max) {
        Err(NecDecodeError::Start0InvalidLength)
    } else {
        let ra = nec_decode_u8_spec(dec, s.skip(2));
        if ra is Err {
            Err(ra->Err_0)
        } else {
            let rai = nec_decode_u8_spec(dec, s.skip(18));
            if rai is Err {
                Err(rai->Err_0)
            } else if ra->Ok_0 ^ rai->Ok_0 != 0xffu8 {
                Err(NecDecodeError::AddressInvertedNotMatching)
            } else {
                let rm = nec_decode_u8_spec(dec, s.skip(34));
                if rm is Err {
                    Err(rm->Err_0)
                } else {
                    let rmi = nec_decode_u8_spec(dec, s.skip(50));
                    if rmi is Err {
                        Err(rmi->Err_0)
                    } else if rm->Ok_0 ^ rmi->Ok_0 != 0xffu8 {
                        Err(NecDecodeError::MessageInvertedNotMatching)
                    } else if s.len() < 67 {
                        Err(NecDecodeError::InvalidPulseCountTooShort)
                    } else if !in_range_spec(s[66], dec.short_min, dec.short_max) {
                        Err(NecDecodeError::Last1InvalidLength)
                    } else if s.len() > 67 {
                        Err(NecDecodeError::InvalidPulseCountTooLong)
                    } else {
                        Ok(NecMessage::Message { address: ra->Ok_0, message: rm->Ok_0 })
                    }
                }
            }
        }
    }
}

impl NecDecoder {
    /// Decodes one byte from the front of `pulses`, examining at most 16
    /// pulses (eight mark/space pairs).
    pub fn decode_u8(&self, pulses: &[u16]) -> (r: Result<u8, NecDecodeError>)
        ensures
            r == nec_decode_u8_spec(*self, pulses@),
    {
        let lim: usize = if pulses.len() >= 16 {
            16
        } else {
            pulses.len()
        };
        let pairs: usize = lim / 2;
        let mut j: usize = 0;
        let mut n: u8 = 0;
        while j < pairs
            invariant
                pairs == nec_pairs(pulses@),
                pairs <= 8,
                2 * pairs <= pulses@.len(),
                j <= pairs,
                nec_decode_u8_rec(*self, pulses@, j as int, n) == nec_decode_u8_spec(
                    *self,
                    pulses@,
                ),
            decreases pairs - j,
        {
            let p1 = pulses[2 * j];
            let p0 = pulses[2 * j + 1];
            if !in_range(p1, self.short_min, self.short_max) {
                return Err(NecDecodeError::Data1InvalidLength(p1));
            }
            let prev = n;
            if in_range(p0, self.short_min, self.short_max) {
                n = prev >> 1;
                proof {
                    assert(prev >> 1 == prev / 2) by (bit_vector);
                }
            } else if in_range(p0, self.long_min, self.long_max) {
                n = (prev >> 1) | Self::MS_1;
                proof {
                    assert((prev >> 1) | 0x80u8 == prev / 2 + 128) by (bit_vector);
                }
            } else {
                return Err(NecDecodeError::Data0InvalidLength);
            }
            j = j + 1;
        }
        if j != 8 {
            Err(NecDecodeError::InvalidPulseCountTooShort)
        } else {
            Ok(n)
        }
    }

    /// Decodes a whole frame: the result is exactly `nec_decode_spec` on the
    /// pulse sequence — a repeat marker, a decoded (address, command) pair,
    /// or the specific way the sequence violates the format.
    pub fn decode(&self, pulses: &[u16]) -> (r: Result<NecMessage, NecDecodeError>)
        ensures
            r == nec_decode_spec(*self, pulses@),
    {
        if pulses.len() < 1 {
            return Err(NecDecodeError::InvalidPulseCountTooShort);
        }
        let start1 = pulses[0];
        if !in_range(start1, self.start_1_min, self.start_1_max) {
            return Err(NecDecodeError::Start1InvalidLength);
        }
        if pulses.len() < 2 {
            return Err(NecDecodeError::InvalidPulseCountTooShort);
        }
        let start0 = pulses[1];
        if in_range(start0, self.repeat_min, self.repeat_max) {
            return Ok(NecMessage::Repeat);
        }
        if !in_range(start0, self.start_0_min, self.start_0_max) {
            return Err(NecDecodeError::Start0InvalidLength);
        }

        proof {
            assert(pulses@.subrange(2, pulses@.len() as int) =~= pulses@.skip(2));
        }
        let address = match self.decode_u8(&pulses[2..pulses.len()]) {
            Ok(v) => v,
            Err(e) => {
                return Err(e);
            },
        };
        proof {
            lemma_nec_byte_needs_16(*self, pulses@.skip(2));
            assert(pulses@.subrange(18, pulses@.len() as int) =~= pulses@.skip(18));
        }
        let address_inverted = match self.decode_u8(&pulses[18..pulses.len()]) {
            Ok(v) => v,
            Err(e) => {
                return Err(e);
            },
        };
        proof {
            lemma_nec_byte_needs_16(*self, pulses@.skip(18));
        }
        if address ^ address_inverted != 0xff {
            return Err(NecDecodeError::AddressInvertedNotMatching);
        }
        proof {
            assert(pulses@.subrange(34, pulses@.len() as int) =~= pulses@.skip(34));
        }
        let message = match self.decode_u8(&pulses[34..pulses.len()]) {
            Ok(v) => v,
            Err(e) => {
                return Err(e);
            },
        };
        proof {
            lemma_nec_byte_needs_16(*self, pulses@.skip(34));
            assert(pulses@.subrange(50, pulses@.len() as int) =~= pulses@.skip(50));
        }
        let message_inverted = match self.decode_u8(&pulses[50..pulses.len()]) {
            Ok(v) => v,
            Err(e) => {
                return Err(e);
            },
        };
        proof {
            lemma_nec_byte_needs_16(*self, pulses@.skip(50));
        }
        if message ^ message_inverted != 0xff {
            return Err(NecDecodeError::MessageInvertedNotMatching);
        }
        if pulses.len() < 67 {
            return Err(NecDecodeError::InvalidPulseCountTooShort);
        }
        let last = pulses[66];
        if !in_range(last, self.short_min, self.short_max) {
            return Err(NecDecodeError::Last1InvalidLength);
        }
        if pulses.len() > 67 {
            return Err(NecDecodeError::InvalidPulseCountTooLong);
        }
        Ok(NecMessage::Message { address, message })
    }
}

/// A successfully decoded byte consumed exactly sixteen pulses, so the
/// sequence had at least that many.
proof fn lemma_nec_byte_needs_16(dec: NecDecoder, s: Seq<u16>)
    requires
        nec_decode_u8_spec(dec, s) is Ok,
    ensures
        s.len() >= 16,
{
    if s.len() < 16 {
        lemma_nec_short_fails(dec, s, 0, 0u8);
    }
}

/// The byte fold cannot reach eight pairs on a sequence shorter than sixteen
/// pulses.
proof fn lemma_nec_short_fails(dec: NecDecoder, s: Seq<u16>, j: int, n: u8)
    requires
        s.len() < 16,
        0 <= j <= nec_pairs(s),
    ensures
        nec_decode_u8_rec(dec, s, j, n) is Err,
    decreases 8 - j,
{
    if !(j >= 8 || j >= nec_pairs(s)) {
        let p0 = s[2 * j + 1];
        if in_range_spec(p0, dec.short_min, dec.short_max) {
            lemma_nec_short_fails(dec, s, j + 1, (n / 2) as u8);
        } else if in_range_spec(p0, dec.long_min, dec.long_max) {
            lemma_nec_short_fails(dec, s, j + 1, (n / 2 + 128) as u8);
        }
    } else {
        assert(j != 8 || nec_pairs(s) < 8);
    }
}

#[derive(Debug, Clone, Copy, PartialEq, Eq, Structural)]
pub enum IrNecRxState {
    Active,
    Error,
}

/// Infrared receiver driver: drains the capture channel's interrupt bits,
/// decodes a finished capture as a NEC frame, and reports the outcome. A
/// capture-channel hardware error is terminal; a frame that merely violates
/// the format is reported and listening continues.
pub struct IrNecRx {
    pub nec_decoder: NecDecoder,
    pub state: IrNecRxState,
    /// The verdict on the last finished capture, kept for the diagnostics.
    pub last_result: Option<Result<NecMessage, NecDecodeError>>,
}

impl IrNecRx {
    /// A decoder tuned for the capture channel's tick length: a base unit of
    /// 20 ticks with 50% tolerance.
    pub fn new() -> (rx: IrNecRx)
        ensures
            rx.state == IrNecRxState::Active,
            rx.last_result is None,
            rx.nec_decoder == nec_decoder_spec(
                NecIrTimingConfig { short: 20, tol_div: 2, tol_num: 1 },
            ),
    {
        proof {
            assert(20int * 16 * (2 + 1) == 960);
        }
        let nec_decoder = NecDecoder::new(NecIrTimingConfig { short: 20, tol_div: 2, tol_num: 1 });
        IrNecRx { nec_decoder, state: IrNecRxState::Active, last_result: None }
    }

    /// Enables the capture channel.
    pub fn start(&mut self, rmt: &mut RmtRxChannel)
        ensures
            *final(self) == *old(self),
            final(rmt).rx_enabled,
            final(rmt).fifo@ == old(rmt).fifo@,
    {
        rmt.ch2_start();
    }

    /// Handles the capture channel's end/error interrupts: on an error the
    /// driver parks in `Error`; on a finished capture it decodes the captured
    /// pulse lengths, reports the message or format violation, and resets the
    /// channel for the next frame. Returns whether an interrupt was handled.
    /// Once in `Error`, every later call returns false and changes nothing.
    pub fn update<S: DiagnosticSink>(
        &mut self,
        rmt: &mut RmtRxChannel,
        rmt_mailbox: &mut Mailbox,
        sink: &mut S,
        now: u64,
    ) -> (did: bool)
        requires
            old(sink).inv(),
        ensures
            final(sink).inv(),
            final(self).nec_decoder == old(self).nec_decoder,
            did ==> noted_k_more(old(sink).noted(), final(sink).noted(), 1),
            !did ==> final(sink).noted() == old(sink).noted(),
            old(self).state == IrNecRxState::Error ==> !did && *final(self) == *old(self) && *final(rmt) == *old(rmt) && *final(rmt_mailbox) == *old(rmt_mailbox),
            old(self).state == IrNecRxState::Active ==> {
                let drained = old(rmt_mailbox)@ & (RMTInterruptStatus::CH2_END
                    | RMTInterruptStatus::CH2_ERROR);
                &&& final(rmt_mailbox)@ == old(rmt_mailbox)@ & !(RMTInterruptStatus::CH2_END
                    | RMTInterruptStatus::CH2_ERROR)
                &&& did == (drained != 0)
                &&& (if drained == 0 {
                    *final(self) == *old(self) && *final(rmt) == *old(rmt)
                } else if drained & RMTInterruptStatus::CH2_ERROR != 0 {
                    final(self).state == IrNecRxState::Error && *final(rmt) == *old(rmt)
                } else {
                    &&& final(self).state == IrNecRxState::Active
                    &&& final(rmt).fifo@ == Seq::<crate::rmt_tx::PulseCode>::empty()
                    &&& final(rmt).rx_enabled == old(rmt).rx_enabled
                    &&& final(self).last_result == Some(
                        nec_decode_spec(
                            old(self).nec_decoder,
                            crate::pac_utils::rmt::captured_lengths(old(rmt).fifo@),
                        ),
                    )
                })
            },
    {
        match self.state {
            IrNecRxState::Active => {
                let pending_interrupts = rmt_interrupt_get_and_clear(
                    rmt_mailbox,
                    RMTInterruptStatus::from_bits_truncate(
                        RMTInterruptStatus::CH2_END | RMTInterruptStatus::CH2_ERROR,
                    ),
                );
                proof {
                    let b = old(rmt_mailbox)@;
                    assert(0x4u32 | 0x40u32 == 0x44u32) by (bit_vector);
                    assert(0x44u32 & 0x44u32 == 0x44u32) by (bit_vector);
                    assert(b & 0x44u32 & 0x44u32 == b & 0x44u32) by (bit_vector);
                }
                if pending_interrupts.is_empty() {
                    return false;
                }
                match RMTError::from_interrupt_flags(pending_interrupts) {
                    Some(_) => {
                        sink.note("capture channel error: receiver stopped\n", now);
                        self.state = IrNecRxState::Error;
                    },
                    None => {
                        let recieved = rmt.ch2_fifo_lengths();
                        let nec_decode_result = self.nec_decoder.decode(recieved.as_slice());
                        rmt.ch2_reset_after_recieving();
                        match nec_decode_result {
                            Ok(NecMessage::Repeat) => {
                                sink.note("received: repeat\n", now);
                            },
                            Ok(NecMessage::Message { address, message }) => {
                                let mut line = String::new();
                                line.append("received: address ");
                                line.append(u32_to_decimal(address as u32).as_str());
                                line.append(" message ");
                                line.append(u32_to_decimal(message as u32).as_str());
                                line.append("\n");
                                sink.note(line.as_str(), now);
                            },
                            Err(e) => {
                                let mut line = String::new();
                                line.append("frame did not decode: ");
                                line.append(e.describe());
                                line.append("\n");
                                sink.note(line.as_str(), now);
                            },
                        }
                        self.last_result = Some(nec_decode_result);
                    },
                }
                true
            },
            IrNecRxState::Error => false,
        }
    }
}

/// The decoder `IrNecRx::new` builds.
pub open spec fn nec_decoder_spec(config: NecIrTimingConfig) -> NecDecoder {
    NecDecoder {
        short_min: nec_bound(config.short, 1, config.tol_div - config.tol_num, config.tol_div) as u16,
        short_max: nec_bound(config.short, 1, config.tol_div + config.tol_num, config.tol_div) as u16,
        long_min: nec_bound(config.short, 3, config.tol_div - config.tol_num, config.tol_div) as u16,
        long_max: nec_bound(config.short, 3, config.tol_div + config.tol_num, config.tol_div) as u16,
        start_1_min: nec_bound(config.short, 16, config.tol_div - config.tol_num, config.tol_div) as u16,
        start_1_max: nec_bound(config.short, 16, config.tol_div + config.tol_num, config.tol_div) as u16,
        start_0_min: nec_bound(config.short, 8, config.tol_div - config.tol_num, config.tol_div) as u16,
        start_0_max: nec_bound(config.short, 8, config.tol_div + config.tol_num, config.tol_div) as u16,
        repeat_min: nec_bound(config.short, 4, config.tol_div - config.tol_num, config.tol_div) as u16,
        repeat_max: nec_bound(config.short, 4, config.tol_div + config.tol_num, config.tol_div) as u16,
    }
}

} // verus!
