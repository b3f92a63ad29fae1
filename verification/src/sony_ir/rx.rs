//! Decoder for received Sony infrared frames: classifies the gaps between
//! pulse timestamps as short, mid or long against tolerance windows and
//! accumulates data bits until the line goes quiet.

use vstd::prelude::*;
use crate::sony_ir::SonyIRRawCommand;

verus! {

/// Tolerance windows around the three nominal pulse lengths.
#[derive(Debug, Clone, Copy, PartialEq, Eq, Structural)]
pub struct SonyIRPulseRanges {
    pub short_min: u64,
    pub short_max: u64,
    pub mid_min: u64,
    pub mid_max: u64,
    pub long_min: u64,
    pub long_max: u64,
}

/// `base * tol / div`, the shape of every window bound.
pub open spec fn range_bound(base: u64, tol: u64, div: u64) -> int {
    (base * tol) as int / div as int
}

impl SonyIRPulseRanges {
    /// Builds the windows: `short_min` gets its own (wider) tolerance pair so
    /// a clipped first pulse still registers.
    pub fn with_short_min(
        range_div: u64,
        range_num: u64,
        short_min_div: u64,
        short_min_num: u64,
    ) -> (r: SonyIRPulseRanges)
        requires
            0 < range_num < range_div,
            0 < short_min_num < short_min_div,
            SonyIRDeltaDecoder::PULSE_LONG * (range_div + range_num) <= u64::MAX,
            SonyIRDeltaDecoder::PULSE_SHORT * short_min_div <= u64::MAX,
        ensures
            r.short_min == range_bound(SonyIRDeltaDecoder::PULSE_SHORT, (short_min_div - short_min_num) as u64, short_min_div),
            r.short_max == range_bound(SonyIRDeltaDecoder::PULSE_SHORT, (range_div + range_num) as u64, range_div),
            r.mid_min == range_bound(SonyIRDeltaDecoder::PULSE_MID, (range_div - range_num) as u64, range_div),
            r.mid_max == range_bound(SonyIRDeltaDecoder::PULSE_MID, (range_div + range_num) as u64, range_div),
            r.long_min == range_bound(SonyIRDeltaDecoder::PULSE_LONG, (range_div - range_num) as u64, range_div),
            r.long_max == range_bound(SonyIRDeltaDecoder::PULSE_LONG, (range_div + range_num) as u64, range_div),
    {
        proof {
            lemma_range_products_fit(range_div, range_num);
            vstd::arithmetic::mul::lemma_mul_inequality(
                (short_min_div - short_min_num) as int,
                short_min_div as int,
                SonyIRDeltaDecoder::PULSE_SHORT as int,
            );
            vstd::arithmetic::mul::lemma_mul_is_commutative(
                SonyIRDeltaDecoder::PULSE_SHORT as int,
                (short_min_div - short_min_num) as int,
            );
            vstd::arithmetic::mul::lemma_mul_is_commutative(
                SonyIRDeltaDecoder::PULSE_SHORT as int,
                short_min_div as int,
            );
        }
        SonyIRPulseRanges {
            short_min: SonyIRDeltaDecoder::PULSE_SHORT * (short_min_div - short_min_num)
                / short_min_div,
            short_max: SonyIRDeltaDecoder::PULSE_SHORT * (range_div + range_num) / range_div,
            mid_min: SonyIRDeltaDecoder::PULSE_MID * (range_div - range_num) / range_div,
            mid_max: SonyIRDeltaDecoder::PULSE_MID * (range_div + range_num) / range_div,
            long_min: SonyIRDeltaDecoder::PULSE_LONG * (range_div - range_num) / range_div,
            long_max: SonyIRDeltaDecoder::PULSE_LONG * (range_div + range_num) / range_div,
        }
    }

    pub fn is_short(&self, delta: u64) -> (r: bool)
        ensures
            r == (self.short_min <= delta <= self.short_max),
    {
        self.short_min <= delta && delta <= self.short_max
    }

    pub fn is_long(&self, delta: u64) -> (r: bool)
        ensures
            r == (self.long_min <= delta <= self.long_max),
    {
        self.long_min <= delta && delta <= self.long_max
    }
}

/// The long-window product dominates every other window product.
proof fn lemma_range_products_fit(range_div: u64, range_num: u64)
    requires
        0 < range_num < range_div,
        SonyIRDeltaDecoder::PULSE_LONG * (range_div + range_num) <= u64::MAX,
    ensures
        SonyIRDeltaDecoder::PULSE_SHORT * (range_div + range_num) <= u64::MAX,
        SonyIRDeltaDecoder::PULSE_SHORT * (range_div - range_num) <= u64::MAX,
        SonyIRDeltaDecoder::PULSE_MID * (range_div + range_num) <= u64::MAX,
        SonyIRDeltaDecoder::PULSE_MID * (range_div - range_num) <= u64::MAX,
        SonyIRDeltaDecoder::PULSE_LONG * (range_div - range_num) <= u64::MAX,
{
    vstd::arithmetic::mul::lemma_mul_upper_bound(
        SonyIRDeltaDecoder::PULSE_MID as int,
        SonyIRDeltaDecoder::PULSE_LONG as int,
        (range_div + range_num) as int,
        (range_div + range_num) as int,
    );
    vstd::arithmetic::mul::lemma_mul_upper_bound(
        SonyIRDeltaDecoder::PULSE_SHORT as int,
        SonyIRDeltaDecoder::PULSE_LONG as int,
        (range_div + range_num) as int,
        (range_div + range_num) as int,
    );
    vstd::arithmetic::mul::lemma_mul_upper_bound(
        SonyIRDeltaDecoder::PULSE_MID as int,
        SonyIRDeltaDecoder::PULSE_LONG as int,
        (range_div - range_num) as int,
        (range_div + range_num) as int,
    );
    vstd::arithmetic::mul::lemma_mul_upper_bound(
        SonyIRDeltaDecoder::PULSE_SHORT as int,
        SonyIRDeltaDecoder::PULSE_LONG as int,
        (range_div - range_num) as int,
        (range_div + range_num) as int,
    );
    vstd::arithmetic::mul::lemma_mul_upper_bound(
        SonyIRDeltaDecoder::PULSE_LONG as int,
        SonyIRDeltaDecoder::PULSE_LONG as int,
        (range_div - range_num) as int,
        (range_div + range_num) as int,
    );
}

#[derive(Debug, Clone, Copy, PartialEq, Eq, Structural)]
pub enum SonyIRError {
    Unknown,
}

#[derive(Debug, Clone, Copy, PartialEq, Eq, Structural)]
pub enum SonyIRDecoderState {
    Idle,
    StartWaitingLong,
    StartWaitingShort,
    Recieving { data: u32, bit: u8, waiting_zero: bool },
    Error(SonyIRError),
}

/// Decoder over the gaps between pulse edges.
pub struct SonyIRDeltaDecoder {
    pub ranges: SonyIRPulseRanges,
    pub state: SonyIRDecoderState,
}

/// The state after feeding one gap of `delta` ticks: a long gap opens a
/// frame, a short gap finishes the preamble, then value gaps (short = zero
/// bit, mid = one bit) alternate with short separators until the twentieth
/// bit or a gap that fits no window, which is an error.
pub open spec fn sony_pulse_next(dec: SonyIRDeltaDecoder, delta: u64) -> SonyIRDecoderState {
    let ranges = dec.ranges;
    match dec.state {
        SonyIRDecoderState::Idle => SonyIRDecoderState::StartWaitingLong,
        SonyIRDecoderState::StartWaitingLong => {
            if ranges.long_min <= delta <= ranges.long_max {
                SonyIRDecoderState::StartWaitingShort
            } else {
                SonyIRDecoderState::Error(SonyIRError::Unknown)
            }
        },
        SonyIRDecoderState::StartWaitingShort => {
            if ranges.short_min <= delta <= ranges.short_max {
                SonyIRDecoderState::Recieving { data: 0, bit: 0, waiting_zero: false }
            } else {
                SonyIRDecoderState::Error(SonyIRError::Unknown)
            }
        },
        SonyIRDecoderState::Recieving { data, bit, waiting_zero } => {
            if waiting_zero {
                if ranges.short_min <= delta <= ranges.short_max {
                    if bit == 19 {
                        SonyIRDecoderState::Error(SonyIRError::Unknown)
                    } else {
                        SonyIRDecoderState::Recieving {
                            data,
                            bit: (bit + 1) as u8,
                            waiting_zero: false,
                        }
                    }
                } else {
                    SonyIRDecoderState::Error(SonyIRError::Unknown)
                }
            } else {
                if delta < ranges.short_min {
                    SonyIRDecoderState::Error(SonyIRError::Unknown)
                } else if delta <= ranges.short_max {
                    SonyIRDecoderState::Recieving { data, bit, waiting_zero: true }
                } else if delta < ranges.mid_min {
                    SonyIRDecoderState::Error(SonyIRError::Unknown)
                } else if delta <= ranges.mid_max {
                    SonyIRDecoderState::Recieving {
                        data: data | (1u32 << bit),
                        bit,
                        waiting_zero: true,
                    }
                } else {
                    SonyIRDecoderState::Error(SonyIRError::Unknown)
                }
            }
        },
        SonyIRDecoderState::Error(e) => SonyIRDecoderState::Error(e),
    }
}

/// What a quiet line yields: a raw command exactly when the decoder stands
/// after a completed separator at a valid frame length (12, 15 or 20 bits).
pub open spec fn sony_timeout_result(state: SonyIRDecoderState) -> Result<
    SonyIRRawCommand,
    SonyIRError,
> {
    match state {
        SonyIRDecoderState::Recieving { data, bit, waiting_zero } => {
            let bits = bit + 1;
            if waiting_zero && (bits == 12 || bits == 15 || bits == 20) {
                Ok(SonyIRRawCommand { data, bits: bits as u8 })
            } else {
                Err(SonyIRError::Unknown)
            }
        },
        SonyIRDecoderState::Error(err) => Err(err),
        _ => Err(SonyIRError::Unknown),
    }
}

impl SonyIRDeltaDecoder {
    /// Nominal gap of a zero bit (600 us at 16 ticks per microsecond).
    pub const PULSE_SHORT: u64 = 600 * 16;

    /// Nominal gap of a one bit.
    pub const PULSE_MID: u64 = 1200 * 16;

    /// Nominal gap of the frame preamble.
    pub const PULSE_LONG: u64 = 2400 * 16;

    /// No bit index outgrows the accumulator word.
    pub open spec fn well_formed(&self) -> bool {
        match self.state {
            SonyIRDecoderState::Recieving { bit, .. } => bit <= 19,
            _ => true,
        }
    }

    /// One-third tolerance ranges.
    pub fn new() -> (d: SonyIRDeltaDecoder)
        ensures
            d.well_formed(),
            d.state == SonyIRDecoderState::Idle,
            d.ranges == (SonyIRPulseRanges {
                short_min: range_bound(Self::PULSE_SHORT, 1, 2) as u64,
                short_max: range_bound(Self::PULSE_SHORT, 4, 3) as u64,
                mid_min: range_bound(Self::PULSE_MID, 2, 3) as u64,
                mid_max: range_bound(Self::PULSE_MID, 4, 3) as u64,
                long_min: range_bound(Self::PULSE_LONG, 2, 3) as u64,
                long_max: range_bound(Self::PULSE_LONG, 4, 3) as u64,
            }),
    {
        SonyIRDeltaDecoder::with_range(3, 1)
    }

    /// Ranges with the given tolerance ratio (and a fixed half-width lower
    /// short bound).
    pub fn with_range(pulse_range_div: u64, pulse_range_num: u64) -> (d: SonyIRDeltaDecoder)
        requires
            0 < pulse_range_num < pulse_range_div,
            Self::PULSE_LONG * (pulse_range_div + pulse_range_num) <= u64::MAX,
        ensures
            d.well_formed(),
            d.state == SonyIRDecoderState::Idle,
            d.ranges == (SonyIRPulseRanges {
                short_min: range_bound(Self::PULSE_SHORT, 1, 2) as u64,
                short_max: range_bound(Self::PULSE_SHORT, (pulse_range_div + pulse_range_num) as u64, pulse_range_div) as u64,
                mid_min: range_bound(Self::PULSE_MID, (pulse_range_div - pulse_range_num) as u64, pulse_range_div) as u64,
                mid_max: range_bound(Self::PULSE_MID, (pulse_range_div + pulse_range_num) as u64, pulse_range_div) as u64,
                long_min: range_bound(Self::PULSE_LONG, (pulse_range_div - pulse_range_num) as u64, pulse_range_div) as u64,
                long_max: range_bound(Self::PULSE_LONG, (pulse_range_div + pulse_range_num) as u64, pulse_range_div) as u64,
            }),
    {
        SonyIRDeltaDecoder {
            ranges: SonyIRPulseRanges::with_short_min(pulse_range_div, pulse_range_num, 2, 1),
            state: SonyIRDecoderState::Idle,
        }
    }

    /// Feeds one gap; the caller resets its reference timestamp on `Ok`.
    /// The result is `Err` exactly when the gap drove the decoder into the
    /// error state (where it stays until a timeout resets it).
    pub fn pulse(&mut self, delta: u64) -> (r: Result<(), SonyIRError>)
        requires
            old(self).well_formed(),
        ensures
            final(self).well_formed(),
            final(self).ranges == old(self).ranges,
            final(self).state == sony_pulse_next(*old(self), delta),
            r == (match sony_pulse_next(*old(self), delta) {
                SonyIRDecoderState::Error(e) => Err::<(), SonyIRError>(e),
                _ => Ok::<(), SonyIRError>(()),
            }),
    {
        match self.state {
            SonyIRDecoderState::Idle => {
                self.state = SonyIRDecoderState::StartWaitingLong;
            },
            SonyIRDecoderState::StartWaitingLong => {
                if self.ranges.is_long(delta) {
                    self.state = SonyIRDecoderState::StartWaitingShort;
                } else {
                    self.state = SonyIRDecoderState::Error(SonyIRError::Unknown);
                }
            },
            SonyIRDecoderState::StartWaitingShort => {
                if self.ranges.is_short(delta) {
                    self.state = SonyIRDecoderState::Recieving {
                        data: 0,
                        bit: 0,
                        waiting_zero: false,
                    };
                } else {
                    self.state = SonyIRDecoderState::Error(SonyIRError::Unknown);
                }
            },
            SonyIRDecoderState::Recieving { data, bit, waiting_zero } => {
                if waiting_zero {
                    if self.ranges.is_short(delta) {
                        if bit == 19 {
                            self.state = SonyIRDecoderState::Error(SonyIRError::Unknown);
                        } else {
                            self.state = SonyIRDecoderState::Recieving {
                                data,
                                bit: bit + 1,
                                waiting_zero: false,
                            };
                        }
                    } else {
                        self.state = SonyIRDecoderState::Error(SonyIRError::Unknown);
                    }
                } else {
                    if delta < self.ranges.short_min {
                        self.state = SonyIRDecoderState::Error(SonyIRError::Unknown);
                    } else if delta <= self.ranges.short_max {
                        self.state = SonyIRDecoderState::Recieving {
                            data,
                            bit,
                            waiting_zero: true,
                        };
                    } else if delta < self.ranges.mid_min {
                        self.state = SonyIRDecoderState::Error(SonyIRError::Unknown);
                    } else if delta <= self.ranges.mid_max {
                        self.state = SonyIRDecoderState::Recieving {
                            data: data | (1u32 << bit),
                            bit,
                            waiting_zero: true,
                        };
                    } else {
                        self.state = SonyIRDecoderState::Error(SonyIRError::Unknown);
                    }
                }
            },
            SonyIRDecoderState::Error(_) => {},
        }

        match self.state {
            SonyIRDecoderState::Error(error) => Err(error),
            _ => Ok(()),
        }
    }

    /// The line went quiet: yields the accumulated command (or the reason
    /// none was formed) and resets for the next frame.
    pub fn timeout(&mut self) -> (r: Result<SonyIRRawCommand, SonyIRError>)
        requires
            old(self).well_formed(),
        ensures
            final(self).well_formed(),
            final(self).ranges == old(self).ranges,
            final(self).state == SonyIRDecoderState::Idle,
            r == sony_timeout_result(old(self).state),
    {
        let result = match self.state {
            SonyIRDecoderState::Recieving { data, bit, waiting_zero } => {
                let bits = bit + 1;
                if waiting_zero && (bits == 12 || bits == 15 || bits == 20) {
                    Ok(SonyIRRawCommand { data, bits })
                } else {
                    Err(SonyIRError::Unknown)
                }
            },
            SonyIRDecoderState::Error(err) => Err(err),
            _ => Err(SonyIRError::Unknown),
        };
        self.reset();
        result
    }

    /// Discards any partial frame.
    pub fn reset(&mut self)
        ensures
            *final(self) == (SonyIRDeltaDecoder {
                state: SonyIRDecoderState::Idle,
                ..*old(self)
            }),
    {
        self.state = SonyIRDecoderState::Idle;
    }
}

/// One observation handed to the decoder: a pulse edge timestamp, or the
/// quiet-line timeout.
#[derive(Debug, Clone, Copy, PartialEq, Eq, Structural)]
pub enum SonyIREvent {
    TimeOut,
    Pulse(u64),
}

/// Decoder over absolute pulse timestamps: differences feed the delta
/// decoder.
pub struct SonyIRDecoder {
    pub decoder: SonyIRDeltaDecoder,
    pub last_pulse: u64,
}

impl SonyIRDecoder {
    pub fn new() -> (d: SonyIRDecoder)
        ensures
            d.decoder.well_formed(),
            d.decoder.state == SonyIRDecoderState::Idle,
            d.last_pulse == 0,
    {
        SonyIRDecoder { decoder: SonyIRDeltaDecoder::new(), last_pulse: 0 }
    }

    pub fn with_range(pulse_range_div: u64, pulse_range_num: u64) -> (d: SonyIRDecoder)
        requires
            0 < pulse_range_num < pulse_range_div,
            SonyIRDeltaDecoder::PULSE_LONG * (pulse_range_div + pulse_range_num) <= u64::MAX,
        ensures
            d.decoder.well_formed(),
            d.decoder.state == SonyIRDecoderState::Idle,
            d.last_pulse == 0,
    {
        SonyIRDecoder {
            decoder: SonyIRDeltaDecoder::with_range(pulse_range_div, pulse_range_num),
            last_pulse: 0,
        }
    }

    /// Feeds one observation: a pulse advances the delta decoder by the gap
    /// since the previous pulse; a timeout closes the frame and may yield a
    /// command; no observation is a no-op. Timestamps must not go backwards.
    pub fn update(&mut self, event: Option<SonyIREvent>) -> (r: Result<
        Option<SonyIRRawCommand>,
        SonyIRError,
    >)
        requires
            old(self).decoder.well_formed(),
            event matches Some(SonyIREvent::Pulse(p)) ==> p >= old(self).last_pulse,
        ensures
            final(self).decoder.well_formed(),
            final(self).decoder.ranges == old(self).decoder.ranges,
            (match event {
                Some(SonyIREvent::Pulse(p)) => {
                    let next = sony_pulse_next(
                        old(self).decoder,
                        (p - old(self).last_pulse) as u64,
                    );
                    &&& final(self).last_pulse == p
                    &&& final(self).decoder.state == next
                    &&& r == (match next {
                        SonyIRDecoderState::Error(e) => Err::<Option<SonyIRRawCommand>, SonyIRError>(e),
                        _ => Ok::<Option<SonyIRRawCommand>, SonyIRError>(None),
                    })
                },
                Some(SonyIREvent::TimeOut) => {
                    &&& final(self).last_pulse == old(self).last_pulse
                    &&& final(self).decoder.state == SonyIRDecoderState::Idle
                    &&& r == (match sony_timeout_result(old(self).decoder.state) {
                        Ok(c) => Ok::<Option<SonyIRRawCommand>, SonyIRError>(Some(c)),
                        Err(e) => Err::<Option<SonyIRRawCommand>, SonyIRError>(e),
                    })
                },
                None => r == Ok::<Option<SonyIRRawCommand>, SonyIRError>(None) && *final(self)
                    == *old(self),
            }),
    {
        match event {
            Some(SonyIREvent::Pulse(ir_pulse)) => {
                let ir_delta = ir_pulse - self.last_pulse;
                self.last_pulse = ir_pulse;
                match self.decoder.pulse(ir_delta) {
                    Ok(()) => Ok(None),
                    Err(e) => Err(e),
                }
            },
            Some(SonyIREvent::TimeOut) => {
                match self.decoder.timeout() {
                    Ok(c) => Ok(Some(c)),
                    Err(e) => Err(e),
                }
            },
            None => Ok(None),
        }
    }
}

} // verus!
