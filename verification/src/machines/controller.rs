//! Measurement aggregator: takes raw sensor measurements handed over by the
//! acquisition driver, reports them on the diagnostic sink, and keeps a
//! bounded history under the overwrite-oldest policy.

use vstd::prelude::*;
use crate::ring_buffer::{ow_push, Overwrite, RingBuffer};
use crate::sdc::RawMeasurment;
use crate::usb_writer::{noted_k_more, u32_to_decimal, DiagnosticSink};
use vstd::arithmetic::power2::{pow2, lemma_pow2_pos, lemma_pow2_strictly_increases, lemma2_to64};
use vstd::string::StringExecFns;

verus! {

#[derive(Debug, Clone, Copy, PartialEq, Eq, Structural)]
pub enum ParseFloatE3Error {
    Negative,
    TooSmall,
    TooBig,
}

/// `parse_float_e3` on the bit level: reject a set sign bit; subtract the
/// bias 124 from the 8-bit exponent field (so three binary places survive the
/// later division by eight implicit in the scale); line the 22 kept mantissa
/// bits up at the adjusted exponent, restore the hidden leading one, and
/// scale by 125 — together, the value in thousandths.
pub open spec fn parse_float_e3_spec(f: u32) -> Result<u32, ParseFloatE3Error> {
    let sign = f / 0x8000_0000;
    let exp_field = (f / 0x80_0000) % 256;
    let frac = f % 0x40_0000;
    if sign == 1 {
        Err(ParseFloatE3Error::Negative)
    } else if exp_field < 124 {
        Err(ParseFloatE3Error::TooSmall)
    } else if exp_field - 124 > 31 {
        Err(ParseFloatE3Error::TooBig)
    } else {
        let e = exp_field - 124;
        let base: int = if e < 23 {
            frac as int / pow2((23 - e) as nat) as int
        } else if e > 23 {
            frac as int * pow2((e - 23) as nat) as int
        } else {
            frac as int
        };
        let dec = base + pow2(e as nat) as int;
        if dec * 125 > u32::MAX {
            Err(ParseFloatE3Error::TooBig)
        } else {
            Ok((dec * 125) as u32)
        }
    }
}

/// `2^k` as a machine word, for small `k`.
fn pow2_u32(k: u32) -> (r: u32)
    requires
        k <= 31,
    ensures
        r == pow2(k as nat),
        r >= 1,
{
    let mut r: u32 = 1;
    let mut i: u32 = 0;
    proof {
        lemma2_to64();
    }
    while i < k
        invariant
            i <= k <= 31,
            r == pow2(i as nat),
        decreases k - i,
    {
        proof {
            lemma_pow2_bound((i + 1) as nat);
            vstd::arithmetic::power2::lemma_pow2_unfold((i + 1) as nat);
        }
        r = r * 2;
        i = i + 1;
    }
    r
}

/// `2^k` fits a machine word for `k` up to 31.
proof fn lemma_pow2_bound(k: nat)
    requires
        k <= 31,
    ensures
        1 <= pow2(k) <= 0x8000_0000,
{
    lemma_pow2_pos(k);
    lemma2_to64();
    if k < 31 {
        lemma_pow2_strictly_increases(k, 31);
    }
}

/// `2^k` stays small for `k` up to 8.
proof fn lemma_pow2_small(k: nat)
    requires
        k <= 8,
    ensures
        1 <= pow2(k) <= 256,
{
    lemma_pow2_pos(k);
    lemma2_to64();
    if k < 8 {
        lemma_pow2_strictly_increases(k, 8);
    }
}

/// Parses an IEEE single-precision bit pattern into thousandths of its value,
/// rejecting negative, too-small and too-large inputs. (Only the top 22
/// mantissa bits take part.)
pub fn parse_float_e3(f: u32) -> (r: Result<u32, ParseFloatE3Error>)
    ensures
        r == parse_float_e3_spec(f),
{
    let sign = f / 0x8000_0000;
    let exp_field = (f / 0x80_0000) % 256;
    let frac = f % 0x40_0000;

    if sign == 1 {
        return Err(ParseFloatE3Error::Negative);
    }
    if exp_field < 124 {
        return Err(ParseFloatE3Error::TooSmall);
    }
    let e = exp_field - 124;
    if e > 31 {
        return Err(ParseFloatE3Error::TooBig);
    }

    let base = if e < 23 {
        frac / pow2_u32(23 - e)
    } else if e > 23 {
        let m = pow2_u32(e - 23);
        proof {
            lemma_pow2_small((e - 23) as nat);
            vstd::arithmetic::mul::lemma_mul_upper_bound(
                frac as int,
                0x40_0000int - 1,
                pow2((e - 23) as nat) as int,
                256,
            );
        }
        frac * m
    } else {
        frac
    };
    proof {
        lemma_pow2_bound(e as nat);
        if e < 23 {
            vstd::arithmetic::div_mod::lemma_div_nonincreasing(
                frac as int,
                pow2((23 - e) as nat) as int,
            );
            lemma_pow2_bound((23 - e) as nat);
        }
        lemma_parse_base_bound(frac as int, e as int);
    }
    let dec = base + pow2_u32(e);

    match dec.checked_mul(125) {
        Some(v) => Ok(v),
        None => Err(ParseFloatE3Error::TooBig),
    }
}

/// The lined-up mantissa stays under `2^e`, so restoring the hidden bit
/// cannot overflow.
proof fn lemma_parse_base_bound(frac: int, e: int)
    requires
        0 <= frac < 0x40_0000,
        0 <= e <= 31,
    ensures
        (if e < 23 {
            frac / pow2((23 - e) as nat) as int
        } else if e > 23 {
            frac * pow2((e - 23) as nat) as int
        } else {
            frac
        }) + pow2(e as nat) <= u32::MAX,
{
    lemma_pow2_bound(e as nat);
    if e < 23 {
        lemma_pow2_bound((23 - e) as nat);
        vstd::arithmetic::div_mod::lemma_div_nonincreasing(frac, pow2((23 - e) as nat) as int);
    } else if e > 23 {
        lemma_pow2_small((e - 23) as nat);
        vstd::arithmetic::mul::lemma_mul_upper_bound(
            frac,
            0x40_0000int - 1,
            pow2((e - 23) as nat) as int,
            256,
        );
    }
}

/// One history entry: a raw measurement and the tick it arrived at.
#[derive(Debug, Clone, Copy, PartialEq)]
pub struct TimedMeasurment {
    pub measurment: RawMeasurment,
    pub at: u64,
}

/// The big-endian 32-bit value of four bytes.
pub open spec fn u32_be_spec(b: Seq<u8>) -> int {
    b[0] * 0x100_0000 + b[1] * 0x1_0000 + b[2] * 0x100 + b[3]
}

/// Reads a big-endian 32-bit value out of four bytes.
pub fn u32_from_be(b: &[u8; 4]) -> (r: u32)
    ensures
        r == u32_be_spec(b@),
{
    (b[0] as u32) * 0x100_0000 + (b[1] as u32) * 0x1_0000 + (b[2] as u32) * 0x100 + (b[3] as u32)
}

/// The diagnostic wording of one parse failure.
fn parse_error_text(e: ParseFloatE3Error) -> &'static str {
    match e {
        ParseFloatE3Error::Negative => "cannot parse value: negative\n",
        ParseFloatE3Error::TooSmall => "cannot parse value: too small\n",
        ParseFloatE3Error::TooBig => "cannot parse value: too big\n",
    }
}

/// Reports one value held in thousandths as "`label`W.F`unit`": exactly one
/// line goes to the sink.
fn report_milli_value<S: DiagnosticSink>(
    sink: &mut S,
    label: &str,
    milli: u32,
    unit: &str,
    now: u64,
)
    requires
        old(sink).inv(),
    ensures
        final(sink).inv(),
        noted_k_more(old(sink).noted(), final(sink).noted(), 1),
{
    let mut line = String::new();
    line.append(label);
    line.append(u32_to_decimal(milli / 1000).as_str());
    line.append(".");
    line.append(u32_to_decimal(milli % 1000).as_str());
    line.append(unit);
    sink.note(line.as_str(), now);
}

/// Takes measurements handed over by the acquisition driver, reports them,
/// and retains the last `N` with their arrival ticks.
pub struct Controller<const N: usize> {
    measurments: RingBuffer<TimedMeasurment, N, Overwrite>,
    pending_measurment: Option<RawMeasurment>,
}

impl<const N: usize> Controller<N> {
    pub closed spec fn well_formed(&self) -> bool {
        self.measurments.well_formed()
    }

    /// The retained history, oldest first.
    pub closed spec fn history(&self) -> Seq<TimedMeasurment> {
        self.measurments@
    }

    /// The measurement handed over but not yet processed, if any.
    pub closed spec fn pending(&self) -> Option<RawMeasurment> {
        self.pending_measurment
    }

    pub fn new() -> (c: Self)
        ensures
            c.well_formed(),
            c.history() == Seq::<TimedMeasurment>::empty(),
            c.pending() is None,
    {
        Controller { measurments: RingBuffer::new(), pending_measurment: None }
    }

    /// How many measurements the history currently retains.
    pub fn history_len(&self) -> (n: usize)
        requires
            self.well_formed(),
        ensures
            n == self.history().len(),
    {
        self.measurments.len()
    }

    /// Hands a fresh measurement over; it is processed by the next `update`.
    pub fn on_measurment(&mut self, measurment: RawMeasurment)
        requires
            old(self).well_formed(),
        ensures
            final(self).well_formed(),
            final(self).pending() == Some(measurment),
            final(self).history() == old(self).history(),
    {
        self.pending_measurment = Some(measurment);
    }

    /// Processes the pending measurement, if any: parses its three fields
    /// into thousandths, reports values or parse failures on the sink, and
    /// appends the raw measurement to the history (dropping the oldest entry
    /// when full). Returns whether there was one.
    pub fn update<S: DiagnosticSink>(&mut self, sink: &mut S, now: u64) -> (did: bool)
        requires
            old(self).well_formed(),
            old(sink).inv(),
            N > 0,
        ensures
            final(self).well_formed(),
            final(sink).inv(),
            did == (old(self).pending() is Some),
            did ==> noted_k_more(old(sink).noted(), final(sink).noted(), 3),
            !did ==> final(sink).noted() == old(sink).noted(),
            final(self).pending() is None,
            old(self).pending() matches Some(m) ==> final(self).history() == ow_push(
                old(self).history(),
                TimedMeasurment { measurment: m, at: now },
                N as int,
            ),
            old(self).pending() is None ==> final(self).history() == old(self).history(),
    {
        let measurment = match self.pending_measurment {
            Some(m) => m,
            None => {
                return false;
            },
        };
        self.pending_measurment = None;

        let co2 = parse_float_e3(u32_from_be(&measurment.co2));
        let temperature = parse_float_e3(u32_from_be(&measurment.temperature));
        let humidity = parse_float_e3(u32_from_be(&measurment.humidity));

        match co2 {
            Err(e) => sink.note(parse_error_text(e), now),
            Ok(v) => report_milli_value(sink, "co2 : ", v, " ppm\n", now),
        }
        match temperature {
            Err(e) => sink.note(parse_error_text(e), now),
            Ok(v) => report_milli_value(sink, "temperature : ", v, " C\n", now),
        }
        match humidity {
            Err(e) => sink.note(parse_error_text(e), now),
            Ok(v) => report_milli_value(sink, "humidity : ", v, " %\n", now),
        }

        self.measurments.push_back(TimedMeasurment { measurment, at: now });
        true
    }
}

} // verus!
