//! Command encoding and response parsing for the CO2/temperature/humidity
//! sensor spoken to over I2C: every 16-bit word on the wire travels as two
//! bytes followed by a CRC-8 checksum.

pub mod machines;

use vstd::prelude::*;
use crate::pac_utils::i2c::I2cBus;

verus! {

/// Seed mixed into the running checksum between the two bytes.
pub const CRC_INIT_MAGIC: u8 = 0xac;

/// The sensor's fixed bus address.
pub const DEFAULT_ADDRESS: u8 = 0x61;

/// One shift-and-conditionally-xor round of the CRC-8 with polynomial 0x31.
pub open spec fn crc8_round(c: u8) -> u8 {
    if c >= 128 {
        ((((c % 128) * 2) as u8) ^ 0x31) as u8
    } else {
        (c * 2) as u8
    }
}

/// `k` CRC-8 rounds applied to `c`.
pub open spec fn crc8_rounds(c: u8, k: nat) -> u8
    decreases k,
{
    if k == 0 {
        c
    } else {
        crc8_round(crc8_rounds(c, (k - 1) as nat))
    }
}

/// The CRC-8 table value of one byte: eight rounds.
pub open spec fn crc_table(b: u8) -> u8 {
    crc8_rounds(b, 8)
}

/// The checksum the sensor expects after a (most significant, least
/// significant) byte pair.
pub open spec fn compute_crc_spec(b2: u8, b1: u8) -> u8 {
    crc_table((crc_table(b2) ^ CRC_INIT_MAGIC ^ b1) as u8)
}

/// One byte's CRC-8 table value, computed by eight rounds.
fn crc8_byte(b: u8) -> (r: u8)
    ensures
        r == crc_table(b),
{
    let mut c = b;
    let mut k: usize = 0;
    while k < 8
        invariant
            k <= 8,
            c == crc8_rounds(b, k as nat),
        decreases 8 - k,
    {
        c = if c >= 128 {
            ((c % 128) * 2) ^ 0x31
        } else {
            c * 2
        };
        k = k + 1;
    }
    c
}

/// Computes the checksum of two bytes; `b2` is the most significant.
pub fn compute_crc(b2: u8, b1: u8) -> (r: u8)
    ensures
        r == compute_crc_spec(b2, b1),
{
    let t = crc8_byte(b2) ^ CRC_INIT_MAGIC ^ b1;
    crc8_byte(t)
}

/// Whether `crc` is the checksum of the two bytes.
pub fn check_crc(b2: u8, b1: u8, crc: u8) -> (r: bool)
    ensures
        r == (compute_crc_spec(b2, b1) == crc),
{
    compute_crc(b2, b1) == crc
}

#[derive(Debug, Clone, Copy, PartialEq, Eq, Structural)]
pub enum SDCReadResponseError {
    CRCCheckFailed,
    InvalidFormat,
}

/// A command that sets sensor state. The measurement interval is in seconds;
/// the optional ambient-pressure compensation is in millibars and must not be
/// zero (zero on the wire means "disabled").
#[derive(Debug, Clone, Copy, PartialEq, Eq, Structural)]
pub enum SDCSetCommand {
    SetDelta { delta: u32 },
    Start { pressure: Option<u16> },
}

impl SDCSetCommand {
    /// The pressure compensation models a strictly positive quantity: zero on
    /// the wire is the sensor's encoding of "compensation disabled", and
    /// `None` is the one way to say that here. `Some(0)` would silently mean
    /// disabled, so it is ruled out rather than given a second meaning.
    pub open spec fn well_formed(&self) -> bool {
        match *self {
            SDCSetCommand::Start { pressure } => !(pressure == Some(0u16)),
            SDCSetCommand::SetDelta { .. } => true,
        }
    }
}

#[derive(Debug, Clone, Copy, PartialEq, Eq, Structural)]
pub enum SDCGetCommand {
    IsReady,
    Measurment,
}

/// A 16-bit argument as it travels on the wire: high byte, low byte,
/// checksum.
pub open spec fn param_bytes(v: u16) -> (u8, u8, u8) {
    ((v / 256) as u8, (v % 256) as u8, compute_crc_spec((v / 256) as u8, (v % 256) as u8))
}

/// Splits a 16-bit argument into its wire form.
pub fn u16_into_param_bytes(v: u16) -> (r: (u8, u8, u8))
    ensures
        r == param_bytes(v),
{
    let b2 = (v / 256) as u8;
    let b1 = (v % 256) as u8;
    let crc = compute_crc(b2, b1);
    (b2, b1, crc)
}

/// The payload bytes of a set command: command word, then the argument with
/// its checksum. An interval wider than 16 bits is truncated as the sensor's
/// registers are.
pub open spec fn set_command_bytes(command: SDCSetCommand) -> Seq<u8> {
    match command {
        SDCSetCommand::SetDelta { delta } => {
            let p = param_bytes((delta % 0x10000) as u16);
            seq![0x46u8, 0x00u8, p.0, p.1, p.2]
        },
        SDCSetCommand::Start { pressure } => {
            let p = param_bytes(match pressure {
                Some(v) => v,
                None => 0u16,
            });
            seq![0x00u8, 0x10u8, p.0, p.1, p.2]
        },
    }
}

/// Issues a set command: a five-byte write transaction to the sensor.
pub fn set_command_write(i2c: &mut I2cBus, command: SDCSetCommand)
    requires
        command.well_formed(),
    ensures
        final(i2c).is_write_transaction(DEFAULT_ADDRESS, set_command_bytes(command)),
{
    match command {
        SDCSetCommand::SetDelta { delta } => {
            let p = u16_into_param_bytes((delta % 0x10000) as u16);
            let bytes = [0x46u8, 0x00, p.0, p.1, p.2];
            i2c.do_write(DEFAULT_ADDRESS, &bytes);
            proof {
                assert(bytes@ =~= set_command_bytes(command));
            }
        },
        SDCSetCommand::Start { pressure } => {
            let v = match pressure {
                Some(v) => v,
                None => 0,
            };
            let p = u16_into_param_bytes(v);
            let bytes = [0x00u8, 0x10, p.0, p.1, p.2];
            i2c.do_write(DEFAULT_ADDRESS, &bytes);
            proof {
                assert(bytes@ =~= set_command_bytes(command));
            }
        },
    }
}

/// The command word that asks for a readout.
pub open spec fn get_command_bytes(command: SDCGetCommand) -> Seq<u8> {
    match command {
        SDCGetCommand::IsReady => seq![0x02u8, 0x02u8],
        SDCGetCommand::Measurment => seq![0x03u8, 0x00u8],
    }
}

/// How many bytes the sensor answers a get command with: one or six
/// checksummed words.
pub open spec fn get_response_len(command: SDCGetCommand) -> u8 {
    match command {
        SDCGetCommand::IsReady => 3u8,
        SDCGetCommand::Measurment => 18u8,
    }
}

/// Issues the write phase of a get command: the two-byte command word.
pub fn get_command_write(i2c: &mut I2cBus, command: SDCGetCommand)
    ensures
        final(i2c).is_write_transaction(DEFAULT_ADDRESS, get_command_bytes(command)),
{
    match command {
        SDCGetCommand::IsReady => {
            let bytes = [0x02u8, 0x02];
            i2c.do_write(DEFAULT_ADDRESS, &bytes);
            proof {
                assert(bytes@ =~= get_command_bytes(command));
            }
        },
        SDCGetCommand::Measurment => {
            let bytes = [0x03u8, 0x00];
            i2c.do_write(DEFAULT_ADDRESS, &bytes);
            proof {
                assert(bytes@ =~= get_command_bytes(command));
            }
        },
    }
}

/// Issues the read phase of a get command: a read transaction for the
/// command's response length.
pub fn get_command_read(i2c: &mut I2cBus, command: SDCGetCommand)
    ensures
        final(i2c).is_read_transaction(DEFAULT_ADDRESS, get_response_len(command)),
{
    match command {
        SDCGetCommand::IsReady => {
            i2c.do_read(DEFAULT_ADDRESS, 3);
        },
        SDCGetCommand::Measurment => {
            i2c.do_read(DEFAULT_ADDRESS, 18);
        },
    }
}

/// One checksummed word parsed from the front of a received byte sequence.
pub open spec fn param_spec(rx: Seq<u8>) -> Result<[u8; 2], SDCReadResponseError> {
    if compute_crc_spec(rx[0], rx[1]) == rx[2] {
        Ok([rx[0], rx[1]])
    } else {
        Err(SDCReadResponseError::CRCCheckFailed)
    }
}

/// Reads one checksummed word out of the receive fifo.
pub fn read_response_param(i2c: &mut I2cBus) -> (r: Result<[u8; 2], SDCReadResponseError>)
    requires
        old(i2c).rx_fifo@.len() >= 3,
    ensures
        r == param_spec(old(i2c).rx_fifo@),
        final(i2c).rx_fifo@ == old(i2c).rx_fifo@.skip(3),
        final(i2c).cmd@ == old(i2c).cmd@,
        final(i2c).tx_fifo@ == old(i2c).tx_fifo@,
        final(i2c).started == old(i2c).started,
    {
        let raw = i2c.read_response(3);
        let b2 = raw[0];
        let b1 = raw[1];
        let crc = raw[2];
        if check_crc(b2, b1, crc) {
            Ok([b2, b1])
        } else {
            Err(SDCReadResponseError::CRCCheckFailed)
        }
    }

/// The words parsed from `n` consecutive checksummed triples, or the first
/// checksum failure.
pub open spec fn params_spec(rx: Seq<u8>, n: int) -> Result<Seq<[u8; 2]>, SDCReadResponseError>
    decreases n,
{
    if n <= 0 {
        Ok(Seq::empty())
    } else {
        match param_spec(rx) {
            Err(e) => Err(e),
            Ok(p) => match params_spec(rx.skip(3), n - 1) {
                Err(e) => Err(e),
                Ok(rest) => Ok(seq![p] + rest),
            },
        }
    }
}

/// How many received bytes parsing `n` triples consumes (it stops after the
/// triple that fails its checksum).
pub open spec fn params_consumed(rx: Seq<u8>, n: int) -> int
    decreases n,
{
    if n <= 0 {
        0
    } else if param_spec(rx) is Err {
        3
    } else {
        3 + params_consumed(rx.skip(3), n - 1)
    }
}

/// Reads `n` checksummed words out of the receive fifo, stopping at the
/// first checksum failure.
pub fn read_response_params(i2c: &mut I2cBus, n: usize) -> (r: Result<
    Vec<[u8; 2]>,
    SDCReadResponseError,
>)
    requires
        old(i2c).rx_fifo@.len() >= 3 * n,
    ensures
        r matches Ok(v) ==> v@.len() == n && params_spec(old(i2c).rx_fifo@, n as int) == Ok::<
            Seq<[u8; 2]>,
            SDCReadResponseError,
        >(v@),
        r matches Err(e) ==> params_spec(old(i2c).rx_fifo@, n as int) == Err::<
            Seq<[u8; 2]>,
            SDCReadResponseError,
        >(e),
        final(i2c).rx_fifo@ == old(i2c).rx_fifo@.skip(params_consumed(old(i2c).rx_fifo@, n as int)),
        final(i2c).cmd@ == old(i2c).cmd@,
        final(i2c).tx_fifo@ == old(i2c).tx_fifo@,
        final(i2c).started == old(i2c).started,
{
    let mut out: Vec<[u8; 2]> = Vec::new();
    let mut k: usize = 0;
    while k < n
        invariant
            old(i2c).rx_fifo@.len() >= 3 * n,
            k <= n,
            i2c.rx_fifo@ == old(i2c).rx_fifo@.skip(3 * k),
            out@.len() == k,
            i2c.cmd@ == old(i2c).cmd@,
            i2c.tx_fifo@ == old(i2c).tx_fifo@,
            i2c.started == old(i2c).started,
            params_spec(old(i2c).rx_fifo@, n as int) == match params_spec(
                i2c.rx_fifo@,
                n - k,
            ) {
                Ok(rest) => Ok::<Seq<[u8; 2]>, SDCReadResponseError>(out@ + rest),
                Err(e) => Err::<Seq<[u8; 2]>, SDCReadResponseError>(e),
            },
            params_consumed(old(i2c).rx_fifo@, n as int) == 3 * k + params_consumed(
                i2c.rx_fifo@,
                n - k,
            ),
        decreases n - k,
    {
        let ghost rx_before = i2c.rx_fifo@;
        let p = match read_response_param(i2c) {
            Ok(p) => p,
            Err(e) => {
                proof {
                    assert(params_consumed(rx_before, n - k) == 3);
                }
                return Err(e);
            },
        };
        let ghost out_before = out@;
        out.push(p);
        k = k + 1;
        proof {
            assert(i2c.rx_fifo@ =~= old(i2c).rx_fifo@.skip(3 * k));
            assert(rx_before.skip(3) =~= i2c.rx_fifo@);
            assert(params_spec(rx_before, n - k + 1) == (match params_spec(i2c.rx_fifo@, n - k) {
                Ok(rest) => Ok::<Seq<[u8; 2]>, SDCReadResponseError>(seq![p] + rest),
                Err(e) => Err::<Seq<[u8; 2]>, SDCReadResponseError>(e),
            }));
            assert(params_consumed(rx_before, n - k + 1) == 3 + params_consumed(
                i2c.rx_fifo@,
                n - k,
            ));
            if params_spec(i2c.rx_fifo@, n - k) is Ok {
                let rest = params_spec(i2c.rx_fifo@, n - k)->Ok_0;
                assert(out_before + (seq![p] + rest) =~= out@ + rest);
            }
        }
    }
    proof {
        assert(out@ + Seq::<[u8; 2]>::empty() =~= out@);
    }
    Ok(out)
}

/// One raw sensor measurement: three big-endian 32-bit words as delivered by
/// the sensor, not yet checked for format or range.
#[derive(Debug, Clone, Copy, PartialEq)]
pub struct RawMeasurment {
    pub co2: [u8; 4],
    pub temperature: [u8; 4],
    pub humidity: [u8; 4],
}

impl RawMeasurment {
    /// Reassembles the six response words into the three 32-bit fields. No
    /// check is made that the bytes form a well-formed value in the sensor's
    /// documented range.
    pub fn from_sdc_response(bytes: [[u8; 2]; 6]) -> (r: RawMeasurment)
        ensures
            r.co2@ == seq![bytes[0][0], bytes[0][1], bytes[1][0], bytes[1][1]],
            r.temperature@ == seq![bytes[2][0], bytes[2][1], bytes[3][0], bytes[3][1]],
            r.humidity@ == seq![bytes[4][0], bytes[4][1], bytes[5][0], bytes[5][1]],
    {
        let r = RawMeasurment {
            co2: [bytes[0][0], bytes[0][1], bytes[1][0], bytes[1][1]],
            temperature: [bytes[2][0], bytes[2][1], bytes[3][0], bytes[3][1]],
            humidity: [bytes[4][0], bytes[4][1], bytes[5][0], bytes[5][1]],
        };
        proof {
            assert(r.co2@ =~= seq![bytes[0][0], bytes[0][1], bytes[1][0], bytes[1][1]]);
            assert(r.temperature@ =~= seq![bytes[2][0], bytes[2][1], bytes[3][0], bytes[3][1]]);
            assert(r.humidity@ =~= seq![bytes[4][0], bytes[4][1], bytes[5][0], bytes[5][1]]);
        }
        r
    }
}

/// The ready flag parsed from a one-word response: 0 means not ready, 1
/// ready, anything else is malformed.
pub open spec fn is_ready_spec(rx: Seq<u8>) -> Result<bool, SDCReadResponseError> {
    match param_spec(rx) {
        Err(e) => Err(e),
        Ok(p) => if p@ == seq![0u8, 0u8] {
            Ok(false)
        } else if p@ == seq![0u8, 1u8] {
            Ok(true)
        } else {
            Err(SDCReadResponseError::InvalidFormat)
        },
    }
}

/// Reads and parses the sensor's data-ready answer.
pub fn read_response_is_ready(i2c: &mut I2cBus) -> (r: Result<bool, SDCReadResponseError>)
    requires
        old(i2c).rx_fifo@.len() >= 3,
    ensures
        r == is_ready_spec(old(i2c).rx_fifo@),
        final(i2c).rx_fifo@ == old(i2c).rx_fifo@.skip(3),
        final(i2c).cmd@ == old(i2c).cmd@,
        final(i2c).tx_fifo@ == old(i2c).tx_fifo@,
        final(i2c).started == old(i2c).started,
{
    match read_response_param(i2c) {
        Err(e) => Err(e),
        Ok(p) => {
            let r = if p[0] == 0 && p[1] == 0 {
                Ok(false)
            } else if p[0] == 0 && p[1] == 1 {
                Ok(true)
            } else {
                Err(SDCReadResponseError::InvalidFormat)
            };
            proof {
                let ps = param_spec(old(i2c).rx_fifo@)->Ok_0;
                assert(p@ =~= seq![p[0], p[1]]);
                if p[0] == 0 && p[1] == 0 {
                    assert(p@ == seq![0u8, 0u8]);
                } else if p[0] == 0 && p[1] == 1 {
                    assert(p@ == seq![0u8, 1u8]);
                } else {
                    assert(p@ != seq![0u8, 0u8] && p@ != seq![0u8, 1u8]) by {
                        assert(seq![0u8, 0u8][0] == 0u8 && seq![0u8, 0u8][1] == 0u8);
                        assert(seq![0u8, 1u8][0] == 0u8 && seq![0u8, 1u8][1] == 1u8);
                    }
                }
            }
            r
        },
    }
}

/// The measurement parsed from a six-word response.
pub open spec fn measurment_spec(rx: Seq<u8>) -> Result<RawMeasurment, SDCReadResponseError> {
    match params_spec(rx, 6) {
        Err(e) => Err(e),
        Ok(ps) => Ok(
            RawMeasurment {
                co2: [ps[0][0], ps[0][1], ps[1][0], ps[1][1]],
                temperature: [ps[2][0], ps[2][1], ps[3][0], ps[3][1]],
                humidity: [ps[4][0], ps[4][1], ps[5][0], ps[5][1]],
            },
        ),
    }
}

/// Reads and parses a whole measurement response.
pub fn read_response_measurment(i2c: &mut I2cBus) -> (r: Result<RawMeasurment, SDCReadResponseError>)
    requires
        old(i2c).rx_fifo@.len() >= 18,
    ensures
        r == measurment_spec(old(i2c).rx_fifo@),
        final(i2c).cmd@ == old(i2c).cmd@,
        final(i2c).tx_fifo@ == old(i2c).tx_fifo@,
        final(i2c).started == old(i2c).started,
{
    match read_response_params(i2c, 6) {
        Err(e) => Err(e),
        Ok(ps) => {
            let m = RawMeasurment::from_sdc_response([ps[0], ps[1], ps[2], ps[3], ps[4], ps[5]]);
            proof {
                let specs = params_spec(old(i2c).rx_fifo@, 6)->Ok_0;
                assert(specs =~= ps@);
                let sm = measurment_spec(old(i2c).rx_fifo@)->Ok_0;
                assert(m.co2 =~= sm.co2);
                assert(m.temperature =~= sm.temperature);
                assert(m.humidity =~= sm.humidity);
            }
            Ok(m)
        },
    }
}

} // verus!
