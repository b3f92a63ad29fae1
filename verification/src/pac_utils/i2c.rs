//! Model of the I2C controller: the command pipeline, the transmit fifo and
//! the receive fifo, plus the classification of drained interrupt status
//! bits.

use vstd::prelude::*;
use crate::interrupts::I2CInterruptStatus;

verus! {

#[derive(Debug, Clone, Copy, PartialEq, Eq, Structural)]
pub enum I2CTransmissionError {
    Unknown(I2CInterruptStatus),
}

impl I2CTransmissionError {
    /// Classifies drained status bits: an error value exactly when a bit
    /// signalling a failed transaction is set.
    pub fn from_interrupt_flags(interrupt: I2CInterruptStatus) -> (r: Option<I2CTransmissionError>)
        ensures
            r == if interrupt.bits & I2CInterruptStatus::ERROR_BITS != 0u32 {
                Some(I2CTransmissionError::Unknown(interrupt))
            } else {
                None::<I2CTransmissionError>
            },
    {
        if interrupt.is_error() {
            Some(I2CTransmissionError::Unknown(interrupt))
        } else {
            None
        }
    }
}

/// One entry of the controller's command pipeline.
#[derive(Debug, Clone, Copy, PartialEq, Eq, Structural)]
pub enum I2CCommand {
    Write { ack_ckeck: bool, ack_exp: bool, len: u8 },
    Read { ack: bool, len: u8 },
    Start,
    Stop,
    End,
}

/// Register encoding of a pipeline entry: a 3-bit opcode at bit 11, flag
/// bits, and the byte count in the low bits.
pub open spec fn i2c_command_bits(c: I2CCommand) -> u16 {
    match c {
        I2CCommand::Write { ack_ckeck, ack_exp, len } => (2048int + (if ack_exp {
            512int
        } else {
            0int
        }) + (if ack_ckeck {
            256int
        } else {
            0int
        }) + len) as u16,
        I2CCommand::Read { ack, len } => (6144int + (if ack {
            1024int
        } else {
            0int
        }) + len) as u16,
        I2CCommand::Start => (6 * 2048) as u16,
        I2CCommand::Stop => (2 * 2048) as u16,
        I2CCommand::End => (4 * 2048) as u16,
    }
}

impl I2CCommand {
    /// The value written to the command register for this entry.
    pub fn encode(self) -> (r: u16)
        ensures
            r == i2c_command_bits(self),
    {
        match self {
            I2CCommand::Write { ack_ckeck, ack_exp, len } => {
                let mut v: u16 = 2048;
                if ack_exp {
                    v = v + 512;
                }
                if ack_ckeck {
                    v = v + 256;
                }
                v + (len as u16)
            },
            I2CCommand::Read { ack, len } => {
                let mut v: u16 = 3 * 2048;
                if ack {
                    v = v + 1024;
                }
                v + (len as u16)
            },
            I2CCommand::Start => 6u16 * 2048,
            I2CCommand::Stop => 2u16 * 2048,
            I2CCommand::End => 4u16 * 2048,
        }
    }
}

/// Model of the I2C controller registers the sensor protocol drives. The
/// platform layer mirrors `cmd`, `tx_fifo` and `started` onto the device and
/// fills `rx_fifo` with what the device received.
pub struct I2cBus {
    /// Encoded command pipeline of the prepared transaction.
    pub cmd: Vec<u16>,
    /// Bytes queued for transmission, address byte first.
    pub tx_fifo: Vec<u8>,
    /// Bytes received from the device, ready to be read out.
    pub rx_fifo: Vec<u8>,
    /// Whether the prepared transaction has been started.
    pub started: bool,
}

/// The command pipeline of a plain write transaction of `n` payload bytes
/// (address byte included in the count).
pub open spec fn write_pipeline(n: u8) -> Seq<u16> {
    seq![
        i2c_command_bits(I2CCommand::Start),
        i2c_command_bits(I2CCommand::Write { ack_ckeck: true, ack_exp: false, len: n }),
        i2c_command_bits(I2CCommand::Stop),
    ]
}

/// The command pipeline of a read transaction of `n` payload bytes.
pub open spec fn read_pipeline(n: u8) -> Seq<u16> {
    seq![
        i2c_command_bits(I2CCommand::Start),
        i2c_command_bits(I2CCommand::Write { ack_ckeck: true, ack_exp: false, len: 1 }),
        i2c_command_bits(I2CCommand::Read { ack: false, len: (n - 1) as u8 }),
        i2c_command_bits(I2CCommand::Read { ack: true, len: 1 }),
        i2c_command_bits(I2CCommand::Stop),
    ]
}

impl I2cBus {
    /// A started write transaction carrying exactly `bytes` to `address`.
    pub open spec fn is_write_transaction(&self, address: u8, bytes: Seq<u8>) -> bool {
        &&& self.cmd@ == write_pipeline((bytes.len() + 1) as u8)
        &&& self.tx_fifo@ == seq![(address * 2) as u8] + bytes
        &&& self.rx_fifo@.len() == 0
        &&& self.started
    }

    /// A started read transaction asking `address` for `len` bytes.
    pub open spec fn is_read_transaction(&self, address: u8, len: u8) -> bool {
        &&& self.cmd@ == read_pipeline(len)
        &&& self.tx_fifo@ == seq![(address * 2 + 1) as u8]
        &&& self.rx_fifo@.len() == 0
        &&& self.started
    }

    pub fn new() -> (b: I2cBus)
        ensures
            b.cmd@ == Seq::<u16>::empty(),
            b.tx_fifo@ == Seq::<u8>::empty(),
            b.rx_fifo@ == Seq::<u8>::empty(),
            !b.started,
    {
        I2cBus { cmd: Vec::new(), tx_fifo: Vec::new(), rx_fifo: Vec::new(), started: false }
    }

    /// Clears both data fifos (the command pipeline is rewritten separately).
    pub fn reset_fifo(&mut self)
        ensures
            final(self).tx_fifo@ == Seq::<u8>::empty(),
            final(self).rx_fifo@ == Seq::<u8>::empty(),
            final(self).cmd@ == old(self).cmd@,
            final(self).started == old(self).started,
    {
        self.tx_fifo.clear();
        self.rx_fifo.clear();
    }

    /// Programs the pipeline and fifo for a write of `bytes` to `address`.
    /// The fifo holds at most 32 bytes and one is the address, so at most 31
    /// payload bytes fit.
    pub fn prepare_write(&mut self, address: u8, bytes: &[u8])
        requires
            bytes@.len() <= 31,
            address < 128,
        ensures
            final(self).cmd@ == write_pipeline((bytes@.len() + 1) as u8),
            final(self).tx_fifo@ == old(self).tx_fifo@ + seq![(address * 2) as u8] + bytes@,
            final(self).rx_fifo@ == old(self).rx_fifo@,
            final(self).started == old(self).started,
    {
        self.cmd.clear();
        self.cmd.push(I2CCommand::Start.encode());
        self.cmd.push(
            I2CCommand::Write { ack_ckeck: true, ack_exp: false, len: (bytes.len() + 1) as u8 }.encode(),
        );
        self.cmd.push(I2CCommand::Stop.encode());
        proof {
            assert(self.cmd@ =~= write_pipeline((bytes@.len() + 1) as u8));
        }

        self.tx_fifo.push(address * 2);
        let ghost mid = self.tx_fifo@;
        let mut i: usize = 0;
        while i < bytes.len()
            invariant
                i <= bytes@.len(),
                self.tx_fifo@ == mid + bytes@.take(i as int),
                self.cmd@ == write_pipeline((bytes@.len() + 1) as u8),
                self.rx_fifo@ == old(self).rx_fifo@,
                self.started == old(self).started,
                mid == old(self).tx_fifo@ + seq![(address * 2) as u8],
            decreases bytes@.len() - i,
        {
            self.tx_fifo.push(bytes[i]);
            i = i + 1;
            proof {
                assert(bytes@.take(i as int) == bytes@.take(i - 1).push(bytes@[i - 1]));
            }
        }
        proof {
            assert(bytes@.take(bytes@.len() as int) =~= bytes@);
            assert(self.tx_fifo@ =~= old(self).tx_fifo@ + seq![(address * 2) as u8] + bytes@);
        }
    }

    /// Programs the pipeline and fifo for a read of `len` bytes from
    /// `address`; the fifo holds at most 32 bytes.
    pub fn prepare_read(&mut self, address: u8, len: u8)
        requires
            1 <= len <= 32,
            address < 128,
        ensures
            final(self).cmd@ == read_pipeline(len),
            final(self).tx_fifo@ == old(self).tx_fifo@ + seq![(address * 2 + 1) as u8],
            final(self).rx_fifo@ == old(self).rx_fifo@,
            final(self).started == old(self).started,
    {
        self.cmd.clear();
        self.cmd.push(I2CCommand::Start.encode());
        self.cmd.push(I2CCommand::Write { ack_ckeck: true, ack_exp: false, len: 1 }.encode());
        self.cmd.push(I2CCommand::Read { ack: false, len: len - 1 }.encode());
        self.cmd.push(I2CCommand::Read { ack: true, len: 1 }.encode());
        self.cmd.push(I2CCommand::Stop.encode());
        proof {
            assert(self.cmd@ =~= read_pipeline(len));
        }
        self.tx_fifo.push(address * 2 + 1);
        proof {
            assert(self.tx_fifo@ =~= old(self).tx_fifo@ + seq![(address * 2 + 1) as u8]);
        }
    }

    /// Starts the prepared transaction.
    pub fn start(&mut self)
        ensures
            final(self).started,
            final(self).cmd@ == old(self).cmd@,
            final(self).tx_fifo@ == old(self).tx_fifo@,
            final(self).rx_fifo@ == old(self).rx_fifo@,
    {
        self.started = true;
    }

    /// Resets the fifos, prepares and starts a write of `bytes` to
    /// `address`.
    pub fn do_write(&mut self, address: u8, bytes: &[u8])
        requires
            bytes@.len() <= 31,
            address < 128,
        ensures
            final(self).is_write_transaction(address, bytes@),
    {
        self.reset_fifo();
        self.prepare_write(address, bytes);
        self.start();
        proof {
            assert(self.tx_fifo@ =~= seq![(address * 2) as u8] + bytes@);
        }
    }

    /// Resets the fifos, prepares and starts a read of `len` bytes from
    /// `address`.
    pub fn do_read(&mut self, address: u8, len: u8)
        requires
            1 <= len <= 31,
            address < 128,
        ensures
            final(self).is_read_transaction(address, len),
    {
        self.reset_fifo();
        self.prepare_read(address, len);
        self.start();
        proof {
            assert(self.tx_fifo@ =~= seq![(address * 2 + 1) as u8]);
        }
    }

    /// Reads `n` received bytes out of the receive fifo, oldest first.
    pub fn read_response(&mut self, n: usize) -> (r: Vec<u8>)
        requires
            n <= old(self).rx_fifo@.len(),
        ensures
            r@ == old(self).rx_fifo@.take(n as int),
            final(self).rx_fifo@ == old(self).rx_fifo@.skip(n as int),
            final(self).cmd@ == old(self).cmd@,
            final(self).tx_fifo@ == old(self).tx_fifo@,
            final(self).started == old(self).started,
    {
        let mut out: Vec<u8> = Vec::new();
        let mut i: usize = 0;
        while i < n
            invariant
                n <= old(self).rx_fifo@.len(),
                i <= n,
                out@ == old(self).rx_fifo@.take(i as int),
                self.rx_fifo@ == old(self).rx_fifo@.skip(i as int),
                self.cmd@ == old(self).cmd@,
                self.tx_fifo@ == old(self).tx_fifo@,
                self.started == old(self).started,
            decreases n - i,
        {
            let b = self.rx_fifo.remove(0);
            out.push(b);
            i = i + 1;
            proof {
                assert(out@ =~= old(self).rx_fifo@.take(i as int));
                assert(self.rx_fifo@ =~= old(self).rx_fifo@.skip(i as int));
            }
        }
        out
    }

    /// Platform/test side: delivers bytes the device returned into the
    /// receive fifo.
    pub fn device_respond(&mut self, bytes: &[u8])
        ensures
            final(self).rx_fifo@ == old(self).rx_fifo@ + bytes@,
            final(self).cmd@ == old(self).cmd@,
            final(self).tx_fifo@ == old(self).tx_fifo@,
            final(self).started == old(self).started,
    {
        let mut i: usize = 0;
        while i < bytes.len()
            invariant
                i <= bytes@.len(),
                self.rx_fifo@ == old(self).rx_fifo@ + bytes@.take(i as int),
                self.cmd@ == old(self).cmd@,
                self.tx_fifo@ == old(self).tx_fifo@,
                self.started == old(self).started,
            decreases bytes@.len() - i,
        {
            self.rx_fifo.push(bytes[i]);
            i = i + 1;
            proof {
                assert(bytes@.take(i as int) == bytes@.take(i - 1).push(bytes@[i - 1]));
            }
        }
        proof {
            assert(bytes@.take(bytes@.len() as int) =~= bytes@);
        }
    }
}

} // verus!
