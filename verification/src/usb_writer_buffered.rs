//! Software-buffered USB writer that owns no timeout machinery: bytes go
//! through a flat ring buffer into the endpoint fifo, either opportunistically
//! on write or batch-wise on update.

use vstd::prelude::*;
use crate::ring_buffer::{fitting, wrap_spec};
use crate::usb_writer::{usb_moved, UsbDevice};

verus! {

#[derive(Debug, Clone, Copy, PartialEq, Eq, Structural)]
pub enum UsbWriterError {
    /// This many bytes did not fit the software buffer.
    Overflow(usize),
}

/// Outcome of a draining update: completed, or gave up waiting on the host.
#[derive(Debug, Clone, Copy, PartialEq, Eq, Structural)]
pub enum UsbUpdateResult {
    Completed,
    TimeOut,
}

/// Byte sink buffered in a flat ring; moving data on into the endpoint fifo
/// happens on update calls (or opportunistically when writing into an empty
/// buffer).
pub struct UsbWriterBuffered<const BUFFER_SIZE: usize> {
    pub buffer: Vec<u8>,
    pub buffer_index: usize,
    pub buffer_length: usize,
    /// Whether the last blocking update gave up waiting on the host.
    pub timeout: bool,
    /// Free space a blocking update must restore before returning.
    pub minimum_empty_space: usize,
    /// Ticks a blocking update waits for fifo room before giving up.
    pub timeout_treshold: u64,
}

impl<const BUFFER_SIZE: usize> UsbWriterBuffered<BUFFER_SIZE> {
    /// The buffered bytes in write order.
    pub closed spec fn buffered(&self) -> Seq<u8> {
        Seq::new(
            self.buffer_length as nat,
            |i: int| self.buffer@[wrap_spec(self.buffer_index as int, i, BUFFER_SIZE as int)],
        )
    }

    pub closed spec fn well_formed(&self) -> bool {
        &&& self.buffer@.len() == BUFFER_SIZE
        &&& self.buffer_length <= BUFFER_SIZE
        &&& if BUFFER_SIZE == 0 {
            self.buffer_index == 0
        } else {
            self.buffer_index < BUFFER_SIZE
        }
    }

    pub fn new(minimum_empty_space: usize, timeout_treshold: u64) -> (w: UsbWriterBuffered<
        BUFFER_SIZE,
    >)
        ensures
            w.well_formed(),
            w.buffered() == Seq::<u8>::empty(),
            !w.timeout,
            w.minimum_empty_space == minimum_empty_space,
            w.timeout_treshold == timeout_treshold,
    {
        let mut buffer: Vec<u8> = Vec::new();
        while buffer.len() < BUFFER_SIZE
            invariant
                buffer@.len() <= BUFFER_SIZE,
            decreases BUFFER_SIZE - buffer.len(),
        {
            buffer.push(0);
        }
        let w = UsbWriterBuffered {
            buffer,
            buffer_index: 0,
            buffer_length: 0,
            timeout: false,
            minimum_empty_space,
            timeout_treshold,
        };
        proof {
            assert(w.buffered() =~= Seq::<u8>::empty());
        }
        w
    }

    pub fn builder() -> (b: UsbWriterBufferedBuilder<BUFFER_SIZE>)
        ensures
            b.minimum_empty_space is None,
            b.timeout_treshold is None,
    {
        UsbWriterBufferedBuilder::new()
    }

    pub fn buffer_empty(&self) -> (r: bool)
        ensures
            r == (self.buffered().len() == 0),
    {
        self.buffer_length == 0
    }

    /// Drops the front byte (the caller knows one exists).
    fn buffer_next_unchecked(&mut self)
        requires
            old(self).well_formed(),
            old(self).buffered().len() >= 1,
        ensures
            final(self).well_formed(),
            final(self).buffered() == old(self).buffered().drop_first(),
            final(self).timeout == old(self).timeout,
            final(self).minimum_empty_space == old(self).minimum_empty_space,
            final(self).timeout_treshold == old(self).timeout_treshold,
    {
        let ghost before = self.buffered();
        self.buffer_length = self.buffer_length - 1;
        self.buffer_index = if self.buffer_index + 1 == BUFFER_SIZE {
            0
        } else {
            self.buffer_index + 1
        };
        proof {
            assert forall|i: int| 0 <= i < self.buffer_length implies #[trigger] self.buffered()[i]
                == before[i + 1] by {
                assert(wrap_spec(self.buffer_index as int, i, BUFFER_SIZE as int) == wrap_spec(
                    old(self).buffer_index as int,
                    i + 1,
                    BUFFER_SIZE as int,
                ));
            }
            assert(self.buffered() =~= before.drop_first());
        }
    }

    /// Reads the front byte (the caller knows one exists).
    fn buffer_front(&self) -> (b: u8)
        requires
            self.well_formed(),
            self.buffered().len() >= 1,
        ensures
            b == self.buffered()[0],
    {
        self.buffer[self.buffer_index]
    }

    /// Appends as many of `bytes` as fit; returns how many did not.
    pub fn buffer_extend(&mut self, bytes: &[u8]) -> (overflow: usize)
        requires
            old(self).well_formed(),
        ensures
            final(self).well_formed(),
            final(self).buffered() == old(self).buffered() + bytes@.take(
                fitting(old(self).buffered().len() as int, bytes@.len() as int, BUFFER_SIZE as int),
            ),
            overflow == bytes@.len() - fitting(
                old(self).buffered().len() as int,
                bytes@.len() as int,
                BUFFER_SIZE as int,
            ),
            final(self).timeout == old(self).timeout,
            final(self).minimum_empty_space == old(self).minimum_empty_space,
            final(self).timeout_treshold == old(self).timeout_treshold,
    {
        let ghost start = self.buffered();
        let mut i: usize = 0;
        while i < bytes.len() && self.buffer_length < BUFFER_SIZE
            invariant
                self.well_formed(),
                i <= bytes@.len(),
                self.buffered() == start + bytes@.take(i as int),
                start.len() + i == self.buffered().len(),
                self.buffer_index == old(self).buffer_index,
                self.timeout == old(self).timeout,
                self.minimum_empty_space == old(self).minimum_empty_space,
                self.timeout_treshold == old(self).timeout_treshold,
            decreases bytes@.len() - i,
        {
            let ghost before = self.buffered();
            let slot = {
                let room = BUFFER_SIZE - self.buffer_index;
                if self.buffer_length >= room {
                    self.buffer_length - room
                } else {
                    self.buffer_index + self.buffer_length
                }
            };
            self.buffer[slot] = bytes[i];
            self.buffer_length = self.buffer_length + 1;
            i = i + 1;
            proof {
                assert forall|k: int| 0 <= k < self.buffer_length implies #[trigger] self.buffered()[k]
                    == if k < before.len() {
                    before[k]
                } else {
                    bytes@[i - 1]
                } by {}
                assert(bytes@.take(i as int) == bytes@.take(i - 1).push(bytes@[i - 1]));
                assert(self.buffered() =~= start + bytes@.take(i as int));
            }
        }
        proof {
            assert(bytes@.take(
                fitting(start.len() as int, bytes@.len() as int, BUFFER_SIZE as int),
            ) =~= bytes@.take(i as int));
        }
        bytes.len() - i
    }

    /// Queues bytes without touching the device; fails with the number of
    /// bytes that did not fit.
    pub fn write_bytes_non_immediate(&mut self, bytes: &[u8]) -> (r: Result<(), UsbWriterError>)
        requires
            old(self).well_formed(),
        ensures
            final(self).well_formed(),
            final(self).buffered() == old(self).buffered() + bytes@.take(
                fitting(old(self).buffered().len() as int, bytes@.len() as int, BUFFER_SIZE as int),
            ),
            r is Ok <==> old(self).buffered().len() + bytes@.len() <= BUFFER_SIZE,
            r matches Err(UsbWriterError::Overflow(n)) ==> n == bytes@.len() - fitting(
                old(self).buffered().len() as int,
                bytes@.len() as int,
                BUFFER_SIZE as int,
            ),
            final(self).timeout == old(self).timeout,
    {
        let overflow = self.buffer_extend(bytes);
        if overflow == 0 {
            Ok(())
        } else {
            Err(UsbWriterError::Overflow(overflow))
        }
    }

    /// Moves buffered bytes into the endpoint fifo until it fills; flushes
    /// when the buffer drained completely.
    pub fn update_without_blocking(&mut self, usb: &mut UsbDevice)
        requires
            old(self).well_formed(),
        ensures
            final(self).well_formed(),
            ({
                let k = usb_moved(old(usb).fifo_free as int, old(self).buffered().len() as int);
                &&& final(self).buffered() == old(self).buffered().skip(k)
                &&& final(usb).sent@ == old(usb).sent@ + old(self).buffered().take(k)
                &&& final(usb).fifo_free == old(usb).fifo_free - k
                &&& (old(self).buffered().len() <= old(usb).fifo_free ==> final(usb).flushed)
                &&& final(self).timeout == old(self).timeout
                &&& final(usb).serial_in_empty_int_ena == old(usb).serial_in_empty_int_ena
            }),
    {
        let ghost buf0 = self.buffered();
        let ghost free0 = usb.fifo_free;
        let ghost sent0 = usb.sent@;
        proof {
            assert(buf0.skip(0) =~= buf0);
            assert(sent0 + buf0.take(0) =~= sent0);
        }
        while self.buffer_length > 0 && usb.fifo_free > 0
            invariant
                self.well_formed(),
                self.buffered().len() <= buf0.len(),
                usb.sent@ == sent0 + buf0.take(buf0.len() - self.buffered().len()),
                self.buffered() == buf0.skip(buf0.len() - self.buffered().len()),
                usb.fifo_free == free0 - (buf0.len() - self.buffered().len()),
                buf0.len() - self.buffered().len() <= free0,
                usb.serial_in_empty_int_ena == old(usb).serial_in_empty_int_ena,
                self.timeout == old(self).timeout,
                self.minimum_empty_space == old(self).minimum_empty_space,
                self.timeout_treshold == old(self).timeout_treshold,
            decreases self.buffered().len(),
        {
            let ghost bpre = self.buffered();
            let byte = self.buffer_front();
            self.buffer_next_unchecked();
            usb.write_byte(byte);
            proof {
                let c0 = buf0.len() - bpre.len();
                assert(bpre == buf0.skip(c0 as int));
                assert(byte == buf0[c0 as int]);
                assert(self.buffered() =~= buf0.skip(c0 + 1));
                assert(buf0.take(c0 + 1) =~= buf0.take(c0 as int).push(buf0[c0 as int]));
                assert(sent0 + buf0.take(c0 as int).push(buf0[c0 as int]) =~= (sent0 + buf0.take(
                    c0 as int,
                )).push(buf0[c0 as int]));
            }
        }
        if self.buffer_length == 0 {
            usb.flush();
        }
        proof {
            let k = usb_moved(free0 as int, buf0.len() as int);
            assert(buf0.len() - self.buffered().len() == k);
        }
    }

    /// Writes bytes straight into the endpoint fifo while the buffer is empty
    /// and the fifo has room, buffering whatever is left; fails with the
    /// number of bytes that fit neither place.
    pub fn write_bytes_try_immediate(&mut self, usb: &mut UsbDevice, bytes: &[u8]) -> (r: Result<
        (),
        UsbWriterError,
    >)
        requires
            old(self).well_formed(),
        ensures
            final(self).well_formed(),
            old(self).buffered().len() > 0 ==> final(self).buffered() == old(self).buffered()
                + bytes@.take(
                fitting(old(self).buffered().len() as int, bytes@.len() as int, BUFFER_SIZE as int),
            ) && *final(usb) == *old(usb),
            old(self).buffered().len() == 0 ==> ({
                let k = usb_moved(old(usb).fifo_free as int, bytes@.len() as int);
                &&& final(usb).sent@ == old(usb).sent@ + bytes@.take(k)
                &&& final(self).buffered() == bytes@.skip(k).take(
                    fitting(0, bytes@.len() - k, BUFFER_SIZE as int),
                )
                &&& (bytes@.len() <= old(usb).fifo_free ==> final(usb).flushed)
                &&& (k > 0 ==> !final(self).timeout)
            }),
            r is Ok <==> (if old(self).buffered().len() == 0 {
                bytes@.len() - usb_moved(old(usb).fifo_free as int, bytes@.len() as int)
                    <= BUFFER_SIZE
            } else {
                old(self).buffered().len() + bytes@.len() <= BUFFER_SIZE
            }),
    {
        let overflow: usize = if self.buffer_empty() {
            let mut bytes_index: usize = 0;
            let ghost sent0 = usb.sent@;
            let ghost free0 = usb.fifo_free;
            proof {
                assert(sent0 + bytes@.take(0) =~= sent0);
            }
            while bytes_index < bytes.len() && usb.fifo_free > 0
                invariant
                    self.well_formed(),
                    self.buffered().len() == 0,
                    bytes_index <= bytes@.len(),
                    usb.sent@ == sent0 + bytes@.take(bytes_index as int),
                    usb.fifo_free == free0 - bytes_index,
                    bytes_index <= free0,
                    usb.serial_in_empty_int_ena == old(usb).serial_in_empty_int_ena,
                    self.timeout == old(self).timeout,
                    self.minimum_empty_space == old(self).minimum_empty_space,
                    self.timeout_treshold == old(self).timeout_treshold,
                decreases bytes@.len() - bytes_index,
            {
                usb.write_byte(bytes[bytes_index]);
                bytes_index = bytes_index + 1;
                proof {
                    assert(bytes@.take(bytes_index as int) =~= bytes@.take(bytes_index - 1).push(
                        bytes@[bytes_index - 1],
                    ));
                    assert(sent0 + bytes@.take(bytes_index - 1).push(bytes@[bytes_index - 1]) =~= (
                    sent0 + bytes@.take(bytes_index - 1)).push(bytes@[bytes_index - 1]));
                }
            }
            if bytes_index == bytes.len() {
                usb.flush();
            }
            if bytes_index != 0 {
                self.timeout = false;
            }
            proof {
                let k = usb_moved(free0 as int, bytes@.len() as int);
                assert(bytes_index == k);
            }
            if bytes_index < bytes.len() {
                let rest = &bytes[bytes_index..bytes.len()];
                proof {
                    assert(rest@ =~= bytes@.skip(bytes_index as int));
                }
                self.buffer_extend(rest)
            } else {
                proof {
                    assert(bytes@.skip(bytes_index as int).take(
                        fitting(0, bytes@.len() - bytes_index, BUFFER_SIZE as int),
                    ) =~= self.buffered());
                }
                0
            }
        } else {
            self.buffer_extend(bytes)
        };

        match overflow {
            0 => Ok(()),
            n => Err(UsbWriterError::Overflow(n)),
        }
    }
}

impl<const BUFFER_SIZE: usize> UsbWriterBuffered<BUFFER_SIZE> {
    /// Couples the writer with the endpoint it drives, so callers stop
    /// passing the device to every call.
    pub fn with_usb(self, usb: UsbDevice) -> (w: UsbWriter<BUFFER_SIZE>)
        ensures
            w.writer == self,
            w.usb == usb,
    {
        UsbWriter { writer: self, usb }
    }
}

/// A buffered writer together with the endpoint it owns.
pub struct UsbWriter<const BUFFER_SIZE: usize> {
    pub writer: UsbWriterBuffered<BUFFER_SIZE>,
    pub usb: UsbDevice,
}

impl<const BUFFER_SIZE: usize> UsbWriter<BUFFER_SIZE> {
    pub fn buffer_empty(&self) -> (r: bool)
        ensures
            r == (self.writer.buffered().len() == 0),
    {
        self.writer.buffer_empty()
    }

    /// As [`UsbWriterBuffered::update_without_blocking`], on the owned
    /// endpoint.
    pub fn update_without_blocking(&mut self)
        requires
            old(self).writer.well_formed(),
        ensures
            final(self).writer.well_formed(),
            ({
                let k = usb_moved(
                    old(self).usb.fifo_free as int,
                    old(self).writer.buffered().len() as int,
                );
                &&& final(self).writer.buffered() == old(self).writer.buffered().skip(k)
                &&& final(self).usb.sent@ == old(self).usb.sent@ + old(self).writer.buffered().take(k)
                &&& (old(self).writer.buffered().len() <= old(self).usb.fifo_free ==> final(self).usb.flushed)
            }),
    {
        let usb = &mut self.usb;
        self.writer.update_without_blocking(usb);
    }

    /// As [`UsbWriterBuffered::write_bytes_try_immediate`], on the owned
    /// endpoint.
    pub fn write_bytes_try_immediate(&mut self, bytes: &[u8]) -> (r: Result<(), UsbWriterError>)
        requires
            old(self).writer.well_formed(),
        ensures
            final(self).writer.well_formed(),
            r is Ok <==> (if old(self).writer.buffered().len() == 0 {
                bytes@.len() - usb_moved(old(self).usb.fifo_free as int, bytes@.len() as int)
                    <= BUFFER_SIZE
            } else {
                old(self).writer.buffered().len() + bytes@.len() <= BUFFER_SIZE
            }),
    {
        let usb = &mut self.usb;
        self.writer.write_bytes_try_immediate(usb, bytes)
    }

    /// As [`UsbWriterBuffered::write_bytes_non_immediate`].
    pub fn write_bytes_non_immediate(&mut self, bytes: &[u8]) -> (r: Result<(), UsbWriterError>)
        requires
            old(self).writer.well_formed(),
        ensures
            final(self).writer.well_formed(),
            final(self).writer.buffered() == old(self).writer.buffered() + bytes@.take(
                fitting(
                    old(self).writer.buffered().len() as int,
                    bytes@.len() as int,
                    BUFFER_SIZE as int,
                ),
            ),
            r is Ok <==> old(self).writer.buffered().len() + bytes@.len() <= BUFFER_SIZE,
            final(self).usb == old(self).usb,
    {
        self.writer.write_bytes_non_immediate(bytes)
    }
}

/// Builder with optional overrides for the blocking-update parameters.
#[derive(Debug, Clone, Copy)]
pub struct UsbWriterBufferedBuilder<const BUFFER_SIZE: usize> {
    pub minimum_empty_space: Option<usize>,
    pub timeout_treshold: Option<u64>,
}

impl<const BUFFER_SIZE: usize> UsbWriterBufferedBuilder<BUFFER_SIZE> {
    pub fn new() -> (b: Self)
        ensures
            b.minimum_empty_space is None,
            b.timeout_treshold is None,
    {
        UsbWriterBufferedBuilder { minimum_empty_space: None, timeout_treshold: None }
    }

    pub fn minimum_empty_space(&mut self, minimum_empty_space: usize) -> (b: Self)
        ensures
            final(self).minimum_empty_space == Some(minimum_empty_space),
            final(self).timeout_treshold == old(self).timeout_treshold,
            b == *final(self),
    {
        self.minimum_empty_space = Some(minimum_empty_space);
        *self
    }

    pub fn timeout_treshold(&mut self, timeout_treshold: u64) -> (b: Self)
        ensures
            final(self).timeout_treshold == Some(timeout_treshold),
            final(self).minimum_empty_space == old(self).minimum_empty_space,
            b == *final(self),
    {
        self.timeout_treshold = Some(timeout_treshold);
        *self
    }

    /// Builds the writer; left unset, the minimum empty space defaults to
    /// three quarters of the buffer and the timeout threshold to one
    /// millisecond.
    pub fn build(&mut self) -> (w: UsbWriterBuffered<BUFFER_SIZE>)
        ensures
            w.well_formed(),
            w.buffered() == Seq::<u8>::empty(),
            !w.timeout,
            w.minimum_empty_space == match old(self).minimum_empty_space {
                Some(v) => v as int,
                None => BUFFER_SIZE as int * 3 / 4,
            },
            w.timeout_treshold == match old(self).timeout_treshold {
                Some(v) => v,
                None => crate::TICKS_PER_SECOND / 1_000,
            },
    {
        let minimum_empty_space = match self.minimum_empty_space {
            Some(v) => v,
            None => {
                proof {
                    vstd::arithmetic::div_mod::lemma_div_multiples_vanish(
                        BUFFER_SIZE as int,
                        4int,
                    );
                    vstd::arithmetic::div_mod::lemma_div_is_ordered(
                        BUFFER_SIZE as int * 3,
                        BUFFER_SIZE as int * 4,
                        4int,
                    );
                }
                ((BUFFER_SIZE as u128) * 3 / 4) as usize
            },
        };
        let timeout_treshold = match self.timeout_treshold {
            Some(v) => v,
            None => crate::TICKS_PER_SECOND / 1_000,
        };
        UsbWriterBuffered::new(minimum_empty_space, timeout_treshold)
    }
}

impl<const BUFFER_SIZE: usize> Default for UsbWriterBufferedBuilder<BUFFER_SIZE> {
    fn default() -> (b: Self)
        ensures
            b.minimum_empty_space is None,
            b.timeout_treshold is None,
    {
        UsbWriterBufferedBuilder::new()
    }
}

impl<const BUFFER_SIZE: usize> Default for UsbWriterBuffered<BUFFER_SIZE> {
    fn default() -> (w: Self)
        ensures
            w.well_formed(),
            w.buffered() == Seq::<u8>::empty(),
            !w.timeout,
    {
        UsbWriterBufferedBuilder::<BUFFER_SIZE>::new().build()
    }
}

} // verus!
