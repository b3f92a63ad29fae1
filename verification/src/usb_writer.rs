//! Buffered, non-blocking writers for the USB serial endpoint.
//!
//! Data flows from the caller into a software ring buffer and from there into
//! the endpoint fifo ([`UsbDevice`] models the endpoint registers; the
//! platform layer mirrors them). [`RingBufferUsbWriter`] additionally tracks
//! whether the host has stopped draining the fifo, via a timeout alarm on the
//! timer multiplexer.

use vstd::prelude::*;
use vstd::string::StringExecFns;
use crate::interrupts::{Mailbox, USBInterruptStatus, usb_interrupt_get_and_clear};
use crate::qq_alarm_queue::QQAlarmQueue;
use crate::ring_buffer::{fitting, Ignore, RingBuffer, RingBufferError};

verus! {

/// Best-effort textual diagnostic sink: lines may be dropped on overflow, and
/// nothing is promised about them.
pub trait DiagnosticSink {
    /// Abstract invariant carried between calls.
    spec fn inv(&self) -> bool;

    /// The lines offered to the sink so far, in order. Delivery stays
    /// best-effort (a line may be dropped on overflow); this view records
    /// what was reported, so callers can promise that no error goes
    /// unreported.
    spec fn noted(&self) -> Seq<Seq<char>>;

    /// Reports one line, stamped with the current tick.
    fn note(&mut self, line: &str, now: u64)
        requires
            old(self).inv(),
        ensures
            final(self).inv(),
            final(self).noted() == old(self).noted().push(line@),
    ;
}

/// `post` extends `pre` by exactly `k` reported lines: the old lines are kept
/// and `k` new ones follow them.
pub open spec fn noted_k_more(pre: Seq<Seq<char>>, post: Seq<Seq<char>>, k: int) -> bool {
    &&& post.len() == pre.len() + k
    &&& forall|i: int| 0 <= i < pre.len() ==> post[i] == pre[i]
}

/// Contract every buffered USB writer offers the drivers.
pub trait UsbWriter {
    /// Abstract invariant carried between calls.
    spec fn inv(&self) -> bool;

    /// Whether the host has stopped draining the endpoint.
    spec fn timeouted(&self) -> bool;

    /// Queues bytes for transmission at the current tick; fails with
    /// `Overflow` when they do not all fit in the software buffer.
    fn write(&mut self, bytes: &[u8], now: u64) -> (r: Result<(), RingBufferError>)
        requires
            old(self).inv(),
        ensures
            final(self).inv(),
    ;

    fn is_timeouted(&self) -> (r: bool)
        ensures
            r == self.timeouted(),
    ;
}

/// The decimal digits of `n`, most significant first, without leading zeros
/// (a single zero digit for zero).
pub open spec fn dec_seq(n: int) -> Seq<char>
    decreases n,
{
    if n < 10 {
        seq![dec_digit_char(n)]
    } else {
        dec_seq(n / 10).push(dec_digit_char(n % 10))
    }
}

/// The character of one decimal digit.
pub open spec fn dec_digit_char(d: int) -> char {
    if d == 0 {
        '0'
    } else if d == 1 {
        '1'
    } else if d == 2 {
        '2'
    } else if d == 3 {
        '3'
    } else if d == 4 {
        '4'
    } else if d == 5 {
        '5'
    } else if d == 6 {
        '6'
    } else if d == 7 {
        '7'
    } else if d == 8 {
        '8'
    } else {
        '9'
    }
}

/// One decimal digit as text.
fn dec_digit_str(d: u32) -> (s: &'static str)
    requires
        d < 10,
    ensures
        s@ == seq![dec_digit_char(d as int)],
{
    proof {
        reveal_strlit("0");
        reveal_strlit("1");
        reveal_strlit("2");
        reveal_strlit("3");
        reveal_strlit("4");
        reveal_strlit("5");
        reveal_strlit("6");
        reveal_strlit("7");
        reveal_strlit("8");
        reveal_strlit("9");
    }
    let s = match d {
        0 => "0",
        1 => "1",
        2 => "2",
        3 => "3",
        4 => "4",
        5 => "5",
        6 => "6",
        7 => "7",
        8 => "8",
        _ => "9",
    };
    proof {
        assert(s@ =~= seq![dec_digit_char(d as int)]);
    }
    s
}

/// Renders a number in decimal, for the diagnostic lines.
pub fn u32_to_decimal(n: u32) -> (s: String)
    ensures
        s@ == dec_seq(n as int),
    decreases n,
{
    if n < 10 {
        let mut s = String::new();
        s.append(dec_digit_str(n));
        proof {
            assert(s@ =~= dec_seq(n as int));
        }
        s
    } else {
        let mut s = u32_to_decimal(n / 10);
        s.append(dec_digit_str(n % 10));
        proof {
            assert(s@ =~= dec_seq(n as int));
        }
        s
    }
}

/// Renders a counter in decimal, for the diagnostic lines.
pub fn usize_to_decimal(n: usize) -> (s: String)
    ensures
        s@ == dec_seq(n as int),
    decreases n,
{
    if n < 10 {
        let mut s = String::new();
        s.append(dec_digit_str(n as u32));
        proof {
            assert(s@ =~= dec_seq(n as int));
        }
        s
    } else {
        let mut s = usize_to_decimal(n / 10);
        s.append(dec_digit_str((n % 10) as u32));
        proof {
            assert(s@ =~= dec_seq(n as int));
        }
        s
    }
}

/// Model of the serial-in endpoint registers the writers drive. The platform
/// layer mirrors `sent`, `flushed` and the interrupt enable onto the device
/// and refills `fifo_free` as the host drains the fifo.
pub struct UsbDevice {
    /// Free space left in the endpoint fifo, in bytes.
    pub fifo_free: usize,
    /// Bytes handed to the endpoint, oldest first.
    pub sent: Vec<u8>,
    /// Whether the bytes handed over have been marked ready to send.
    pub flushed: bool,
    /// The serial-in-empty interrupt enable bit.
    pub serial_in_empty_int_ena: bool,
}

impl UsbDevice {
    pub fn new(fifo_free: usize) -> (d: UsbDevice)
        ensures
            d.fifo_free == fifo_free,
            d.sent@ == Seq::<u8>::empty(),
            !d.flushed,
            !d.serial_in_empty_int_ena,
    {
        UsbDevice { fifo_free, sent: Vec::new(), flushed: false, serial_in_empty_int_ena: false }
    }

    /// The endpoint's data-free bit: whether another byte fits.
    pub fn ep_data_free(&self) -> (r: bool)
        ensures
            r == (self.fifo_free > 0),
    {
        self.fifo_free > 0
    }

    /// Hands one byte to the endpoint fifo.
    pub fn write_byte(&mut self, byte: u8)
        requires
            old(self).fifo_free > 0,
        ensures
            final(self).sent@ == old(self).sent@.push(byte),
            final(self).fifo_free == old(self).fifo_free - 1,
            !final(self).flushed,
            final(self).serial_in_empty_int_ena == old(self).serial_in_empty_int_ena,
    {
        self.sent.push(byte);
        self.fifo_free = self.fifo_free - 1;
        self.flushed = false;
    }

    /// Marks the handed-over bytes ready to send.
    pub fn flush(&mut self)
        ensures
            *final(self) == (UsbDevice { flushed: true, ..*old(self) }),
    {
        self.flushed = true;
    }

    /// Sets the serial-in-empty interrupt enable bit.
    pub fn int_serial_in_empty(&mut self, enable: bool)
        ensures
            *final(self) == (UsbDevice { serial_in_empty_int_ena: enable, ..*old(self) }),
    {
        self.serial_in_empty_int_ena = enable;
    }

    /// Platform/test side: the host drained the fifo, freeing `n` bytes.
    pub fn host_make_room(&mut self, n: usize)
        requires
            old(self).fifo_free + n <= usize::MAX,
        ensures
            *final(self) == (UsbDevice {
                fifo_free: (old(self).fifo_free + n) as usize,
                ..*old(self)
            }),
    {
        self.fifo_free = self.fifo_free + n;
    }
}

/// Host-draining timeout tracker of the buffered writer.
#[derive(Debug, Clone, Copy, PartialEq, Eq, Structural)]
pub enum TimeoutState {
    /// Nothing buffered, no timeout armed.
    Idle,
    /// Data was buffered at the carried tick; the timeout alarm is not armed
    /// yet.
    Pending(u64),
    /// The timeout alarm with the carried id is armed.
    Active(usize),
    /// The alarm fired before the fifo drained: the host is gone.
    Timeout,
}

/// USB writer that buffers outgoing bytes in a ring buffer and moves them
/// into the endpoint fifo as interrupts report room, arming a timeout alarm
/// to detect a host that stopped listening.
pub struct RingBufferUsbWriter<const BUFFER_SIZE: usize> {
    /// Model of the endpoint registers this writer owns.
    pub usb: UsbDevice,
    /// The software buffer.
    pub buffer: RingBuffer<u8, BUFFER_SIZE, Ignore>,
    /// Timeout tracking state.
    pub timeout_state: TimeoutState,
    /// Ticks the host is given to drain the fifo before a timeout.
    pub timeout_delay: u64,
    /// The diagnostic lines offered through [`DiagnosticSink::note`].
    pub noted_lines: Ghost<Seq<Seq<char>>>,
}

/// How many buffered bytes one update moves into a fifo with `free` bytes of
/// room.
pub open spec fn usb_moved(free: int, buffered: int) -> int {
    if buffered <= free {
        buffered
    } else {
        free
    }
}

impl<const BUFFER_SIZE: usize> RingBufferUsbWriter<BUFFER_SIZE> {
    /// Default host-draining timeout: one millisecond.
    pub const DEFAULT_TIMEOUT_DELAY: u64 = crate::TICKS_PER_SECOND / 1_000;

    pub open spec fn well_formed(&self) -> bool {
        self.buffer.well_formed()
    }

    /// Takes ownership of the endpoint; the buffer starts empty.
    pub fn new(usb: UsbDevice, timeout_delay: Option<u64>) -> (w: Self)
        ensures
            w.well_formed(),
            w.buffer@ == Seq::<u8>::empty(),
            w.timeout_state == TimeoutState::Idle,
            w.usb == usb,
            w.timeout_delay == match timeout_delay {
                Some(d) => d,
                None => Self::DEFAULT_TIMEOUT_DELAY,
            },
            w.noted_lines@ == Seq::<Seq<char>>::empty(),
    {
        Self::new_from_ref(usb, timeout_delay)
    }

    /// As [`Self::new`].
    pub fn new_from_ref(usb: UsbDevice, timeout_delay: Option<u64>) -> (w: Self)
        ensures
            w.well_formed(),
            w.buffer@ == Seq::<u8>::empty(),
            w.timeout_state == TimeoutState::Idle,
            w.usb == usb,
            w.timeout_delay == match timeout_delay {
                Some(d) => d,
                None => Self::DEFAULT_TIMEOUT_DELAY,
            },
            w.noted_lines@ == Seq::<Seq<char>>::empty(),
    {
        RingBufferUsbWriter {
            usb,
            buffer: RingBuffer::new(),
            timeout_state: TimeoutState::Idle,
            timeout_delay: match timeout_delay {
                Some(d) => d,
                None => Self::DEFAULT_TIMEOUT_DELAY,
            },
            noted_lines: Ghost(Seq::empty()),
        }
    }

    /// Handles a serial-in-empty interrupt (or, absent one, arms the pending
    /// timeout alarm): moves as many buffered bytes into the fifo as fit,
    /// flushes when the buffer drained completely, and re-arms or clears the
    /// timeout alarm. Returns whether it did observable work.
    pub fn update<Q: QQAlarmQueue>(&mut self, qq: &mut Q, usb_mailbox: &mut Mailbox, now: u64) -> (did:
        bool)
        requires
            old(self).well_formed(),
            old(qq).inv(),
            old(qq).can_allocate(),
            old(self).timeout_state matches TimeoutState::Pending(start) ==> start + old(self).timeout_delay <= u64::MAX,
            old(usb_mailbox)@ & USBInterruptStatus::SERIAL_IN_EMPTY == 0 && old(self).timeout_state
                is Pending ==> old(qq).has_free_slot(),
            old(usb_mailbox)@ & USBInterruptStatus::SERIAL_IN_EMPTY != 0 ==> (match old(self).timeout_state {
                TimeoutState::Active(id) => old(qq).alarms().dom().contains(id),
                _ => old(qq).has_free_slot(),
            }),
        ensures
            final(self).well_formed(),
            final(qq).inv(),
            final(self).timeout_delay == old(self).timeout_delay,
            final(self).noted_lines == old(self).noted_lines,
            final(usb_mailbox)@ == old(usb_mailbox)@ & !USBInterruptStatus::SERIAL_IN_EMPTY,
            ({
                let drained = old(usb_mailbox)@ & USBInterruptStatus::SERIAL_IN_EMPTY;
                if drained == 0 {
                    match old(self).timeout_state {
                        TimeoutState::Pending(start) => did && final(self).timeout_state
                            == TimeoutState::Active(old(qq).fresh_id()) && final(self).buffer@
                            == old(self).buffer@ && final(self).usb == old(self).usb && final(qq).alarms() == old(qq).alarms().insert(
                            old(qq).fresh_id(),
                            (start + old(self).timeout_delay) as u64,
                        ),
                        _ => !did && *final(self) == *old(self) && *final(qq) == *old(qq),
                    }
                } else {
                    let k = usb_moved(old(self).usb.fifo_free as int, old(self).buffer@.len() as int);
                    let cancelled = match old(self).timeout_state {
                        TimeoutState::Active(id) => old(qq).alarms().remove(id),
                        _ => old(qq).alarms(),
                    };
                    did && final(self).buffer@ == old(self).buffer@.skip(k) && final(self).usb.sent@ == old(self).usb.sent@ + old(self).buffer@.take(k) && (if old(self).buffer@.len() <= old(self).usb.fifo_free {
                        final(qq).alarms() == cancelled && final(self).usb.flushed && final(self).timeout_state == TimeoutState::Idle
                            && !final(self).usb.serial_in_empty_int_ena
                    } else {
                        final(self).timeout_state == TimeoutState::Active(old(qq).fresh_id())
                            && final(qq).alarms() == cancelled.insert(old(qq).fresh_id(), now)
                    })
                }
            }),
    {
        let pending_interrupts = usb_interrupt_get_and_clear(
            usb_mailbox,
            USBInterruptStatus::from_bits_truncate(USBInterruptStatus::SERIAL_IN_EMPTY),
        );
        proof {
            let b = old(usb_mailbox)@;
            assert(b & 0x8u32 & 0x8u32 == b & 0x8u32) by (bit_vector);
            assert(0x8u32 & 0x8u32 == 0x8u32) by (bit_vector);
        }

        if pending_interrupts.is_empty() {
            match self.timeout_state {
                TimeoutState::Pending(timeout_start) => {
                    let qq_alarm_id = match qq.add(timeout_start + self.timeout_delay) {
                        Ok(id) => id,
                        Err(_) => {
                            proof {
                                assert(false);
                            }
                            0
                        },
                    };
                    self.timeout_state = TimeoutState::Active(qq_alarm_id);
                    true
                },
                _ => false,
            }
        } else {
            let ghost buf0 = self.buffer@;
            let ghost free0 = self.usb.fifo_free;
            let ghost sent0 = self.usb.sent@;
            proof {
                assert(buf0.skip(0) =~= buf0);
                assert(sent0 + buf0.take(0) =~= sent0);
            }
            while self.buffer.len() > 0 && self.usb.fifo_free > 0
                invariant
                    self.buffer.well_formed(),
                    self.buffer@.len() <= buf0.len(),
                    self.usb.sent@ == sent0 + buf0.take(buf0.len() - self.buffer@.len()),
                    self.buffer@ == buf0.skip(buf0.len() - self.buffer@.len()),
                    self.usb.fifo_free == free0 - (buf0.len() - self.buffer@.len()),
                    buf0.len() - self.buffer@.len() <= free0,
                    self.usb.serial_in_empty_int_ena == old(self).usb.serial_in_empty_int_ena,
                    self.usb.flushed == old(self).usb.flushed || self.buffer@.len() < buf0.len(),
                    self.timeout_state == old(self).timeout_state,
                    self.timeout_delay == old(self).timeout_delay,
                    self.noted_lines == old(self).noted_lines,
                decreases self.buffer@.len(),
            {
                let ghost bpre = self.buffer@;
                match self.buffer.pop_front() {
                    Some(byte) => {
                        self.usb.write_byte(byte);
                        proof {
                            let c0 = buf0.len() - bpre.len();
                            assert(bpre == buf0.skip(c0 as int));
                            assert(byte == buf0[c0 as int]);
                            assert(self.buffer@ =~= buf0.skip(c0 + 1));
                            assert(buf0.take(c0 + 1) =~= buf0.take(c0 as int).push(
                                buf0[c0 as int],
                            ));
                            assert(sent0 + buf0.take(c0 as int).push(buf0[c0 as int]) =~= (sent0
                                + buf0.take(c0 as int)).push(buf0[c0 as int]));
                        }
                    },
                    None => {
                        proof {
                            assert(false);
                        }
                    },
                }
            }
            if self.buffer.len() == 0 {
                self.usb.flush();
            }
            proof {
                let k = usb_moved(free0 as int, buf0.len() as int);
                assert(buf0.len() - self.buffer@.len() == k);
            }

            match self.timeout_state {
                TimeoutState::Active(qq_alarm_id) => {
                    let removed = qq.remove(qq_alarm_id);
                    proof {
                        assert(removed is Ok);
                    }
                },
                _ => {},
            }

            if self.buffer.len() == 0 {
                self.usb.int_serial_in_empty(false);
                self.timeout_state = TimeoutState::Idle;
            } else {
                let qq_alarm_id = match qq.add(now) {
                    Ok(id) => id,
                    Err(_) => {
                        proof {
                            assert(false);
                        }
                        0
                    },
                };
                self.timeout_state = TimeoutState::Active(qq_alarm_id);
            }
            true
        }
    }

    /// Offers a drained alarm id: claims it when it is this writer's armed
    /// timeout alarm, recording that the host timed out.
    pub fn on_alarm(&mut self, qq_alarm_id: usize) -> (claimed: bool)
        ensures
            claimed == (old(self).timeout_state == TimeoutState::Active(qq_alarm_id)),
            claimed ==> *final(self) == (RingBufferUsbWriter {
                timeout_state: TimeoutState::Timeout,
                ..*old(self)
            }),
            !claimed ==> *final(self) == *old(self),
    {
        match self.timeout_state {
            TimeoutState::Active(id) => {
                if id == qq_alarm_id {
                    self.timeout_state = TimeoutState::Timeout;
                    true
                } else {
                    false
                }
            },
            _ => false,
        }
    }

    /// Queues bytes in the software buffer (as many as fit; `Overflow` when
    /// some did not). Buffering into an empty buffer starts the host timeout
    /// clock and enables the serial-in-empty interrupt.
    pub fn write(&mut self, bytes: &[u8], now: u64) -> (r: Result<(), RingBufferError>)
        requires
            old(self).well_formed(),
        ensures
            final(self).well_formed(),
            final(self).buffer@ == old(self).buffer@ + bytes@.take(
                fitting(old(self).buffer@.len() as int, bytes@.len() as int, BUFFER_SIZE as int),
            ),
            r is Ok <==> old(self).buffer@.len() + bytes@.len() <= BUFFER_SIZE,
            final(self).usb.sent@ == old(self).usb.sent@,
            final(self).timeout_delay == old(self).timeout_delay,
            final(self).noted_lines == old(self).noted_lines,
            old(self).buffer@.len() == 0 ==> final(self).usb.serial_in_empty_int_ena && final(self).timeout_state == (if old(self).timeout_state == TimeoutState::Idle {
                TimeoutState::Pending(now)
            } else {
                old(self).timeout_state
            }),
            old(self).buffer@.len() > 0 ==> final(self).timeout_state == old(self).timeout_state
                && final(self).usb == old(self).usb,
    {
        let empty_before = self.buffer.len() == 0;
        let r = self.buffer.extend_from_slice(bytes);

        if empty_before {
            match self.timeout_state {
                TimeoutState::Idle => {
                    self.timeout_state = TimeoutState::Pending(now);
                },
                _ => {},
            }
            self.usb.int_serial_in_empty(true);
        }
        r
    }

    /// Whether the timeout alarm fired before the host drained the fifo.
    pub fn is_timeouted(&self) -> (r: bool)
        ensures
            r == (self.timeout_state == TimeoutState::Timeout),
    {
        match self.timeout_state {
            TimeoutState::Timeout => true,
            _ => false,
        }
    }
}

impl<const BUFFER_SIZE: usize> UsbWriter for RingBufferUsbWriter<BUFFER_SIZE> {
    open spec fn inv(&self) -> bool {
        self.well_formed()
    }

    open spec fn timeouted(&self) -> bool {
        self.timeout_state == TimeoutState::Timeout
    }

    fn write(&mut self, bytes: &[u8], now: u64) -> Result<(), RingBufferError> {
        RingBufferUsbWriter::write(self, bytes, now)
    }

    fn is_timeouted(&self) -> (r: bool) {
        RingBufferUsbWriter::is_timeouted(self)
    }
}

impl<const BUFFER_SIZE: usize> DiagnosticSink for RingBufferUsbWriter<BUFFER_SIZE> {
    open spec fn inv(&self) -> bool {
        self.well_formed()
    }

    open spec fn noted(&self) -> Seq<Seq<char>> {
        self.noted_lines@
    }

    /// Best-effort: drops the line on overflow, but records the report.
    fn note(&mut self, line: &str, now: u64) {
        let _ = self.write(line.as_bytes(), now);
        self.noted_lines = Ghost(self.noted_lines@.push(line@));
    }
}

} // verus!
