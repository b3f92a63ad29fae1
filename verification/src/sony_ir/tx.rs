//! Encoder for Sony infrared transmissions: turns a raw command into pulse
//! words for the transmit channel and paces repeated commands with a
//! configurable pause.

use vstd::prelude::*;
use crate::rmt_tx::{PulseCode, RmtTxChannel};
use crate::sony_ir::{raw_from_command, SonyIRCommand, SonyIRRawCommand};

verus! {

#[derive(Debug, Clone, Copy, PartialEq, Eq, Structural)]
pub enum SonyIRError {
    UnsendableCommand,
    RMTPeripheral,
    EncoderBufferFull,
}

/// As `SonyIRRawCommand`, but guaranteed to fit one block of channel RAM
/// (strictly fewer than 48 bits, and at least one). Only the two conversion
/// functions build values of it.
#[derive(Debug, Clone, Copy, PartialEq, Eq, Structural)]
pub struct SonyIRRawSendableCommand {
    pub data: u32,
    pub bits: u8,
}

impl SonyIRRawSendableCommand {
    pub open spec fn sendable(&self) -> bool {
        0 < self.bits < 48
    }

    /// Accepts a raw command exactly when it fits one RAM block.
    pub fn from_raw(command: SonyIRRawCommand) -> (r: Option<SonyIRRawSendableCommand>)
        ensures
            r is Some <==> 0 < command.bits < 48,
            r matches Some(c) ==> c == (SonyIRRawSendableCommand {
                data: command.data,
                bits: command.bits,
            }) && c.sendable(),
    {
        if command.bits == 0 || command.bits >= 48 {
            None
        } else {
            Some(SonyIRRawSendableCommand { data: command.data, bits: command.bits })
        }
    }

    pub fn from_command(command: SonyIRCommand) -> (r: Option<SonyIRRawSendableCommand>)
        ensures
            r is Some <==> 0 < raw_from_command(command).bits < 48,
            r matches Some(c) ==> c == (SonyIRRawSendableCommand {
                data: raw_from_command(command).data,
                bits: raw_from_command(command).bits,
            }) && c.sendable(),
    {
        SonyIRRawSendableCommand::from_raw(SonyIRRawCommand::from_command(command))
    }
}

/// Bit `j` of the command data.
pub open spec fn sony_bit(data: u32, j: int) -> int {
    (data as int / pow2_int(j)) % 2
}

/// Two to the `j`-th power (zero for a negative exponent, which never
/// arises).
pub open spec fn pow2_int(j: int) -> int {
    if j < 0 {
        0
    } else {
        vstd::arithmetic::power2::pow2(j as nat) as int
    }
}

/// The pulse words of one command: a start mark of four units, then one word
/// per data bit, least significant first — a one bit carries a two-unit mark,
/// a zero bit a one-unit mark, each followed by a one-unit space — with the
/// last word carrying a zero-length second half as the end marker.
pub open spec fn sony_pulse_seq(data: u32, bits: int) -> Seq<PulseCode> {
    Seq::new(
        (bits + 1) as nat,
        |i: int|
            if i == 0 {
                PulseCode { level1: true, length1: 4, level2: false, length2: 1 }
            } else if i < bits {
                PulseCode {
                    level1: true,
                    length1: (sony_bit(data, i - 1) + 1) as u16,
                    level2: false,
                    length2: 1,
                }
            } else {
                PulseCode {
                    level1: true,
                    length1: (sony_bit(data, bits - 1) + 1) as u16,
                    level2: false,
                    length2: 0,
                }
            },
    )
}

/// Fills the channel RAM with one command's pulse words.
pub fn sony_ir_ch0_fill_ram_raw(rmt: &mut RmtTxChannel, command: SonyIRRawSendableCommand)
    requires
        command.sendable(),
    ensures
        final(rmt).ram@ == sony_pulse_seq(command.data, command.bits as int),
        final(rmt).int_err == old(rmt).int_err,
        final(rmt).int_end == old(rmt).int_end,
        final(rmt).running == old(rmt).running,
{
    let ghost target = sony_pulse_seq(command.data, command.bits as int);
    let mut codes: Vec<PulseCode> = Vec::new();
    codes.push(PulseCode { level1: true, length1: 4, level2: false, length2: 1 });

    let mut data = command.data;
    let mut j: usize = 0;
    let bits = command.bits as usize;
    proof {
        vstd::arithmetic::power2::lemma2_to64();
        vstd::arithmetic::div_mod::lemma_div_basics(command.data as int);
    }
    while j < bits - 1
        invariant
            0 < bits < 48,
            j <= bits - 1,
            data == command.data as int / pow2_int(j as int),
            codes@.len() == j + 1,
            forall|i: int| 0 <= i <= j ==> codes@[i] == target[i],
            target == sony_pulse_seq(command.data, bits as int),
        decreases bits - 1 - j,
    {
        let bit = data % 2;
        proof {
            assert(bit == sony_bit(command.data, j as int));
            vstd::arithmetic::power2::lemma_pow2_pos(j as nat);
            vstd::arithmetic::power2::lemma_pow2_unfold((j + 1) as nat);
            vstd::arithmetic::div_mod::lemma_div_denominator(
                command.data as int,
                pow2_int(j as int),
                2,
            );
        }
        data = data / 2;
        codes.push(
            PulseCode { level1: true, length1: (bit + 1) as u16, level2: false, length2: 1 },
        );
        j = j + 1;
    }
    let last_bit = data % 2;
    proof {
        assert(last_bit == sony_bit(command.data, bits - 1));
    }
    codes.push(
        PulseCode { level1: true, length1: (last_bit + 1) as u16, level2: false, length2: 0 },
    );
    proof {
        assert(codes@ =~= target);
    }
    rmt.rmt_ch0_fill_ram(codes);
}

/// Converts and sends one command into the channel RAM; fails with
/// `UnsendableCommand` when it does not fit a RAM block (possible only for
/// raw commands).
pub fn sony_ir_ch0_fill_ram(rmt: &mut RmtTxChannel, command: SonyIRCommand) -> (r: Result<
    (),
    SonyIRError,
>)
    ensures
        r is Ok <==> 0 < raw_from_command(command).bits < 48,
        r is Ok ==> final(rmt).ram@ == sony_pulse_seq(
            raw_from_command(command).data,
            raw_from_command(command).bits as int,
        ),
        r is Err ==> r == Err::<(), SonyIRError>(SonyIRError::UnsendableCommand) && *final(rmt)
            == *old(rmt),
{
    let command = match SonyIRRawSendableCommand::from_command(command) {
        Some(c) => c,
        None => {
            return Err(SonyIRError::UnsendableCommand);
        },
    };
    sony_ir_ch0_fill_ram_raw(rmt, command);
    Ok(())
}

/// When repeated commands are queued, how the pause to the next transmission
/// is measured: from the start of the previous one, or from its end.
#[derive(Debug, Clone, Copy, PartialEq, Eq, Structural)]
pub enum SonyIREncoderPause {
    FromStart(u64),
    FromEnd(u64),
}

#[derive(Debug, Clone, Copy, PartialEq, Eq, Structural)]
pub enum SonyIREncoderState {
    Idle,
    /// Transmitting; when done, pause the carried number of ticks.
    TxPauseFromEnd(u64),
    /// Transmitting; when done, stay paused until the carried tick.
    TxPauseFromStart(u64),
    /// Paused until the carried tick.
    Paused(u64),
}

/// Queues commands (each with a repeat count and a pause policy) and paces
/// them onto the transmit channel one at a time.
pub struct SonyIREncoder<const BUFFER_SIZE: usize> {
    pub buffer: Vec<(SonyIRRawSendableCommand, SonyIREncoderPause, u8)>,
    pub buffer_index: usize,
    pub buffer_length: usize,
    pub state: SonyIREncoderState,
    /// Whether the channel RAM still has to be filled for the next command
    /// (false while repeating the one already in RAM).
    pub next_command_needs_fill: bool,
    pub default_pause: SonyIREncoderPause,
}

impl<const BUFFER_SIZE: usize> SonyIREncoder<BUFFER_SIZE> {
    /// Default pause between queued commands: 46 ms from the end of the
    /// previous transmission.
    pub const DEFAULT_COMMANDS_PAUSE_TICKS: u64 = 46 * (crate::TICKS_PER_SECOND / 1_000);

    /// The queued entries in send order.
    pub open spec fn entries(&self) -> Seq<(SonyIRRawSendableCommand, SonyIREncoderPause, u8)> {
        Seq::new(
            self.buffer_length as nat,
            |i: int|
                self.buffer@[crate::ring_buffer::wrap_spec(
                    self.buffer_index as int,
                    i,
                    BUFFER_SIZE as int,
                )],
        )
    }

    pub open spec fn well_formed(&self) -> bool {
        &&& self.buffer@.len() == BUFFER_SIZE
        &&& self.buffer_length <= BUFFER_SIZE
        &&& if BUFFER_SIZE == 0 {
            self.buffer_index == 0
        } else {
            self.buffer_index < BUFFER_SIZE
        }
        &&& forall|i: int|
            0 <= i < self.buffer_length ==> (#[trigger] self.entries()[i]).2 >= 1 && self.entries()[i].0.sendable()
    }

    pub fn new() -> (e: SonyIREncoder<BUFFER_SIZE>)
        ensures
            e.well_formed(),
            e.buffer_length == 0,
            e.state == SonyIREncoderState::Idle,
            e.next_command_needs_fill,
            e.default_pause == SonyIREncoderPause::FromEnd(Self::DEFAULT_COMMANDS_PAUSE_TICKS),
    {
        SonyIREncoder::with_commands_pause(
            SonyIREncoderPause::FromEnd(Self::DEFAULT_COMMANDS_PAUSE_TICKS),
        )
    }

    pub fn with_commands_pause(default_pause: SonyIREncoderPause) -> (e: SonyIREncoder<
        BUFFER_SIZE,
    >)
        ensures
            e.well_formed(),
            e.buffer_length == 0,
            e.state == SonyIREncoderState::Idle,
            e.next_command_needs_fill,
            e.default_pause == default_pause,
    {
        let mut buffer: Vec<(SonyIRRawSendableCommand, SonyIREncoderPause, u8)> = Vec::new();
        while buffer.len() < BUFFER_SIZE
            invariant
                buffer@.len() <= BUFFER_SIZE,
            decreases BUFFER_SIZE - buffer.len(),
        {
            buffer.push(
                (
                    SonyIRRawSendableCommand { data: 0, bits: 0 },
                    SonyIREncoderPause::FromStart(0),
                    0,
                ),
            );
        }
        SonyIREncoder {
            buffer,
            buffer_index: 0,
            buffer_length: 0,
            state: SonyIREncoderState::Idle,
            next_command_needs_fill: true,
            default_pause,
        }
    }

    /// Whether a transmission is on the channel right now.
    pub fn is_transmitting(&self) -> (r: bool)
        ensures
            r == (self.state is TxPauseFromEnd || self.state is TxPauseFromStart),
    {
        match self.state {
            SonyIREncoderState::TxPauseFromEnd(_) | SonyIREncoderState::TxPauseFromStart(_) => true,
            _ => false,
        }
    }

    /// Whether a new transmission may start now; a pause whose tick has been
    /// reached is retired on the way. Mind the comparison's direction: a
    /// start is allowed while the pause window is still open (`ready_at >=
    /// now`) and refused once the tick has passed, so pacing relies on the
    /// encoder being polled within each pause window.
    fn can_start_with_state_update(&mut self, now: u64) -> (r: bool)
        ensures
            final(self).buffer == old(self).buffer,
            final(self).buffer_index == old(self).buffer_index,
            final(self).buffer_length == old(self).buffer_length,
            final(self).next_command_needs_fill == old(self).next_command_needs_fill,
            final(self).default_pause == old(self).default_pause,
            (match old(self).state {
                SonyIREncoderState::Paused(ready_at) => {
                    if ready_at >= now {
                        r && final(self).state == SonyIREncoderState::Idle
                    } else {
                        !r && final(self).state == old(self).state
                    }
                },
                SonyIREncoderState::Idle => r && final(self).state == old(self).state,
                _ => !r && final(self).state == old(self).state,
            }),
    {
        match self.state {
            SonyIREncoderState::Paused(ready_at) => {
                if ready_at >= now {
                    self.state = SonyIREncoderState::Idle;
                    true
                } else {
                    false
                }
            },
            SonyIREncoderState::Idle => true,
            _ => false,
        }
    }

    /// Takes the front entry for transmission: its repeat count goes down by
    /// one, and when exhausted the entry leaves the queue (so the next
    /// command will need a RAM fill).
    pub fn next_command_unchecked(&mut self) -> (r: (SonyIRRawSendableCommand, SonyIREncoderPause))
        requires
            old(self).well_formed(),
            old(self).buffer_length >= 1,
        ensures
            final(self).well_formed(),
            r == (old(self).entries()[0].0, old(self).entries()[0].1),
            final(self).state == old(self).state,
            final(self).default_pause == old(self).default_pause,
            (if old(self).entries()[0].2 == 1 {
                final(self).entries() == old(self).entries().drop_first() && final(self).next_command_needs_fill
            } else {
                final(self).entries() == old(self).entries().update(
                    0,
                    (
                        old(self).entries()[0].0,
                        old(self).entries()[0].1,
                        (old(self).entries()[0].2 - 1) as u8,
                    ),
                ) && !final(self).next_command_needs_fill
            }),
    {
        let ghost old_entries = self.entries();
        proof {
            assert(old_entries[0] == self.buffer@[self.buffer_index as int]);
        }
        let (command, pause, repeats) = self.buffer[self.buffer_index];
        let repeats = repeats - 1;

        if repeats == 0 {
            self.buffer_length = self.buffer_length - 1;
            self.buffer_index = if self.buffer_index + 1 == BUFFER_SIZE {
                0
            } else {
                self.buffer_index + 1
            };
            self.next_command_needs_fill = true;
            proof {
                assert forall|i: int| 0 <= i < self.buffer_length implies #[trigger] self.entries()[i]
                    == old_entries[i + 1] by {
                    assert(crate::ring_buffer::wrap_spec(
                        self.buffer_index as int,
                        i,
                        BUFFER_SIZE as int,
                    ) == crate::ring_buffer::wrap_spec(
                        old(self).buffer_index as int,
                        i + 1,
                        BUFFER_SIZE as int,
                    ));
                }
                assert(self.entries() =~= old_entries.drop_first());
            }
        } else {
            self.buffer[self.buffer_index] = (command, pause, repeats);
            self.next_command_needs_fill = false;
            proof {
                assert forall|i: int| 0 <= i < self.buffer_length implies #[trigger] self.entries()[i]
                    == if i == 0 {
                    (command, pause, repeats)
                } else {
                    old_entries[i]
                } by {}
                assert(self.entries() =~= old_entries.update(0, (command, pause, repeats)));
            }
        }
        (command, pause)
    }

    /// Advances the transmission pacing by one poll: retires a finished
    /// transmission into its pause, and when the channel is free and the
    /// pause has elapsed, starts the next queued command (filling the channel
    /// RAM unless it is a repeat of what is already there). Reports a channel
    /// error as `RMTPeripheral`.
    pub fn update(&mut self, rmt: &mut RmtTxChannel, now: u64) -> (r: Result<(), SonyIRError>)
        requires
            old(self).well_formed(),
            old(self).state matches SonyIREncoderState::TxPauseFromEnd(p) ==> now + p <= u64::MAX,
            old(self).buffer_length > 0 ==> (old(self).entries()[0].1 matches SonyIREncoderPause::FromStart(p) ==> now + p <= u64::MAX),
        ensures
            final(self).well_formed(),
            final(self).default_pause == old(self).default_pause,
            r == (if (old(self).state is TxPauseFromEnd || old(self).state is TxPauseFromStart)
                && old(rmt).int_err {
                Err::<(), SonyIRError>(SonyIRError::RMTPeripheral)
            } else {
                Ok::<(), SonyIRError>(())
            }),
            ({
                let transmitting = old(self).state is TxPauseFromEnd || old(self).state
                    is TxPauseFromStart;
                let s1 = if transmitting && (old(rmt).int_err || old(rmt).int_end) {
                    match old(self).state {
                        SonyIREncoderState::TxPauseFromEnd(p) => SonyIREncoderState::Paused(
                            (now + p) as u64,
                        ),
                        SonyIREncoderState::TxPauseFromStart(t) => SonyIREncoderState::Paused(t),
                        s => s,
                    }
                } else {
                    old(self).state
                };
                let starts = old(self).buffer_length > 0 && (s1 == SonyIREncoderState::Idle || (
                s1 matches SonyIREncoderState::Paused(ra) && ra >= now));
                if !starts {
                    &&& final(self).state == s1
                    &&& final(self).entries() == old(self).entries()
                    &&& final(self).next_command_needs_fill == old(self).next_command_needs_fill
                    &&& final(rmt).ram@ == old(rmt).ram@
                    &&& final(rmt).running == old(rmt).running
                } else {
                    let e0 = old(self).entries()[0];
                    &&& final(rmt).running
                    &&& (old(self).next_command_needs_fill ==> final(rmt).ram@ == sony_pulse_seq(
                        e0.0.data,
                        e0.0.bits as int,
                    ))
                    &&& (!old(self).next_command_needs_fill ==> final(rmt).ram@ == old(rmt).ram@)
                    &&& final(self).state == (match e0.1 {
                        SonyIREncoderPause::FromStart(p) => SonyIREncoderState::TxPauseFromStart(
                            (now + p) as u64,
                        ),
                        SonyIREncoderPause::FromEnd(p) => SonyIREncoderState::TxPauseFromEnd(p),
                    })
                    &&& (if e0.2 == 1 {
                        final(self).entries() == old(self).entries().drop_first() && final(self).next_command_needs_fill
                    } else {
                        final(self).entries() == old(self).entries().update(
                            0,
                            (e0.0, e0.1, (e0.2 - 1) as u8),
                        ) && !final(self).next_command_needs_fill
                    })
                }
            }),
    {
        let transmitting = self.is_transmitting();
        let peripheral_result: Result<(), SonyIRError> = if transmitting {
            let rmt_ch0_status = rmt.rmt_ch0_is_done();
            let finished = match rmt_ch0_status {
                Ok(true) => true,
                Err(()) => true,
                Ok(false) => false,
            };
            if finished {
                self.state = match self.state {
                    SonyIREncoderState::TxPauseFromEnd(pause_time) => SonyIREncoderState::Paused(
                        now + pause_time,
                    ),
                    SonyIREncoderState::TxPauseFromStart(ready_at) => SonyIREncoderState::Paused(
                        ready_at,
                    ),
                    s => s,
                };
            }
            match rmt_ch0_status {
                Ok(_) => Ok(()),
                Err(()) => Err(SonyIRError::RMTPeripheral),
            }
        } else {
            Ok(())
        };

        if self.buffer_length == 0 {
            return peripheral_result;
        }
        if !self.can_start_with_state_update(now) {
            return peripheral_result;
        }

        let fill = self.next_command_needs_fill;
        let (command, pause) = self.next_command_unchecked();

        if fill {
            sony_ir_ch0_fill_ram_raw(rmt, command);
        }

        rmt.rmt_ch0_start();
        self.state = match pause {
            SonyIREncoderPause::FromStart(pause_time) => SonyIREncoderState::TxPauseFromStart(
                now + pause_time,
            ),
            SonyIREncoderPause::FromEnd(pause_time) => SonyIREncoderState::TxPauseFromEnd(
                pause_time,
            ),
        };
        peripheral_result
    }

    /// Queues a command for `repeats` transmissions; fails with
    /// `EncoderBufferFull` when the queue is full.
    pub fn send_non_immediatly_raw(
        &mut self,
        command: SonyIRRawSendableCommand,
        repeats: u8,
        pause: SonyIREncoderPause,
    ) -> (r: Result<(), SonyIRError>)
        requires
            old(self).well_formed(),
            command.sendable(),
            repeats >= 1,
        ensures
            final(self).well_formed(),
            final(self).state == old(self).state,
            final(self).next_command_needs_fill == old(self).next_command_needs_fill,
            final(self).default_pause == old(self).default_pause,
            r is Ok <==> old(self).buffer_length < BUFFER_SIZE,
            r is Ok ==> final(self).entries() == old(self).entries().push(
                (command, pause, repeats),
            ),
            r is Err ==> r == Err::<(), SonyIRError>(SonyIRError::EncoderBufferFull) && *final(self)
                == *old(self),
    {
        if self.buffer_length == BUFFER_SIZE {
            return Err(SonyIRError::EncoderBufferFull);
        }
        let ghost old_entries = self.entries();
        let buffer_next_index = {
            let room = BUFFER_SIZE - self.buffer_index;
            if self.buffer_length >= room {
                self.buffer_length - room
            } else {
                self.buffer_index + self.buffer_length
            }
        };
        self.buffer[buffer_next_index] = (command, pause, repeats);
        self.buffer_length = self.buffer_length + 1;
        proof {
            assert forall|i: int| 0 <= i < self.buffer_length implies #[trigger] self.entries()[i]
                == if i < old_entries.len() {
                old_entries[i]
            } else {
                (command, pause, repeats)
            } by {}
            assert(self.entries() =~= old_entries.push((command, pause, repeats)));
        }
        Ok(())
    }

    /// Converts and queues a command; zero repeats is a no-op, a command that
    /// does not fit a RAM block fails with `UnsendableCommand`.
    pub fn send_non_immediatly(
        &mut self,
        command: SonyIRCommand,
        repeats: u8,
        pause: Option<SonyIREncoderPause>,
    ) -> (r: Result<(), SonyIRError>)
        requires
            old(self).well_formed(),
        ensures
            final(self).well_formed(),
            repeats == 0 ==> r is Ok && *final(self) == *old(self),
            repeats > 0 && !(0 < raw_from_command(command).bits < 48) ==> r == Err::<
                (),
                SonyIRError,
            >(SonyIRError::UnsendableCommand) && *final(self) == *old(self),
            repeats > 0 && 0 < raw_from_command(command).bits < 48 ==> {
                &&& r is Ok <==> old(self).buffer_length < BUFFER_SIZE
                &&& (r is Ok ==> final(self).entries() == old(self).entries().push(
                    (
                        SonyIRRawSendableCommand {
                            data: raw_from_command(command).data,
                            bits: raw_from_command(command).bits,
                        },
                        match pause {
                            Some(p) => p,
                            None => old(self).default_pause,
                        },
                        repeats,
                    ),
                ))
                &&& (r is Err ==> r == Err::<(), SonyIRError>(SonyIRError::EncoderBufferFull)
                    && *final(self) == *old(self))
            },
    {
        if repeats == 0 {
            return Ok(());
        }
        let command = match SonyIRRawSendableCommand::from_command(command) {
            Some(c) => c,
            None => {
                return Err(SonyIRError::UnsendableCommand);
            },
        };
        let pause = match pause {
            Some(p) => p,
            None => self.default_pause,
        };
        self.send_non_immediatly_raw(command, repeats, pause)
    }

    /// Converts a command and, when the channel is free and nothing is
    /// queued, transmits the first repetition immediately; any remaining
    /// repetitions are queued.
    pub fn send(
        &mut self,
        rmt: &mut RmtTxChannel,
        command: SonyIRCommand,
        repeats: u8,
        pause: Option<SonyIREncoderPause>,
        now: u64,
    ) -> (r: Result<(), SonyIRError>)
        requires
            old(self).well_formed(),
            (match pause {
                Some(SonyIREncoderPause::FromStart(p)) => now + p <= u64::MAX,
                None => (old(self).default_pause matches SonyIREncoderPause::FromStart(p) ==> now
                    + p <= u64::MAX),
                Some(_) => true,
            }),
        ensures
            final(self).well_formed(),
            final(self).default_pause == old(self).default_pause,
            repeats == 0 ==> r is Ok && *final(self) == *old(self) && *final(rmt) == *old(rmt),
            repeats > 0 && !(0 < raw_from_command(command).bits < 48) ==> r == Err::<
                (),
                SonyIRError,
            >(SonyIRError::UnsendableCommand) && *final(self) == *old(self) && *final(rmt) == *old(rmt),
            r is Err ==> r == Err::<(), SonyIRError>(SonyIRError::UnsendableCommand) || r == Err::<
                (),
                SonyIRError,
            >(SonyIRError::EncoderBufferFull),
            repeats > 0 && 0 < raw_from_command(command).bits < 48 && old(self).buffer_length == 0
                && (old(self).state == SonyIREncoderState::Idle || (old(self).state matches SonyIREncoderState::Paused(ra) && ra >= now)) ==> {
                &&& final(rmt).running
                &&& final(rmt).ram@ == sony_pulse_seq(
                    raw_from_command(command).data,
                    raw_from_command(command).bits as int,
                )
                &&& (final(self).state is TxPauseFromStart || final(self).state is TxPauseFromEnd)
                &&& (repeats == 1 ==> r is Ok && final(self).buffer_length == 0)
            },
    {
        if repeats == 0 {
            return Ok(());
        }
        let command = match SonyIRRawSendableCommand::from_command(command) {
            Some(c) => c,
            None => {
                return Err(SonyIRError::UnsendableCommand);
            },
        };
        let pause = match pause {
            Some(p) => p,
            None => self.default_pause,
        };
        let mut repeats = repeats;

        if self.buffer_length == 0 && self.can_start_with_state_update(now) {
            repeats = repeats - 1;
            sony_ir_ch0_fill_ram_raw(rmt, command);
            rmt.rmt_ch0_start();
            self.state = match pause {
                SonyIREncoderPause::FromStart(pause_time) => SonyIREncoderState::TxPauseFromStart(
                    now + pause_time,
                ),
                SonyIREncoderPause::FromEnd(pause_time) => SonyIREncoderState::TxPauseFromEnd(
                    pause_time,
                ),
            };
            if repeats == 0 {
                return Ok(());
            }
        }
        self.send_non_immediatly_raw(command, repeats, pause)
    }
}

} // verus!
