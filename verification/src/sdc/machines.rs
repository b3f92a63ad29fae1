//! Two-phase sub-state-machines of one I2C exchange with the sensor: issue a
//! write, await the completion interrupt, optionally wait a settle time, then
//! issue the read and await completion again.

use vstd::prelude::*;
use crate::interrupts::{I2CInterruptStatus, Mailbox, i2c_interrupt_get_and_clear};
use crate::machines::Delay;
use crate::pac_utils::i2c::{I2cBus, I2CTransmissionError};
use crate::qq_alarm_queue::QQAlarmQueue;
use crate::sdc::{get_command_read, get_command_write, set_command_write, SDCGetCommand, SDCSetCommand};

verus! {

/// Progress report of one polled step: still active (and whether it did
/// observable work), or finished with a result.
#[derive(Debug, PartialEq, Eq)]
pub enum State<T> {
    Active(bool),
    Done(T),
}

#[derive(Debug, Clone, Copy, PartialEq, Eq, Structural)]
pub enum SetState {
    AwaitingInterrupt,
    Done,
}

/// One set command: write it, then await the completion interrupt.
#[derive(Debug, Clone, Copy, PartialEq, Eq, Structural)]
pub struct SetCmd {
    pub state: SetState,
}

impl SetCmd {
    /// Issues the command's write transaction and begins awaiting its
    /// completion interrupt.
    pub fn start(i2c: &mut I2cBus, command: SDCSetCommand) -> (s: SetCmd)
        requires
            command.well_formed(),
        ensures
            final(i2c).is_write_transaction(
                crate::sdc::DEFAULT_ADDRESS,
                crate::sdc::set_command_bytes(command),
            ),
            s.state == SetState::AwaitingInterrupt,
    {
        set_command_write(i2c, command);
        SetCmd { state: SetState::AwaitingInterrupt }
    }

    /// Polls for the completion interrupt: `Active(false)` while nothing has
    /// arrived; on an interrupt, `Done` with `Ok` or with the transmission
    /// error the status bits signal. Once finished it stays `Done(Ok)`.
    pub fn update(&mut self, i2c_mailbox: &mut Mailbox) -> (r: State<
        Result<(), I2CTransmissionError>,
    >)
        ensures
            old(self).state == SetState::Done ==> r == State::Done(
                Ok::<(), I2CTransmissionError>(()),
            ) && *final(self) == *old(self) && *final(i2c_mailbox) == *old(i2c_mailbox),
            old(self).state == SetState::AwaitingInterrupt ==> {
                &&& final(i2c_mailbox)@ == old(i2c_mailbox)@ & !I2CInterruptStatus::ALL
                &&& {
                    let drained = old(i2c_mailbox)@ & I2CInterruptStatus::ALL;
                    if drained == 0 {
                        r == State::Active::<Result<(), I2CTransmissionError>>(false) && final(self).state == SetState::AwaitingInterrupt
                    } else {
                        final(self).state == SetState::Done && r == State::Done(
                            if drained & I2CInterruptStatus::ERROR_BITS != 0 {
                                Err::<(), I2CTransmissionError>(
                                    I2CTransmissionError::Unknown(
                                        I2CInterruptStatus { bits: drained },
                                    ),
                                )
                            } else {
                                Ok::<(), I2CTransmissionError>(())
                            },
                        )
                    }
                }
            },
    {
        match self.state {
            SetState::AwaitingInterrupt => {
                let pending_interrupts = i2c_interrupt_get_and_clear(
                    i2c_mailbox,
                    I2CInterruptStatus::all(),
                );
                proof {
                    let b = old(i2c_mailbox)@;
                    let m = I2CInterruptStatus::ALL;
                    assert(b & m & m == b & m) by (bit_vector);
                }
                if pending_interrupts.is_empty() {
                    State::Active(false)
                } else {
                    self.state = SetState::Done;
                    let maybe_err = I2CTransmissionError::from_interrupt_flags(pending_interrupts);
                    State::Done(
                        match maybe_err {
                            Some(err) => Err(err),
                            None => Ok(()),
                        },
                    )
                }
            },
            SetState::Done => State::Done(Ok(())),
        }
    }
}

#[derive(Debug, Clone, Copy, PartialEq, Eq, Structural)]
pub enum DelayedGetError {
    Write(I2CTransmissionError),
    Read(I2CTransmissionError),
}

#[derive(Debug, Clone, Copy, PartialEq, Eq, Structural)]
pub enum DelayedGetState {
    WriteAwaitingInterrupt,
    Delay(Delay),
    ReadAwaitingInterrupt,
    Done,
}

/// One get command with the datasheet-mandated settle time between the write
/// phase and the read phase: write, await completion, wait `delta` ticks,
/// read, await completion again.
#[derive(Debug, Clone, Copy, PartialEq, Eq, Structural)]
pub struct DelayedGet {
    pub state: DelayedGetState,
    pub command: SDCGetCommand,
    /// Settle time between write completion and the read phase, in ticks.
    pub delta: u64,
}

impl DelayedGet {
    /// Issues the command's write phase and begins awaiting its completion
    /// interrupt.
    pub fn start(i2c: &mut I2cBus, command: SDCGetCommand, delta: u64) -> (s: DelayedGet)
        ensures
            final(i2c).is_write_transaction(
                crate::sdc::DEFAULT_ADDRESS,
                crate::sdc::get_command_bytes(command),
            ),
            s == (DelayedGet { state: DelayedGetState::WriteAwaitingInterrupt, command, delta }),
    {
        get_command_write(i2c, command);
        DelayedGet { state: DelayedGetState::WriteAwaitingInterrupt, command, delta }
    }

    /// Advances the exchange by at most one step. A completion interrupt
    /// after the write phase arms the settle-time alarm; once that alarm has
    /// been claimed, the read phase is issued; its completion interrupt
    /// finishes the exchange, reporting any error the status bits signal.
    pub fn update<Q: QQAlarmQueue>(
        &mut self,
        qq: &mut Q,
        i2c: &mut I2cBus,
        i2c_mailbox: &mut Mailbox,
        now: u64,
    ) -> (r: State<Result<(), DelayedGetError>>)
        requires
            old(qq).inv(),
            old(self).state == DelayedGetState::WriteAwaitingInterrupt ==> old(qq).can_allocate()
                && old(qq).has_free_slot() && now + old(self).delta <= u64::MAX,
        ensures
            final(qq).inv(),
            final(self).command == old(self).command,
            final(self).delta == old(self).delta,
            !(old(self).state == DelayedGetState::Delay(Delay::Done)) ==> *final(i2c) == *old(i2c),
            !(old(self).state == DelayedGetState::WriteAwaitingInterrupt && old(i2c_mailbox)@
                & I2CInterruptStatus::ALL != 0 && old(i2c_mailbox)@ & I2CInterruptStatus::ALL
                & I2CInterruptStatus::ERROR_BITS == 0) ==> *final(qq) == *old(qq),
            old(self).state == DelayedGetState::Done ==> r == State::Done(
                Ok::<(), DelayedGetError>(()),
            ) && *final(self) == *old(self) && *final(i2c_mailbox) == *old(i2c_mailbox),
            old(self).state matches DelayedGetState::Delay(d) ==> *final(i2c_mailbox) == *old(i2c_mailbox) && (if d == Delay::Done {
                r == State::Active::<Result<(), DelayedGetError>>(true) && final(self).state == DelayedGetState::ReadAwaitingInterrupt && final(i2c).is_read_transaction(
                    crate::sdc::DEFAULT_ADDRESS,
                    crate::sdc::get_response_len(old(self).command),
                )
            } else {
                r == State::Active::<Result<(), DelayedGetError>>(false) && *final(self) == *old(self)
            }),
            old(self).state == DelayedGetState::WriteAwaitingInterrupt ==> {
                &&& final(i2c_mailbox)@ == old(i2c_mailbox)@ & !I2CInterruptStatus::ALL
                &&& {
                    let drained = old(i2c_mailbox)@ & I2CInterruptStatus::ALL;
                    if drained == 0 {
                        r == State::Active::<Result<(), DelayedGetError>>(false) && *final(self)
                            == *old(self)
                    } else if drained & I2CInterruptStatus::ERROR_BITS != 0 {
                        final(self).state == DelayedGetState::Done && r == State::Done(
                            Err::<(), DelayedGetError>(
                                DelayedGetError::Write(
                                    I2CTransmissionError::Unknown(
                                        I2CInterruptStatus { bits: drained },
                                    ),
                                ),
                            ),
                        )
                    } else {
                        r == State::Active::<Result<(), DelayedGetError>>(true) && final(self).state == DelayedGetState::Delay(
                            Delay::Waiting { qq_alarm_id: old(qq).fresh_id() },
                        ) && final(qq).alarms() == old(qq).alarms().insert(
                            old(qq).fresh_id(),
                            (now + old(self).delta) as u64,
                        )
                    }
                }
            },
            old(self).state == DelayedGetState::ReadAwaitingInterrupt ==> {
                &&& final(i2c_mailbox)@ == old(i2c_mailbox)@ & !I2CInterruptStatus::ALL
                &&& {
                    let drained = old(i2c_mailbox)@ & I2CInterruptStatus::ALL;
                    if drained == 0 {
                        r == State::Active::<Result<(), DelayedGetError>>(false) && *final(self)
                            == *old(self)
                    } else {
                        final(self).state == DelayedGetState::Done && r == State::Done(
                            if drained & I2CInterruptStatus::ERROR_BITS != 0 {
                                Err::<(), DelayedGetError>(
                                    DelayedGetError::Read(
                                        I2CTransmissionError::Unknown(
                                            I2CInterruptStatus { bits: drained },
                                        ),
                                    ),
                                )
                            } else {
                                Ok::<(), DelayedGetError>(())
                            },
                        )
                    }
                }
            },
    {
        match self.state {
            DelayedGetState::WriteAwaitingInterrupt => {
                let pending_interrupts = i2c_interrupt_get_and_clear(
                    i2c_mailbox,
                    I2CInterruptStatus::all(),
                );
                proof {
                    let b = old(i2c_mailbox)@;
                    let m = I2CInterruptStatus::ALL;
                    assert(b & m & m == b & m) by (bit_vector);
                }
                if pending_interrupts.is_empty() {
                    State::Active(false)
                } else {
                    match I2CTransmissionError::from_interrupt_flags(pending_interrupts) {
                        Some(err) => {
                            self.state = DelayedGetState::Done;
                            State::Done(Err(DelayedGetError::Write(err)))
                        },
                        None => {
                            let wake_at = now + self.delta;
                            let qq_alarm_id = match qq.add(wake_at) {
                                Ok(id) => id,
                                Err(_) => {
                                    proof {
                                        assert(false);
                                    }
                                    0
                                },
                            };
                            self.state = DelayedGetState::Delay(Delay::new(qq_alarm_id));
                            State::Active(true)
                        },
                    }
                }
            },
            DelayedGetState::Delay(Delay::Done) => {
                get_command_read(i2c, self.command);
                self.state = DelayedGetState::ReadAwaitingInterrupt;
                State::Active(true)
            },
            DelayedGetState::ReadAwaitingInterrupt => {
                let pending_interrupts = i2c_interrupt_get_and_clear(
                    i2c_mailbox,
                    I2CInterruptStatus::all(),
                );
                proof {
                    let b = old(i2c_mailbox)@;
                    let m = I2CInterruptStatus::ALL;
                    assert(b & m & m == b & m) by (bit_vector);
                }
                if pending_interrupts.is_empty() {
                    State::Active(false)
                } else {
                    self.state = DelayedGetState::Done;
                    match I2CTransmissionError::from_interrupt_flags(pending_interrupts) {
                        Some(err) => State::Done(Err(DelayedGetError::Read(err))),
                        None => State::Done(Ok(())),
                    }
                }
            },
            DelayedGetState::Done => State::Done(Ok(())),
            DelayedGetState::Delay(Delay::Waiting { .. }) => State::Active(false),
        }
    }

    /// Offers a drained alarm id to the settle-time delay.
    pub fn on_alarm(&mut self, qq_alarm_id: usize) -> (claimed: bool)
        ensures
            claimed == (old(self).state == DelayedGetState::Delay(
                Delay::Waiting { qq_alarm_id },
            )),
            claimed ==> *final(self) == (DelayedGet {
                state: DelayedGetState::Delay(Delay::Done),
                ..*old(self)
            }),
            !claimed ==> *final(self) == *old(self),
    {
        match &mut self.state {
            DelayedGetState::Delay(delay) => delay.on_alarm(qq_alarm_id),
            _ => false,
        }
    }
}

} // verus!
