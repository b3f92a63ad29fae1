//! Sensor acquisition driver: a linear protocol state machine — boot delay,
//! set measurement interval, start measuring, wait for the data-ready pin,
//! read the measurement after a settle delay, back to waiting — with every
//! I2C step awaited one non-blocking poll at a time. Any I2C error observed
//! at an awaited step is terminal: the driver parks in `Error` and does no
//! further work.

use vstd::prelude::*;
use crate::interrupts::{GPIOInterruptStatus, I2CInterruptStatus, Mailbox, gpio_interrupt_get_and_clear};
use crate::machines::controller::Controller;
use crate::machines::Delay;
use crate::pac_utils::i2c::{I2cBus, I2CTransmissionError};
use crate::qq_alarm_queue::QQAlarmQueue;
use crate::sdc::machines::{DelayedGet, DelayedGetError, DelayedGetState, SetCmd, SetState, State};
use crate::sdc::{read_response_measurment, SDCGetCommand, SDCSetCommand};
use crate::usb_writer::{noted_k_more, u32_to_decimal, DiagnosticSink};
use vstd::string::StringExecFns;
use crate::TICKS_PER_SECOND;

verus! {

/// Ticks the sensor is given to boot before configuration starts: two and a
/// half seconds.
pub const BOOT_DELAY_TICKS: u64 = TICKS_PER_SECOND * 5 / 2;

/// Default settle time between the write and read phase of a readout: five
/// milliseconds (the datasheet asks for at least three).
pub const DEFAULT_DELAYED_GET_DELTA: u64 = TICKS_PER_SECOND / 200;

pub struct SDCSimpleMeasurmentConfig {
    /// Measurement interval handed to the sensor, in seconds.
    pub delta: u32,
    /// Settle time between a readout's write and read phase, in ticks.
    pub delayed_get_delta: Option<u64>,
}

#[derive(Debug, Clone, Copy, PartialEq, Eq, Structural)]
pub enum SDCSimpleMeasurmentState {
    Idle,
    BootDelay(Delay),
    SetDelta(SetCmd),
    Start(SetCmd),
    WaitReady,
    Measurment(DelayedGet),
    Error,
}

pub struct SDCSimpleMeasurment {
    pub state: SDCSimpleMeasurmentState,
    /// Measurement interval handed to the sensor, in seconds.
    pub delta: u32,
    /// Settle time between a readout's write and read phase, in ticks.
    pub delayed_get_delta: u64,
}

impl SDCSimpleMeasurment {
    pub fn new(config: SDCSimpleMeasurmentConfig) -> (s: SDCSimpleMeasurment)
        ensures
            s.state == SDCSimpleMeasurmentState::Idle,
            s.delta == config.delta,
            s.delayed_get_delta == match config.delayed_get_delta {
                Some(d) => d,
                None => DEFAULT_DELAYED_GET_DELTA,
            },
    {
        SDCSimpleMeasurment {
            state: SDCSimpleMeasurmentState::Idle,
            delta: config.delta,
            delayed_get_delta: match config.delayed_get_delta {
                Some(d) => d,
                None => DEFAULT_DELAYED_GET_DELTA,
            },
        }
    }

    /// Arms the boot delay.
    pub fn start<Q: QQAlarmQueue>(&mut self, qq: &mut Q, now: u64)
        requires
            old(qq).inv(),
            old(qq).can_allocate(),
            old(qq).has_free_slot(),
            now + BOOT_DELAY_TICKS <= u64::MAX,
        ensures
            final(qq).inv(),
            *final(self) == (SDCSimpleMeasurment {
                state: SDCSimpleMeasurmentState::BootDelay(
                    Delay::Waiting { qq_alarm_id: old(qq).fresh_id() },
                ),
                ..*old(self)
            }),
            final(qq).alarms() == old(qq).alarms().insert(
                old(qq).fresh_id(),
                (now + BOOT_DELAY_TICKS) as u64,
            ),
    {
        let qq_alarm_id = match qq.add(now + BOOT_DELAY_TICKS) {
            Ok(id) => id,
            Err(_) => {
                proof {
                    assert(false);
                }
                0
            },
        };
        self.state = SDCSimpleMeasurmentState::BootDelay(Delay::new(qq_alarm_id));
    }

    /// Reports an I2C failure (the protocol phase it struck and the status
    /// bits that signalled it) and parks the driver in the terminal `Error`
    /// state.
    fn after_error<S: DiagnosticSink>(
        &mut self,
        sink: &mut S,
        now: u64,
        phase: &str,
        status_bits: u32,
    ) -> (did: bool)
        requires
            old(sink).inv(),
        ensures
            final(sink).inv(),
            noted_k_more(old(sink).noted(), final(sink).noted(), 1),
            did,
            *final(self) == (SDCSimpleMeasurment {
                state: SDCSimpleMeasurmentState::Error,
                ..*old(self)
            }),
    {
        let mut line = String::new();
        line.append("i2c error after ");
        line.append(phase);
        line.append(": status bits ");
        line.append(u32_to_decimal(status_bits).as_str());
        line.append("\n");
        sink.note(line.as_str(), now);
        self.state = SDCSimpleMeasurmentState::Error;
        true
    }

    /// Advances the protocol by at most one step (see the module doc for the
    /// step order). Returns whether it did observable work. Once in `Error`,
    /// every later call returns false and changes nothing.
    pub fn update<S: DiagnosticSink, Q: QQAlarmQueue, const N: usize>(
        &mut self,
        sink: &mut S,
        qq: &mut Q,
        controller: &mut Controller<N>,
        i2c: &mut I2cBus,
        i2c_mailbox: &mut Mailbox,
        gpio_mailbox: &mut Mailbox,
        now: u64,
    ) -> (did: bool)
        requires
            old(sink).inv(),
            old(qq).inv(),
            old(controller).well_formed(),
            old(self).state matches SDCSimpleMeasurmentState::Measurment(dg) ==> (dg.state
                == DelayedGetState::WriteAwaitingInterrupt ==> old(qq).can_allocate() && old(qq).has_free_slot() && now + dg.delta <= u64::MAX),
            old(self).state matches SDCSimpleMeasurmentState::Measurment(dg) ==> ((dg.state
                == DelayedGetState::ReadAwaitingInterrupt && old(i2c_mailbox)@
                & I2CInterruptStatus::ALL != 0 && old(i2c_mailbox)@ & I2CInterruptStatus::ALL
                & I2CInterruptStatus::ERROR_BITS == 0) ==> old(i2c).rx_fifo@.len() >= 18),
            old(self).state matches SDCSimpleMeasurmentState::Measurment(dg) ==> (dg.state
                == DelayedGetState::Done ==> old(i2c).rx_fifo@.len() >= 18),
        ensures
            final(sink).inv(),
            final(qq).inv(),
            final(controller).well_formed(),
            final(self).delta == old(self).delta,
            final(self).delayed_get_delta == old(self).delayed_get_delta,
            old(self).state == SDCSimpleMeasurmentState::Error ==> !did && *final(self) == *old(self)
                && *final(controller) == *old(controller) && *final(qq) == *old(qq) && *final(i2c)
                == *old(i2c) && *final(i2c_mailbox) == *old(i2c_mailbox) && final(sink).noted()
                == old(sink).noted(),
            old(self).state == SDCSimpleMeasurmentState::Idle ==> !did && *final(self) == *old(self)
                && *final(controller) == *old(controller) && *final(qq) == *old(qq) && *final(i2c)
                == *old(i2c) && *final(i2c_mailbox) == *old(i2c_mailbox) && final(sink).noted()
                == old(sink).noted(),
            old(self).state != SDCSimpleMeasurmentState::WaitReady ==> *final(gpio_mailbox)
                == *old(gpio_mailbox),
            old(self).state == SDCSimpleMeasurmentState::BootDelay(Delay::Done) ==> did && final(self).state == SDCSimpleMeasurmentState::SetDelta(
                SetCmd { state: SetState::AwaitingInterrupt },
            ) && final(i2c).is_write_transaction(
                crate::sdc::DEFAULT_ADDRESS,
                crate::sdc::set_command_bytes(SDCSetCommand::SetDelta { delta: old(self).delta as u32 }),
            ) && *final(qq) == *old(qq) && *final(controller) == *old(controller) && *final(i2c_mailbox) == *old(i2c_mailbox) && final(sink).noted() == old(sink).noted(),
            old(self).state matches SDCSimpleMeasurmentState::BootDelay(d) && d != Delay::Done
                ==> !did && *final(self) == *old(self) && *final(qq) == *old(qq) && *final(controller) == *old(controller) && *final(i2c) == *old(i2c) && *final(i2c_mailbox) == *old(i2c_mailbox) && final(sink).noted() == old(sink).noted(),
            old(self).state == SDCSimpleMeasurmentState::WaitReady ==> {
                &&& final(gpio_mailbox)@ == old(gpio_mailbox)@ & !GPIOInterruptStatus::GPIO6
                &&& *final(i2c_mailbox) == *old(i2c_mailbox)
                &&& *final(qq) == *old(qq)
                &&& *final(controller) == *old(controller)
                &&& final(sink).noted() == old(sink).noted()
                &&& (if old(gpio_mailbox)@ & GPIOInterruptStatus::GPIO6 != 0 {
                    did && final(self).state == SDCSimpleMeasurmentState::Measurment(
                        DelayedGet {
                            state: DelayedGetState::WriteAwaitingInterrupt,
                            command: SDCGetCommand::Measurment,
                            delta: old(self).delayed_get_delta,
                        },
                    ) && final(i2c).is_write_transaction(
                        crate::sdc::DEFAULT_ADDRESS,
                        crate::sdc::get_command_bytes(SDCGetCommand::Measurment),
                    )
                } else {
                    !did && *final(self) == *old(self) && *final(i2c) == *old(i2c)
                })
            },
            old(self).state matches SDCSimpleMeasurmentState::SetDelta(c) && c.state
                == SetState::AwaitingInterrupt ==> {
                let drained = old(i2c_mailbox)@ & I2CInterruptStatus::ALL;
                &&& final(i2c_mailbox)@ == old(i2c_mailbox)@ & !I2CInterruptStatus::ALL
                &&& *final(qq) == *old(qq)
                &&& *final(controller) == *old(controller)
                &&& if drained == 0 {
                    !did && *final(self) == *old(self) && *final(i2c) == *old(i2c) && final(sink).noted() == old(sink).noted()
                } else if drained & I2CInterruptStatus::ERROR_BITS != 0 {
                    did && final(self).state == SDCSimpleMeasurmentState::Error && *final(i2c)
                        == *old(i2c) && noted_k_more(old(sink).noted(), final(sink).noted(), 1)
                } else {
                    did && final(self).state == SDCSimpleMeasurmentState::Start(
                        SetCmd { state: SetState::AwaitingInterrupt },
                    ) && final(i2c).is_write_transaction(
                        crate::sdc::DEFAULT_ADDRESS,
                        crate::sdc::set_command_bytes(SDCSetCommand::Start { pressure: None }),
                    ) && final(sink).noted() == old(sink).noted()
                }
            },
            old(self).state matches SDCSimpleMeasurmentState::Start(c) && c.state
                == SetState::AwaitingInterrupt ==> {
                let drained = old(i2c_mailbox)@ & I2CInterruptStatus::ALL;
                &&& final(i2c_mailbox)@ == old(i2c_mailbox)@ & !I2CInterruptStatus::ALL
                &&& *final(qq) == *old(qq)
                &&& *final(controller) == *old(controller)
                &&& *final(i2c) == *old(i2c)
                &&& if drained == 0 {
                    !did && *final(self) == *old(self) && final(sink).noted() == old(sink).noted()
                } else if drained & I2CInterruptStatus::ERROR_BITS != 0 {
                    did && final(self).state == SDCSimpleMeasurmentState::Error && noted_k_more(
                        old(sink).noted(),
                        final(sink).noted(),
                        1,
                    )
                } else {
                    did && final(self).state == SDCSimpleMeasurmentState::WaitReady && final(sink).noted() == old(sink).noted()
                }
            },
            old(self).state matches SDCSimpleMeasurmentState::Measurment(dg) && dg.state
                == DelayedGetState::ReadAwaitingInterrupt ==> {
                let drained = old(i2c_mailbox)@ & I2CInterruptStatus::ALL;
                &&& final(i2c_mailbox)@ == old(i2c_mailbox)@ & !I2CInterruptStatus::ALL
                &&& *final(qq) == *old(qq)
                &&& if drained == 0 {
                    !did && *final(self) == *old(self) && *final(i2c) == *old(i2c) && *final(controller) == *old(controller) && final(sink).noted() == old(sink).noted()
                } else if drained & I2CInterruptStatus::ERROR_BITS != 0 {
                    did && final(self).state == SDCSimpleMeasurmentState::Error && *final(i2c)
                        == *old(i2c) && *final(controller) == *old(controller) && noted_k_more(
                        old(sink).noted(),
                        final(sink).noted(),
                        1,
                    )
                } else {
                    did && (match crate::sdc::measurment_spec(old(i2c).rx_fifo@) {
                        Ok(m) => final(self).state == SDCSimpleMeasurmentState::WaitReady && final(controller).pending() == Some(m) && final(sink).noted() == old(sink).noted(),
                        Err(_) => final(self).state == SDCSimpleMeasurmentState::Error
                            && noted_k_more(old(sink).noted(), final(sink).noted(), 1),
                    })
                }
            },
            old(self).state matches SDCSimpleMeasurmentState::Measurment(dg) ==> (dg.state
                == DelayedGetState::WriteAwaitingInterrupt ==> {
                let drained = old(i2c_mailbox)@ & I2CInterruptStatus::ALL;
                &&& final(i2c_mailbox)@ == old(i2c_mailbox)@ & !I2CInterruptStatus::ALL
                &&& *final(i2c) == *old(i2c)
                &&& *final(controller) == *old(controller)
                &&& if drained == 0 {
                    !did && *final(self) == *old(self) && *final(qq) == *old(qq) && final(sink).noted() == old(sink).noted()
                } else if drained & I2CInterruptStatus::ERROR_BITS != 0 {
                    did && final(self).state == SDCSimpleMeasurmentState::Error && *final(qq)
                        == *old(qq) && noted_k_more(old(sink).noted(), final(sink).noted(), 1)
                } else {
                    did && final(self).state == SDCSimpleMeasurmentState::Measurment(
                        (DelayedGet {
                            state: DelayedGetState::Delay(
                                Delay::Waiting { qq_alarm_id: old(qq).fresh_id() },
                            ),
                            ..dg
                        }),
                    ) && final(qq).alarms() == old(qq).alarms().insert(
                        old(qq).fresh_id(),
                        (now + dg.delta) as u64,
                    ) && final(sink).noted() == old(sink).noted()
                }
            }),
            old(self).state matches SDCSimpleMeasurmentState::Measurment(dg) ==> ((dg.state
                is Delay && dg.state != DelayedGetState::Delay(Delay::Done)) ==> !did && *final(self)
                == *old(self) && *final(qq) == *old(qq) && *final(i2c) == *old(i2c) && *final(i2c_mailbox) == *old(i2c_mailbox) && *final(controller) == *old(controller) && final(sink).noted() == old(sink).noted()),
            old(self).state matches SDCSimpleMeasurmentState::Measurment(dg) ==> (dg.state
                == DelayedGetState::Delay(Delay::Done) ==> did && final(self).state
                == SDCSimpleMeasurmentState::Measurment(
                (DelayedGet { state: DelayedGetState::ReadAwaitingInterrupt, ..dg }),
            ) && final(i2c).is_read_transaction(
                crate::sdc::DEFAULT_ADDRESS,
                crate::sdc::get_response_len(dg.command),
            ) && *final(qq) == *old(qq) && *final(i2c_mailbox) == *old(i2c_mailbox) && *final(controller) == *old(controller) && final(sink).noted() == old(sink).noted()),
    {
        let delayed_get_delta = self.delayed_get_delta;
        match &mut self.state {
            SDCSimpleMeasurmentState::BootDelay(Delay::Done) => {
                let delta = self.delta;
                self.state = SDCSimpleMeasurmentState::SetDelta(
                    SetCmd::start(i2c, SDCSetCommand::SetDelta { delta }),
                );
                true
            },
            SDCSimpleMeasurmentState::SetDelta(sdc_write) => {
                match sdc_write.update(i2c_mailbox) {
                    State::Done(Ok(())) => {
                        self.state = SDCSimpleMeasurmentState::Start(
                            SetCmd::start(i2c, SDCSetCommand::Start { pressure: None }),
                        );
                        true
                    },
                    State::Done(Err(I2CTransmissionError::Unknown(flags))) => self.after_error(
                        sink,
                        now,
                        "set delta",
                        flags.bits,
                    ),
                    State::Active(did_something) => did_something,
                }
            },
            SDCSimpleMeasurmentState::Start(sdc_write) => {
                match sdc_write.update(i2c_mailbox) {
                    State::Done(Ok(())) => {
                        self.state = SDCSimpleMeasurmentState::WaitReady;
                        true
                    },
                    State::Done(Err(I2CTransmissionError::Unknown(flags))) => self.after_error(
                        sink,
                        now,
                        "start",
                        flags.bits,
                    ),
                    State::Active(did_something) => did_something,
                }
            },
            SDCSimpleMeasurmentState::WaitReady => {
                let pending_interrupts = gpio_interrupt_get_and_clear(
                    gpio_mailbox,
                    GPIOInterruptStatus::from_bits_truncate(GPIOInterruptStatus::GPIO6),
                );
                proof {
                    let b = old(gpio_mailbox)@;
                    assert(b & 0x40u32 & 0x40u32 == b & 0x40u32) by (bit_vector);
                    assert(0x40u32 & 0x40u32 == 0x40u32) by (bit_vector);
                }
                if !pending_interrupts.is_empty() {
                    self.state = SDCSimpleMeasurmentState::Measurment(
                        DelayedGet::start(i2c, SDCGetCommand::Measurment, delayed_get_delta),
                    );
                    true
                } else {
                    false
                }
            },
            SDCSimpleMeasurmentState::Measurment(sdc_delayed_get) => {
                match sdc_delayed_get.update(qq, i2c, i2c_mailbox, now) {
                    State::Done(Ok(())) => {
                        match read_response_measurment(i2c) {
                            Ok(measurment) => {
                                controller.on_measurment(measurment);
                                self.state = SDCSimpleMeasurmentState::WaitReady;
                            },
                            Err(crate::sdc::SDCReadResponseError::CRCCheckFailed) => {
                                sink.note("i2c error reading measurement: checksum failed\n", now);
                                self.state = SDCSimpleMeasurmentState::Error;
                            },
                            Err(crate::sdc::SDCReadResponseError::InvalidFormat) => {
                                sink.note("i2c error reading measurement: malformed response\n", now);
                                self.state = SDCSimpleMeasurmentState::Error;
                            },
                        }
                        true
                    },
                    State::Done(
                        Err(DelayedGetError::Write(I2CTransmissionError::Unknown(flags))),
                    ) => self.after_error(sink, now, "measurment write", flags.bits),
                    State::Done(
                        Err(DelayedGetError::Read(I2CTransmissionError::Unknown(flags))),
                    ) => self.after_error(sink, now, "measurment read", flags.bits),
                    State::Active(active) => active,
                }
            },
            SDCSimpleMeasurmentState::Idle => false,
            SDCSimpleMeasurmentState::Error => false,
            SDCSimpleMeasurmentState::BootDelay(Delay::Waiting { .. }) => false,
        }
    }

    /// Offers a drained alarm id to whichever delay the driver is waiting on.
    pub fn on_alarm(&mut self, qq_alarm_id: usize) -> (claimed: bool)
        ensures
            !claimed ==> *final(self) == *old(self),
            final(self).delta == old(self).delta,
            final(self).delayed_get_delta == old(self).delayed_get_delta,
            claimed == (match old(self).state {
                SDCSimpleMeasurmentState::BootDelay(d) => d == (Delay::Waiting { qq_alarm_id }),
                SDCSimpleMeasurmentState::Measurment(dg) => dg.state == DelayedGetState::Delay(
                    Delay::Waiting { qq_alarm_id },
                ),
                _ => false,
            }),
            claimed ==> (match old(self).state {
                SDCSimpleMeasurmentState::BootDelay(_) => final(self).state
                    == SDCSimpleMeasurmentState::BootDelay(Delay::Done),
                SDCSimpleMeasurmentState::Measurment(dg) => final(self).state
                    == SDCSimpleMeasurmentState::Measurment(
                    DelayedGet { state: DelayedGetState::Delay(Delay::Done), ..dg },
                ),
                _ => false,
            }),
    {
        match &mut self.state {
            SDCSimpleMeasurmentState::BootDelay(delay) => delay.on_alarm(qq_alarm_id),
            SDCSimpleMeasurmentState::Measurment(sdc_delayed_get) => sdc_delayed_get.on_alarm(
                qq_alarm_id,
            ),
            _ => false,
        }
    }
}

} // verus!
