//! Status LED driver: blinks a fixed number of times at boot, then mirrors
//! whether the USB writer has observed a host timeout.

use vstd::prelude::*;
use crate::machines::Delay;
use crate::qq_alarm_queue::QQAlarmQueue;
use crate::usb_writer::UsbWriter;

verus! {

/// An output pin the LED driver can set. The platform layer implements it on
/// the real pin; [`LedModel`] implements it for tests and simulation.
pub trait StatusPin {
    /// Whether the pin is currently driven high.
    spec fn is_on(&self) -> bool;

    fn set_state(&mut self, on: bool)
        ensures
            final(self).is_on() == on,
    ;
}

/// Plain model of an output pin.
#[derive(Debug, Clone, Copy, PartialEq, Eq, Structural)]
pub struct LedModel {
    pub on: bool,
}

impl StatusPin for LedModel {
    open spec fn is_on(&self) -> bool {
        self.on
    }

    fn set_state(&mut self, on: bool) {
        self.on = on;
    }
}

#[derive(Debug, Clone, Copy, PartialEq, Eq, Structural)]
pub struct StatusLedConfig {
    /// Duration of each boot-blink phase, in system timer ticks.
    pub boot_blink_duration: u64,
    /// Number of boot blinks (each an on and an off phase).
    pub boot_blink_count: usize,
}

#[derive(Debug, Clone, Copy, PartialEq, Eq, Structural)]
pub enum StatusLedState {
    Idle,
    Booting { count: usize, delay: Delay },
    UsbTimeoutMonitor(bool),
}

pub struct StatusLed<T> {
    pub led: T,
    pub boot_blink_duration: u64,
    /// Total boot phases: twice the configured blink count.
    pub boot_blink_count: usize,
    pub state: StatusLedState,
}

impl<T: StatusPin> StatusLed<T> {
    pub open spec fn well_formed(&self) -> bool {
        match self.state {
            StatusLedState::Booting { count, .. } => count <= self.boot_blink_count,
            _ => true,
        }
    }

    pub fn new(led: T, config: StatusLedConfig) -> (s: Self)
        requires
            config.boot_blink_count * 2 <= usize::MAX,
        ensures
            s.well_formed(),
            s.led == led,
            s.boot_blink_duration == config.boot_blink_duration,
            s.boot_blink_count == 2 * config.boot_blink_count,
            s.state == StatusLedState::Idle,
    {
        StatusLed {
            led,
            boot_blink_duration: config.boot_blink_duration,
            boot_blink_count: 2 * config.boot_blink_count,
            state: StatusLedState::Idle,
        }
    }

    /// Drives the LED for one boot phase and arms the phase delay.
    fn boot_set_led<Q: QQAlarmQueue>(&mut self, qq: &mut Q, now: u64, led_state: bool) -> (d:
        Delay)
        requires
            old(qq).inv(),
            old(qq).can_allocate(),
            old(qq).has_free_slot(),
            now + old(self).boot_blink_duration <= u64::MAX,
        ensures
            final(qq).inv(),
            d == (Delay::Waiting { qq_alarm_id: old(qq).fresh_id() }),
            final(qq).alarms() == old(qq).alarms().insert(
                old(qq).fresh_id(),
                (now + old(self).boot_blink_duration) as u64,
            ),
            final(self).led.is_on() == led_state,
            final(self).state == old(self).state,
            final(self).boot_blink_duration == old(self).boot_blink_duration,
            final(self).boot_blink_count == old(self).boot_blink_count,
    {
        self.led.set_state(led_state);
        let wake_at = now + self.boot_blink_duration;
        let qq_alarm_id = match qq.add(wake_at) {
            Ok(id) => id,
            Err(_) => {
                proof {
                    assert(false);
                }
                0
            },
        };
        Delay::new(qq_alarm_id)
    }

    /// Starts the boot-blink sequence: LED off, first phase delay armed.
    /// (The caller must not start an already started driver, or the older
    /// phase alarm leaks.)
    pub fn start<Q: QQAlarmQueue>(&mut self, qq: &mut Q, now: u64)
        requires
            old(self).well_formed(),
            old(qq).inv(),
            old(qq).can_allocate(),
            old(qq).has_free_slot(),
            now + old(self).boot_blink_duration <= u64::MAX,
        ensures
            final(self).well_formed(),
            final(qq).inv(),
            final(self).state == (StatusLedState::Booting {
                count: 0,
                delay: Delay::Waiting { qq_alarm_id: old(qq).fresh_id() },
            }),
            final(qq).alarms() == old(qq).alarms().insert(
                old(qq).fresh_id(),
                (now + old(self).boot_blink_duration) as u64,
            ),
            !final(self).led.is_on(),
    {
        let delay = self.boot_set_led(qq, now, false);
        self.state = StatusLedState::Booting { count: 0, delay };
    }

    /// Advances the blink sequence when its phase delay has fired, or, once
    /// booted, mirrors the USB timeout flag onto the LED. Returns whether the
    /// LED changed or a phase ended.
    pub fn update<W: UsbWriter, Q: QQAlarmQueue>(&mut self, usb_writer: &W, qq: &mut Q, now: u64) -> (did:
        bool)
        requires
            old(self).well_formed(),
            old(qq).inv(),
            (old(self).state matches StatusLedState::Booting { count, delay } && delay
                == Delay::Done && count != old(self).boot_blink_count) ==> old(qq).can_allocate()
                && old(qq).has_free_slot() && now + old(self).boot_blink_duration <= u64::MAX,
        ensures
            final(self).well_formed(),
            final(qq).inv(),
            final(self).boot_blink_duration == old(self).boot_blink_duration,
            final(self).boot_blink_count == old(self).boot_blink_count,
            (match old(self).state {
                StatusLedState::Booting { count, delay: Delay::Done } => did && (if count == old(self).boot_blink_count {
                    final(self).state == StatusLedState::UsbTimeoutMonitor(false) && !final(self).led.is_on() && *final(qq) == *old(qq)
                } else {
                    final(self).state == (StatusLedState::Booting {
                        count: (count + 1) as usize,
                        delay: Delay::Waiting { qq_alarm_id: old(qq).fresh_id() },
                    }) && final(self).led.is_on() == (count % 2 == 0) && final(qq).alarms()
                        == old(qq).alarms().insert(
                        old(qq).fresh_id(),
                        (now + old(self).boot_blink_duration) as u64,
                    )
                }),
                StatusLedState::UsbTimeoutMonitor(led_state) => {
                    let timeout = usb_writer.timeouted();
                    if timeout == led_state {
                        !did && *final(self) == *old(self) && *final(qq) == *old(qq)
                    } else {
                        did && final(self).state == StatusLedState::UsbTimeoutMonitor(timeout)
                            && final(self).led.is_on() == timeout
                    }
                },
                _ => !did && *final(self) == *old(self) && *final(qq) == *old(qq),
            }),
    {
        match self.state {
            StatusLedState::Booting { count, delay: Delay::Done } => {
                if count == self.boot_blink_count {
                    self.led.set_state(false);
                    self.state = StatusLedState::UsbTimeoutMonitor(false);
                } else {
                    let delay = self.boot_set_led(qq, now, count % 2 == 0);
                    self.state = StatusLedState::Booting { count: count + 1, delay };
                }
                true
            },
            StatusLedState::UsbTimeoutMonitor(led_state) => {
                let timeout = usb_writer.is_timeouted();
                if timeout == led_state {
                    return false;
                }
                self.state = StatusLedState::UsbTimeoutMonitor(timeout);
                self.led.set_state(timeout);
                true
            },
            _ => false,
        }
    }

    /// Offers a drained alarm id to the boot-phase delay.
    pub fn on_alarm(&mut self, qq_alarm_id: usize) -> (claimed: bool)
        ensures
            claimed == (old(self).state matches StatusLedState::Booting { delay, .. } && delay
                == (Delay::Waiting { qq_alarm_id })),
            claimed ==> (old(self).state matches StatusLedState::Booting { count, .. } && final(self).state == (StatusLedState::Booting { count, delay: Delay::Done })) && final(self).led
                == old(self).led,
            !claimed ==> *final(self) == *old(self),
    {
        match &mut self.state {
            StatusLedState::Booting { delay, .. } => delay.on_alarm(qq_alarm_id),
            _ => false,
        }
    }
}

} // verus!
