//! Periodic debug printer: once per configured interval it emits a heartbeat
//! line on the diagnostic sink and re-arms its delay, counting ticks and
//! wakeups from the idle path.

use vstd::prelude::*;
use crate::machines::Delay;
use crate::qq_alarm_queue::QQAlarmQueue;
use crate::usb_writer::{noted_k_more, usize_to_decimal, DiagnosticSink};
use vstd::string::StringExecFns;

verus! {

#[derive(Debug, Clone, Copy, PartialEq, Eq, Structural)]
pub enum DebugPrintState {
    Idle,
    Waiting(Delay),
}

pub struct DebugPrint {
    pub state: DebugPrintState,
    /// Ticks between heartbeat lines.
    pub delta: u64,
    /// Heartbeat lines printed so far.
    pub tick_counter: usize,
    /// Times the idle path woke the processor since the last heartbeat
    /// reset.
    pub wakeup_counter: usize,
}

impl DebugPrint {
    pub fn new(delta: u64) -> (d: DebugPrint)
        ensures
            d.state == DebugPrintState::Idle,
            d.delta == delta,
            d.tick_counter == 0,
            d.wakeup_counter == 0,
    {
        DebugPrint { state: DebugPrintState::Idle, delta, tick_counter: 0, wakeup_counter: 0 }
    }

    /// Arms the next heartbeat delay; the caller guarantees no delay is
    /// outstanding.
    fn start_delay_unchecked<Q: QQAlarmQueue>(&mut self, qq: &mut Q, now: u64)
        requires
            old(qq).inv(),
            old(qq).can_allocate(),
            old(qq).has_free_slot(),
            now + old(self).delta <= u64::MAX,
        ensures
            final(qq).inv(),
            *final(self) == (DebugPrint {
                state: DebugPrintState::Waiting(Delay::Waiting { qq_alarm_id: old(qq).fresh_id() }),
                ..*old(self)
            }),
            final(qq).alarms() == old(qq).alarms().insert(
                old(qq).fresh_id(),
                (now + old(self).delta) as u64,
            ),
    {
        let wake_at = now + self.delta;
        let qq_alarm_id = match qq.add(wake_at) {
            Ok(id) => id,
            Err(_) => {
                proof {
                    assert(false);
                }
                0
            },
        };
        self.state = DebugPrintState::Waiting(Delay::new(qq_alarm_id));
    }

    /// Arms the first heartbeat delay; a no-op when one is already armed.
    pub fn start<Q: QQAlarmQueue>(&mut self, qq: &mut Q, now: u64)
        requires
            old(qq).inv(),
            old(self).state == DebugPrintState::Idle ==> old(qq).can_allocate() && old(qq).has_free_slot() && now + old(self).delta <= u64::MAX,
        ensures
            final(qq).inv(),
            old(self).state == DebugPrintState::Idle ==> *final(self) == (DebugPrint {
                state: DebugPrintState::Waiting(Delay::Waiting { qq_alarm_id: old(qq).fresh_id() }),
                ..*old(self)
            }) && final(qq).alarms() == old(qq).alarms().insert(
                old(qq).fresh_id(),
                (now + old(self).delta) as u64,
            ),
            old(self).state != DebugPrintState::Idle ==> *final(self) == *old(self) && *final(qq)
                == *old(qq),
    {
        match self.state {
            DebugPrintState::Idle => {
                self.start_delay_unchecked(qq, now);
            },
            _ => {},
        }
    }

    /// Counts one wakeup of the idle path.
    pub fn wakeup(&mut self)
        requires
            old(self).wakeup_counter < usize::MAX,
        ensures
            *final(self) == (DebugPrint {
                wakeup_counter: (old(self).wakeup_counter + 1) as usize,
                ..*old(self)
            }),
    {
        self.wakeup_counter = self.wakeup_counter + 1;
    }

    /// When the heartbeat delay has fired: prints the heartbeat line, bumps
    /// the tick counter, and re-arms the delay. Returns whether it did.
    pub fn update<Q: QQAlarmQueue, S: DiagnosticSink>(
        &mut self,
        qq: &mut Q,
        sink: &mut S,
        now: u64,
    ) -> (did: bool)
        requires
            old(qq).inv(),
            old(sink).inv(),
            old(self).state == DebugPrintState::Waiting(Delay::Done) ==> old(qq).can_allocate()
                && old(qq).has_free_slot() && now + old(self).delta <= u64::MAX && old(self).tick_counter < usize::MAX,
        ensures
            final(qq).inv(),
            final(sink).inv(),
            did == (old(self).state == DebugPrintState::Waiting(Delay::Done)),
            did ==> noted_k_more(old(sink).noted(), final(sink).noted(), 1),
            !did ==> final(sink).noted() == old(sink).noted(),
            did ==> *final(self) == (DebugPrint {
                state: DebugPrintState::Waiting(Delay::Waiting { qq_alarm_id: old(qq).fresh_id() }),
                tick_counter: (old(self).tick_counter + 1) as usize,
                ..*old(self)
            }) && final(qq).alarms() == old(qq).alarms().insert(
                old(qq).fresh_id(),
                (now + old(self).delta) as u64,
            ),
            !did ==> *final(self) == *old(self) && *final(qq) == *old(qq),
    {
        match self.state {
            DebugPrintState::Waiting(Delay::Done) => {
                let mut line = String::new();
                line.append("heartbeat ");
                line.append(usize_to_decimal(self.tick_counter).as_str());
                line.append(", wakeup count = ");
                line.append(usize_to_decimal(self.wakeup_counter).as_str());
                line.append("\n");
                sink.note(line.as_str(), now);
                self.tick_counter = self.tick_counter + 1;
                self.start_delay_unchecked(qq, now);
                true
            },
            _ => false,
        }
    }

    /// Offers a drained alarm id to the heartbeat delay.
    pub fn on_alarm(&mut self, qq_alarm_id: usize) -> (claimed: bool)
        ensures
            claimed == (old(self).state == DebugPrintState::Waiting(
                Delay::Waiting { qq_alarm_id },
            )),
            claimed ==> *final(self) == (DebugPrint {
                state: DebugPrintState::Waiting(Delay::Done),
                ..*old(self)
            }),
            !claimed ==> *final(self) == *old(self),
    {
        match &mut self.state {
            DebugPrintState::Waiting(delay) => delay.on_alarm(qq_alarm_id),
            _ => false,
        }
    }
}

} // verus!
