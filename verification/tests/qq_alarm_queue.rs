use coopfw::interrupts::{Mailbox, SystimerTartet0InterruptStatus};
use coopfw::qq_alarm_queue::{
    AlarmComparator, DumbQQAlarmQueue, QQAlarmError, QQAlarmQueue, TARGET_GUARD_TICKS,
};

fn fired_mailbox() -> Mailbox {
    let mut mb = Mailbox::new();
    mb.record(SystimerTartet0InterruptStatus::TARGET);
    mb
}

#[test]
fn comparator_follows_minimum_wakeup() {
    // multiplexer of capacity 3: targets follow the earliest waiting alarm
    let mut qq: DumbQQAlarmQueue<3> = DumbQQAlarmQueue::new(AlarmComparator::new());
    assert_eq!(DumbQQAlarmQueue::add(&mut qq, 10), Ok(0));
    assert_eq!(qq.alarm.target, 10);
    assert!(qq.alarm.interrupt_enabled);
    assert_eq!(DumbQQAlarmQueue::add(&mut qq, 5), Ok(1));
    assert_eq!(qq.alarm.target, 5);
    assert_eq!(DumbQQAlarmQueue::add(&mut qq, 20), Ok(2));
    assert_eq!(qq.alarm.target, 5);
    // removing the earliest alarm recomputes the comparator
    assert_eq!(DumbQQAlarmQueue::remove(&mut qq, 1), Ok(()));
    assert_eq!(qq.alarm.target, 10);
    assert!(qq.alarm.interrupt_enabled);
}

#[test]
fn ids_strictly_increase_and_are_never_reused() {
    let mut qq: DumbQQAlarmQueue<2> = DumbQQAlarmQueue::new(AlarmComparator::new());
    assert_eq!(DumbQQAlarmQueue::add(&mut qq, 100), Ok(0));
    assert_eq!(DumbQQAlarmQueue::add(&mut qq, 200), Ok(1));
    // full: the id is consumed even though the slot allocation fails
    assert_eq!(DumbQQAlarmQueue::add(&mut qq, 300), Err(QQAlarmError::QueueFull));
    assert_eq!(DumbQQAlarmQueue::remove(&mut qq, 0), Ok(()));
    // freed slot, but the old id is never handed out again
    assert_eq!(DumbQQAlarmQueue::add(&mut qq, 300), Ok(3));
}

#[test]
fn remove_unknown_id_is_recoverable() {
    let mut qq: DumbQQAlarmQueue<2> = DumbQQAlarmQueue::new(AlarmComparator::new());
    assert_eq!(DumbQQAlarmQueue::remove(&mut qq, 9), Err(QQAlarmError::IdNotFound));
    assert_eq!(DumbQQAlarmQueue::add(&mut qq, 50), Ok(0));
    assert_eq!(DumbQQAlarmQueue::remove(&mut qq, 0), Ok(()));
    assert_eq!(DumbQQAlarmQueue::remove(&mut qq, 0), Err(QQAlarmError::IdNotFound));
    assert!(!qq.alarm.interrupt_enabled);
}

#[test]
fn update_fires_due_alarms_once() {
    let mut qq: DumbQQAlarmQueue<4> = DumbQQAlarmQueue::new(AlarmComparator::new());
    assert_eq!(DumbQQAlarmQueue::add(&mut qq, 10), Ok(0));
    assert_eq!(DumbQQAlarmQueue::add(&mut qq, 1000), Ok(1));

    // no hardware interrupt yet: nothing happens
    let mut quiet = Mailbox::new();
    assert!(!qq.update(50, &mut quiet));
    assert!(qq.consume_pending().is_none());

    // the alarm interrupt arrives at tick 50: alarm 0 is due, alarm 1 is not
    let mut mb = fired_mailbox();
    assert!(qq.update(50, &mut mb));
    assert_eq!(mb.get(), 0);
    // comparator re-armed for the remaining waiter, biased past "now"
    assert_eq!(qq.alarm.target, 1000.max(50 + TARGET_GUARD_TICKS));
    assert!(qq.alarm.interrupt_enabled);

    // the due id is drained exactly once, then it is gone for good
    let ids = qq.consume_pending().expect("one alarm is pending");
    assert_eq!(ids, vec![0]);
    assert!(qq.consume_pending().is_none());
    assert_eq!(DumbQQAlarmQueue::remove(&mut qq, 0), Err(QQAlarmError::IdNotFound));
    assert_eq!(DumbQQAlarmQueue::remove(&mut qq, 1), Ok(()));
}

#[test]
fn update_with_guard_bias() {
    // a remaining waiter closer than the guard is programmed at now + guard
    let mut qq: DumbQQAlarmQueue<4> = DumbQQAlarmQueue::new(AlarmComparator::new());
    assert_eq!(DumbQQAlarmQueue::add(&mut qq, 10), Ok(0));
    assert_eq!(DumbQQAlarmQueue::add(&mut qq, 60), Ok(1));
    let mut mb = fired_mailbox();
    assert!(qq.update(50, &mut mb));
    assert_eq!(qq.alarm.target, 50 + TARGET_GUARD_TICKS);
}

#[test]
fn interrupt_disabled_when_no_waiter_remains() {
    let mut qq: DumbQQAlarmQueue<2> = DumbQQAlarmQueue::new(AlarmComparator::new());
    assert_eq!(DumbQQAlarmQueue::add(&mut qq, 10), Ok(0));
    let mut mb = fired_mailbox();
    assert!(qq.update(10, &mut mb));
    assert!(!qq.alarm.interrupt_enabled);
    let ids = qq.consume_pending().unwrap();
    assert_eq!(ids, vec![0]);
}

#[test]
fn trait_interface_matches_inherent_behaviour() {
    let mut qq: DumbQQAlarmQueue<1> = DumbQQAlarmQueue::new(AlarmComparator::new());
    let id = QQAlarmQueue::add(&mut qq, 42).unwrap();
    assert_eq!(id, 0);
    assert!(matches!(QQAlarmQueue::add(&mut qq, 43), Err(QQAlarmError::QueueFull)));
    assert_eq!(QQAlarmQueue::remove(&mut qq, 0), Ok(()));
}

#[test]
fn trait_alarms_model_tracks_wake_ticks() {
    // the abstract model drivers see: id -> wake tick, inserted by add and
    // dropped by remove
    let mut qq: DumbQQAlarmQueue<3> = DumbQQAlarmQueue::new(AlarmComparator::new());
    let a = QQAlarmQueue::add(&mut qq, 500).unwrap();
    let b = QQAlarmQueue::add(&mut qq, 700).unwrap();
    assert!(a < b);
    assert_eq!(QQAlarmQueue::remove(&mut qq, a), Ok(()));
    assert_eq!(QQAlarmQueue::remove(&mut qq, a), Err(QQAlarmError::IdNotFound));
    // the comparator still follows the remaining alarm's wake tick
    assert_eq!(qq.alarm.target, 700);
}
