use coopfw::interrupts::{Mailbox, USBInterruptStatus};
use coopfw::qq_alarm_queue::{AlarmComparator, DumbQQAlarmQueue};
use coopfw::scheduler::idle_decision;
use coopfw::usb_writer::{RingBufferUsbWriter, TimeoutState, UsbDevice, UsbWriter};
use coopfw::usb_writer_buffered::{UsbWriterBuffered, UsbWriterBufferedBuilder, UsbWriterError};
use coopfw::machines::debug_print::{DebugPrint, DebugPrintState};
use coopfw::machines::status_led::{LedModel, StatusLed, StatusLedConfig, StatusLedState};
use coopfw::machines::Delay;
use coopfw::usb_writer_buffered::UsbWriter as OwnedUsbWriter;
use coopfw::usb_writer::{u32_to_decimal, usize_to_decimal};

#[test]
fn ring_writer_buffers_then_drains_on_interrupt() {
    let mut w: RingBufferUsbWriter<8> = RingBufferUsbWriter::new(UsbDevice::new(0), None);
    let mut qq: DumbQQAlarmQueue<4> = DumbQQAlarmQueue::new(AlarmComparator::new());
    let mut mb = Mailbox::new();

    assert!(w.write(b"hi", 100).is_ok());
    assert!(w.usb.serial_in_empty_int_ena);
    assert_eq!(w.timeout_state, TimeoutState::Pending(100));

    // no interrupt yet: the pending timeout is armed as an alarm
    assert!(w.update(&mut qq, &mut mb, 150));
    assert_eq!(w.timeout_state, TimeoutState::Active(0));

    // the endpoint reports room: bytes move out, the alarm is cancelled
    w.usb.host_make_room(16);
    mb.record(USBInterruptStatus::SERIAL_IN_EMPTY);
    assert!(w.update(&mut qq, &mut mb, 200));
    assert_eq!(w.usb.sent, b"hi".to_vec());
    assert!(w.usb.flushed);
    assert!(!w.usb.serial_in_empty_int_ena);
    assert_eq!(w.timeout_state, TimeoutState::Idle);
    assert!(!RingBufferUsbWriter::is_timeouted(&w));

    // quiet mailbox and idle state: no work
    assert!(!w.update(&mut qq, &mut mb, 250));
}

#[test]
fn ring_writer_partial_drain_rearms_alarm() {
    let mut w: RingBufferUsbWriter<8> = RingBufferUsbWriter::new(UsbDevice::new(3), None);
    let mut qq: DumbQQAlarmQueue<4> = DumbQQAlarmQueue::new(AlarmComparator::new());
    let mut mb = Mailbox::new();

    assert!(w.write(b"abcde", 0).is_ok());
    mb.record(USBInterruptStatus::SERIAL_IN_EMPTY);
    assert!(w.update(&mut qq, &mut mb, 10));
    // only three fit; the remainder stays buffered and a fresh alarm is armed
    assert_eq!(w.usb.sent, b"abc".to_vec());
    assert!(!w.usb.flushed);
    assert!(matches!(w.timeout_state, TimeoutState::Active(_)));
}

#[test]
fn ring_writer_timeout_via_alarm() {
    let mut w: RingBufferUsbWriter<8> = RingBufferUsbWriter::new(UsbDevice::new(0), None);
    let mut qq: DumbQQAlarmQueue<4> = DumbQQAlarmQueue::new(AlarmComparator::new());
    let mut mb = Mailbox::new();
    assert!(w.write(b"x", 0).is_ok());
    assert!(w.update(&mut qq, &mut mb, 1));
    let id = match w.timeout_state {
        TimeoutState::Active(id) => id,
        other => panic!("expected an armed alarm, found {:?}", other),
    };
    assert!(!w.on_alarm(id + 1));
    assert!(w.on_alarm(id));
    assert!(RingBufferUsbWriter::is_timeouted(&w));
    // the trait sees the same state
    assert!(UsbWriter::is_timeouted(&w));
}

#[test]
fn ring_writer_overflow_reports_error() {
    let mut w: RingBufferUsbWriter<4> = RingBufferUsbWriter::new(UsbDevice::new(0), None);
    assert!(w.write(b"abc", 0).is_ok());
    assert!(w.write(b"de", 0).is_err());
}

#[test]
fn buffered_writer_non_immediate_and_overflow_count() {
    let mut w: UsbWriterBuffered<4> = UsbWriterBuffered::new(3, 1000);
    assert!(w.buffer_empty());
    assert!(w.write_bytes_non_immediate(b"ab").is_ok());
    assert!(!w.buffer_empty());
    assert_eq!(
        w.write_bytes_non_immediate(b"cdef"),
        Err(UsbWriterError::Overflow(2))
    );
}

#[test]
fn buffered_writer_try_immediate_splits_across_fifo_and_buffer() {
    let mut w: UsbWriterBuffered<8> = UsbWriterBuffered::new(2, 1000);
    let mut usb = UsbDevice::new(2);
    assert!(w.write_bytes_try_immediate(&mut usb, b"wxyz").is_ok());
    assert_eq!(usb.sent, b"wx".to_vec());
    assert!(!usb.flushed);
    assert!(!w.buffer_empty());

    // draining moves the buffered remainder and flushes
    usb.host_make_room(8);
    w.update_without_blocking(&mut usb);
    assert_eq!(usb.sent, b"wxyz".to_vec());
    assert!(usb.flushed);
    assert!(w.buffer_empty());
}

#[test]
fn buffered_writer_builder_defaults() {
    let mut b: UsbWriterBufferedBuilder<1024> = UsbWriterBuffered::<1024>::builder();
    let w = b.build();
    assert_eq!(w.minimum_empty_space, 768);
    assert_eq!(w.timeout_treshold, 16_000);

    let mut b: UsbWriterBufferedBuilder<64> = UsbWriterBufferedBuilder::new();
    let w = b.minimum_empty_space(10).timeout_treshold(5).build();
    assert_eq!(w.minimum_empty_space, 10);
    assert_eq!(w.timeout_treshold, 5);
}

#[test]
fn idle_decision_requires_quiet_mailboxes_and_no_work() {
    let quiet = Mailbox::new();
    assert!(idle_decision(&quiet, &quiet, &quiet, &quiet, &quiet, false));
    assert!(!idle_decision(&quiet, &quiet, &quiet, &quiet, &quiet, true));

    let mut noisy = Mailbox::new();
    noisy.record(USBInterruptStatus::SERIAL_IN_EMPTY);
    assert!(!idle_decision(&noisy, &quiet, &quiet, &quiet, &quiet, false));

    // bits outside every status word do not keep the system awake
    let mut stray = Mailbox::new();
    stray.record(0x8000_0000);
    assert!(idle_decision(&stray, &stray, &stray, &stray, &stray, false));
}

#[test]
fn debug_and_status_drivers() {
    let mut qq: DumbQQAlarmQueue<8> = DumbQQAlarmQueue::new(AlarmComparator::new());
    let mut sink: RingBufferUsbWriter<256> = RingBufferUsbWriter::new(UsbDevice::new(0), None);

    // heartbeat printer: arm, fire, print and re-arm
    let mut dp = DebugPrint::new(1000);
    dp.start(&mut qq, 0);
    assert_eq!(dp.state, DebugPrintState::Waiting(Delay::Waiting { qq_alarm_id: 0 }));
    assert!(!dp.update(&mut qq, &mut sink, 10));
    assert!(dp.on_alarm(0));
    assert!(dp.update(&mut qq, &mut sink, 1000));
    assert_eq!(dp.tick_counter, 1);
    assert_eq!(dp.state, DebugPrintState::Waiting(Delay::Waiting { qq_alarm_id: 1 }));
    dp.wakeup();
    assert_eq!(dp.wakeup_counter, 1);

    // status LED: one blink (two phases), then the timeout monitor
    let mut led = StatusLed::new(
        LedModel { on: true },
        StatusLedConfig { boot_blink_duration: 10, boot_blink_count: 1 },
    );
    led.start(&mut qq, 0);
    assert!(!led.led.on);
    let id0 = match led.state {
        StatusLedState::Booting { delay: Delay::Waiting { qq_alarm_id }, .. } => qq_alarm_id,
        ref other => panic!("expected booting, found {:?}", other),
    };
    assert!(led.on_alarm(id0));
    assert!(led.update(&sink, &mut qq, 10));
    assert!(led.led.on); // phase 0: on
    let id1 = match led.state {
        StatusLedState::Booting { delay: Delay::Waiting { qq_alarm_id }, count: 1 } => qq_alarm_id,
        ref other => panic!("expected booting phase 1, found {:?}", other),
    };
    assert!(led.on_alarm(id1));
    assert!(led.update(&sink, &mut qq, 20));
    assert!(!led.led.on); // phase 1: off
    let id2 = match led.state {
        StatusLedState::Booting { delay: Delay::Waiting { qq_alarm_id }, count: 2 } => qq_alarm_id,
        ref other => panic!("expected booting phase 2, found {:?}", other),
    };
    assert!(led.on_alarm(id2));
    assert!(led.update(&sink, &mut qq, 30));
    assert_eq!(led.state, StatusLedState::UsbTimeoutMonitor(false));
    assert!(!led.led.on);

    // without a host timeout the monitor is quiet
    assert!(!led.update(&sink, &mut qq, 40));

    // a timed-out writer lights the LED
    let mut w: RingBufferUsbWriter<8> = RingBufferUsbWriter::new(UsbDevice::new(0), None);
    let mut mb = Mailbox::new();
    assert!(w.write(b"x", 0).is_ok());
    assert!(w.update(&mut qq, &mut mb, 1));
    let id = match w.timeout_state {
        TimeoutState::Active(id) => id,
        ref other => panic!("expected an armed alarm, found {:?}", other),
    };
    assert!(w.on_alarm(id));
    assert!(led.update(&w, &mut qq, 50));
    assert!(led.led.on);
    assert_eq!(led.state, StatusLedState::UsbTimeoutMonitor(true));
}

#[test]
fn owned_writer_delegates() {
    let inner: UsbWriterBuffered<8> = UsbWriterBuffered::new(2, 1000);
    let mut w: OwnedUsbWriter<8> = inner.with_usb(UsbDevice::new(2));
    assert!(w.buffer_empty());
    assert!(w.write_bytes_try_immediate(b"abcd").is_ok());
    assert_eq!(w.usb.sent, b"ab".to_vec());
    assert!(!w.buffer_empty());
    w.usb.host_make_room(8);
    w.update_without_blocking();
    assert_eq!(w.usb.sent, b"abcd".to_vec());
    assert!(w.buffer_empty());
    assert!(w.write_bytes_non_immediate(b"xyz").is_ok());
    assert!(!w.buffer_empty());
}

#[test]
fn decimal_rendering() {
    assert_eq!(u32_to_decimal(0), "0");
    assert_eq!(u32_to_decimal(7), "7");
    assert_eq!(u32_to_decimal(42), "42");
    assert_eq!(u32_to_decimal(1000), "1000");
    assert_eq!(u32_to_decimal(u32::MAX), "4294967295");
    assert_eq!(usize_to_decimal(0), "0");
    assert_eq!(usize_to_decimal(123456), "123456");
}

fn drain_writer(w: &mut RingBufferUsbWriter<512>) -> String {
    let mut bytes = Vec::new();
    while let Some(b) = w.buffer.pop_front() {
        bytes.push(b);
    }
    String::from_utf8(bytes).unwrap()
}

#[test]
fn heartbeat_line_carries_counters() {
    let mut qq: DumbQQAlarmQueue<4> = DumbQQAlarmQueue::new(AlarmComparator::new());
    let mut sink: RingBufferUsbWriter<512> = RingBufferUsbWriter::new(UsbDevice::new(0), None);
    let mut dp = DebugPrint::new(100);
    dp.start(&mut qq, 0);
    dp.wakeup();
    dp.wakeup();
    assert!(dp.on_alarm(0));
    assert!(dp.update(&mut qq, &mut sink, 100));
    assert_eq!(drain_writer(&mut sink), "heartbeat 0, wakeup count = 2\n");
}
