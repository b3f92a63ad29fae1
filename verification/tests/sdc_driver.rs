use coopfw::interrupts::{GPIOInterruptStatus, I2CInterruptStatus, Mailbox};
use coopfw::machines::controller::Controller;
use coopfw::machines::sdc_simple_measurment::{
    SDCSimpleMeasurment, SDCSimpleMeasurmentConfig, SDCSimpleMeasurmentState,
};
use coopfw::machines::Delay;
use coopfw::pac_utils::i2c::I2cBus;
use coopfw::qq_alarm_queue::{AlarmComparator, DumbQQAlarmQueue};
use coopfw::sdc::compute_crc;
use coopfw::usb_writer::{RingBufferUsbWriter, UsbDevice};

struct Rig {
    driver: SDCSimpleMeasurment,
    qq: DumbQQAlarmQueue<8>,
    controller: Controller<16>,
    i2c: I2cBus,
    i2c_mb: Mailbox,
    gpio_mb: Mailbox,
    sink: RingBufferUsbWriter<512>,
}

fn rig() -> Rig {
    Rig {
        driver: SDCSimpleMeasurment::new(SDCSimpleMeasurmentConfig {
            delta: 10,
            delayed_get_delta: Some(100),
        }),
        qq: DumbQQAlarmQueue::new(AlarmComparator::new()),
        controller: Controller::new(),
        i2c: I2cBus::new(),
        i2c_mb: Mailbox::new(),
        gpio_mb: Mailbox::new(),
        sink: RingBufferUsbWriter::new(UsbDevice::new(0), None),
    }
}

impl Rig {
    fn update(&mut self, now: u64) -> bool {
        self.driver.update(
            &mut self.sink,
            &mut self.qq,
            &mut self.controller,
            &mut self.i2c,
            &mut self.i2c_mb,
            &mut self.gpio_mb,
            now,
        )
    }
}

#[test]
fn ready_bit_starts_readout_and_nack_is_terminal() {
    let mut r = rig();
    r.driver.state = SDCSimpleMeasurmentState::WaitReady;

    // no ready bit: nothing to do
    assert!(!r.update(0));
    assert_eq!(r.driver.state, SDCSimpleMeasurmentState::WaitReady);

    // the data-ready pin fired: the driver issues the readout's write phase
    r.gpio_mb.record(GPIOInterruptStatus::GPIO6);
    assert!(r.update(10));
    assert!(matches!(r.driver.state, SDCSimpleMeasurmentState::Measurment(_)));

    // the write phase completes with a NACK: terminal error
    r.i2c_mb.record(I2CInterruptStatus::NACK);
    assert!(r.update(20));
    assert_eq!(r.driver.state, SDCSimpleMeasurmentState::Error);

    // ... and update() returns false forever after
    for t in 0..20u64 {
        r.gpio_mb.record(GPIOInterruptStatus::GPIO6);
        r.i2c_mb.record(I2CInterruptStatus::TRANSACTION_COMPLETE);
        assert!(!r.update(30 + t));
        assert_eq!(r.driver.state, SDCSimpleMeasurmentState::Error);
    }
}

#[test]
fn boot_and_configuration_sequence() {
    let mut r = rig();
    r.driver.start(&mut r.qq, 0);
    assert!(matches!(
        r.driver.state,
        SDCSimpleMeasurmentState::BootDelay(Delay::Waiting { qq_alarm_id: 0 })
    ));

    // waiting for the boot delay: no progress
    assert!(!r.update(5));

    assert!(r.driver.on_alarm(0));
    // boot delay over: the interval write goes out
    assert!(r.update(10));
    assert!(matches!(r.driver.state, SDCSimpleMeasurmentState::SetDelta(_)));
    assert_eq!(r.i2c.tx_fifo[1], 0x46);

    // interval write acknowledged: the start command goes out
    r.i2c_mb.record(I2CInterruptStatus::TRANSACTION_COMPLETE);
    assert!(r.update(20));
    assert!(matches!(r.driver.state, SDCSimpleMeasurmentState::Start(_)));
    assert_eq!(r.i2c.tx_fifo[1], 0x00);
    assert_eq!(r.i2c.tx_fifo[2], 0x10);

    // start acknowledged: waiting for the ready pin
    r.i2c_mb.record(I2CInterruptStatus::TRANSACTION_COMPLETE);
    assert!(r.update(30));
    assert_eq!(r.driver.state, SDCSimpleMeasurmentState::WaitReady);
}

#[test]
fn full_measurement_reaches_controller() {
    let mut r = rig();
    r.driver.state = SDCSimpleMeasurmentState::WaitReady;

    r.gpio_mb.record(GPIOInterruptStatus::GPIO6);
    assert!(r.update(0));

    // write phase acknowledged: settle delay armed
    r.i2c_mb.record(I2CInterruptStatus::TRANSACTION_COMPLETE);
    assert!(r.update(10));
    assert!(r.driver.on_alarm(0));

    // settle delay over: read phase issued
    assert!(r.update(120));

    // the device answers with six checksummed words, then the read completes
    for &(b2, b1) in
        &[(0x41, 0xec), (0x00, 0x00), (0x41, 0xa4), (0x00, 0x00), (0x42, 0x20), (0x00, 0x00)]
    {
        r.i2c.device_respond(&[b2, b1, compute_crc(b2, b1)]);
    }
    r.i2c_mb.record(I2CInterruptStatus::TRANSACTION_COMPLETE);
    assert!(r.update(130));
    assert_eq!(r.driver.state, SDCSimpleMeasurmentState::WaitReady);

    // the measurement is pending at the aggregator
    let mut sink: RingBufferUsbWriter<512> = RingBufferUsbWriter::new(UsbDevice::new(0), None);
    assert!(r.controller.update(&mut sink, 140));
    assert_eq!(r.controller.history_len(), 1);
}

#[test]
fn idle_driver_does_nothing() {
    let mut r = rig();
    assert!(!r.update(0));
    assert_eq!(r.driver.state, SDCSimpleMeasurmentState::Idle);
}
