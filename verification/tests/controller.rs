use coopfw::machines::controller::{parse_float_e3, u32_from_be, Controller, ParseFloatE3Error};
use coopfw::sdc::RawMeasurment;
use coopfw::usb_writer::{RingBufferUsbWriter, UsbDevice};

#[test]
fn parse_float_e3_exact_values() {
    // 1.0f32 = 0x3f80_0000 -> 1000 thousandths
    assert_eq!(parse_float_e3(0x3f80_0000), Ok(1000));
    // 2.5f32 = 0x4020_0000 -> 2500
    assert_eq!(parse_float_e3(0x4020_0000), Ok(2500));
    // only the low 22 mantissa bits take part, so a value whose top
    // mantissa bit is set loses it: 420.75f32 = 0x43d2_6000 keeps
    // frac 0x12_6000, giving (0x12_6000 >> 12 + 2^11) * 125
    assert_eq!(parse_float_e3(f32::to_bits(420.75)), Ok(292_750));
}

#[test]
fn parse_float_e3_rejections() {
    // sign bit set
    assert_eq!(parse_float_e3(0x8000_0000), Err(ParseFloatE3Error::Negative));
    assert_eq!(parse_float_e3(f32::to_bits(-1.0)), Err(ParseFloatE3Error::Negative));
    // exponent field below the bias cut-off
    assert_eq!(parse_float_e3(100 << 23), Err(ParseFloatE3Error::TooSmall));
    // exponent field far above it
    assert_eq!(parse_float_e3(200 << 23), Err(ParseFloatE3Error::TooBig));
    // the scaled value would not fit 32 bits
    assert_eq!(parse_float_e3(155 << 23), Err(ParseFloatE3Error::TooBig));
}

#[test]
fn u32_from_be_layout() {
    assert_eq!(u32_from_be(&[0x12, 0x34, 0x56, 0x78]), 0x1234_5678);
    assert_eq!(u32_from_be(&[0, 0, 0, 1]), 1);
    assert_eq!(u32_from_be(&[0xff, 0, 0, 0]), 0xff00_0000);
}

fn measurement() -> RawMeasurment {
    RawMeasurment {
        co2: f32::to_bits(420.75).to_be_bytes(),
        temperature: f32::to_bits(21.5).to_be_bytes(),
        humidity: f32::to_bits(40.0).to_be_bytes(),
    }
}

#[test]
fn controller_processes_pending_measurement() {
    let mut controller: Controller<4> = Controller::new();
    let mut sink: RingBufferUsbWriter<256> = RingBufferUsbWriter::new(UsbDevice::new(0), None);
    assert_eq!(controller.history_len(), 0);

    // nothing pending: no work
    assert!(!controller.update(&mut sink, 5));

    controller.on_measurment(measurement());
    assert!(controller.update(&mut sink, 10));
    assert_eq!(controller.history_len(), 1);
    // consumed: a second poll finds nothing
    assert!(!controller.update(&mut sink, 11));
}

#[test]
fn controller_history_overwrites_oldest() {
    let mut controller: Controller<2> = Controller::new();
    let mut sink: RingBufferUsbWriter<256> = RingBufferUsbWriter::new(UsbDevice::new(0), None);
    for t in 0..5u64 {
        controller.on_measurment(measurement());
        assert!(controller.update(&mut sink, t));
    }
    assert_eq!(controller.history_len(), 2);
}
