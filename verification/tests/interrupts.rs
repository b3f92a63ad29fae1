use coopfw::interrupts::{
    i2c_interrupt_get_and_clear, usb_interrupt_clear, usb_interrupt_get,
    usb_interrupt_get_and_clear, GPIOInterruptStatus, I2CInterruptStatus, Mailbox,
    RMTInterruptStatus, SystimerTartet0InterruptStatus, USBInterruptStatus,
};

#[test]
fn mailbox_get_and_clear_idempotent() {
    // a second drain with the same mask and no intervening event is empty
    let mut mb = Mailbox::new();
    mb.record(USBInterruptStatus::SERIAL_IN_EMPTY | 0x100);
    let first = mb.get_and_clear(USBInterruptStatus::SERIAL_IN_EMPTY);
    assert_eq!(first, USBInterruptStatus::SERIAL_IN_EMPTY);
    let second = mb.get_and_clear(USBInterruptStatus::SERIAL_IN_EMPTY);
    assert_eq!(second, 0);
    // unrelated bits survive both drains
    assert_eq!(mb.get(), 0x100);
}

#[test]
fn mailbox_record_accumulates() {
    let mut mb = Mailbox::new();
    mb.record(0x1);
    mb.record(0x4);
    assert_eq!(mb.get(), 0x5);
    mb.clear(0x1);
    assert_eq!(mb.get(), 0x4);
}

#[test]
fn typed_get_and_clear_truncates_to_known_bits() {
    let mut mb = Mailbox::new();
    mb.record(0xffff_ffff);
    let got = usb_interrupt_get(&mb);
    assert_eq!(got.bits, USBInterruptStatus::ALL);
    let drained = usb_interrupt_get_and_clear(&mut mb, got);
    assert_eq!(drained.bits, USBInterruptStatus::SERIAL_IN_EMPTY);
    assert!(usb_interrupt_get(&mb).is_empty());
}

#[test]
fn typed_clear_leaves_other_bits() {
    let mut mb = Mailbox::new();
    mb.record(0x9);
    usb_interrupt_clear(&mut mb, USBInterruptStatus::from_bits_truncate(0x8));
    assert_eq!(mb.get(), 0x1);
}

#[test]
fn i2c_error_classification() {
    let nack = I2CInterruptStatus::from_bits_truncate(I2CInterruptStatus::NACK);
    assert!(nack.is_error());
    let complete = I2CInterruptStatus::from_bits_truncate(I2CInterruptStatus::TRANSACTION_COMPLETE);
    assert!(!complete.is_error());
    let both = I2CInterruptStatus::from_bits_truncate(
        I2CInterruptStatus::TRANSACTION_COMPLETE | I2CInterruptStatus::ARBITRATION_LOST,
    );
    assert!(both.is_error());
    assert!(I2CInterruptStatus::empty().is_empty());
    assert_eq!(I2CInterruptStatus::all().bits, I2CInterruptStatus::ALL);
}

#[test]
fn rmt_error_classification() {
    assert!(RMTInterruptStatus::from_bits_truncate(RMTInterruptStatus::CH2_ERROR).is_error());
    assert!(!RMTInterruptStatus::from_bits_truncate(RMTInterruptStatus::CH2_END).is_error());
    let mut mb = Mailbox::new();
    mb.record(RMTInterruptStatus::CH2_END);
    let drained = i2c_interrupt_get_and_clear(&mut mb, I2CInterruptStatus::all());
    // the capture bit is not an I2C bit, so the I2C drain sees nothing
    assert!(drained.is_empty());
    assert_eq!(mb.get(), RMTInterruptStatus::CH2_END);
}

#[test]
fn status_word_constants() {
    assert_eq!(SystimerTartet0InterruptStatus::TARGET, 0x1);
    assert_eq!(GPIOInterruptStatus::GPIO6, 0x40);
    assert_eq!(
        I2CInterruptStatus::ALL,
        I2CInterruptStatus::ERROR_BITS | I2CInterruptStatus::TRANSACTION_COMPLETE
    );
}
