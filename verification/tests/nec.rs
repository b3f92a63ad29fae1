use coopfw::interrupts::{Mailbox, RMTInterruptStatus};
use coopfw::machines::ir_nec_rx::{
    in_range, IrNecRx, IrNecRxState, NecDecodeError, NecDecoder, NecIrTimingConfig, NecMessage,
};
use coopfw::pac_utils::rmt::RmtRxChannel;
use coopfw::rmt_tx::PulseCode;
use coopfw::usb_writer::{RingBufferUsbWriter, UsbDevice};

const SHORT: u16 = 20;
const LONG: u16 = 60;
const START1: u16 = 320;
const START0: u16 = 160;
const REPEAT0: u16 = 70;

fn decoder() -> NecDecoder {
    NecDecoder::new(NecIrTimingConfig { short: 20, tol_div: 2, tol_num: 1 })
}

fn push_byte(pulses: &mut Vec<u16>, byte: u8) {
    for bit in 0..8 {
        pulses.push(SHORT);
        pulses.push(if (byte >> bit) & 1 == 1 { LONG } else { SHORT });
    }
}

fn frame(address: u8, address_inv: u8, message: u8, message_inv: u8) -> Vec<u16> {
    let mut pulses = vec![START1, START0];
    push_byte(&mut pulses, address);
    push_byte(&mut pulses, address_inv);
    push_byte(&mut pulses, message);
    push_byte(&mut pulses, message_inv);
    pulses.push(SHORT);
    pulses
}

#[test]
fn valid_frame_decodes() {
    let dec = decoder();
    let pulses = frame(0x12, !0x12, 0x34, !0x34);
    assert_eq!(pulses.len(), 67);
    assert_eq!(
        dec.decode(&pulses),
        Ok(NecMessage::Message { address: 0x12, message: 0x34 })
    );
}

#[test]
fn flipped_inverted_address_bit_is_rejected() {
    let dec = decoder();
    let pulses = frame(0x12, !0x12 ^ 0x01, 0x34, !0x34);
    assert_eq!(dec.decode(&pulses), Err(NecDecodeError::AddressInvertedNotMatching));
}

#[test]
fn flipped_inverted_message_bit_is_rejected() {
    let dec = decoder();
    let pulses = frame(0x12, !0x12, 0x34, !0x34 ^ 0x80);
    assert_eq!(dec.decode(&pulses), Err(NecDecodeError::MessageInvertedNotMatching));
}

#[test]
fn repeat_frame() {
    let dec = decoder();
    assert_eq!(dec.decode(&[START1, REPEAT0]), Ok(NecMessage::Repeat));
}

#[test]
fn format_violations() {
    let dec = decoder();
    assert_eq!(dec.decode(&[]), Err(NecDecodeError::InvalidPulseCountTooShort));
    assert_eq!(dec.decode(&[START1]), Err(NecDecodeError::InvalidPulseCountTooShort));
    assert_eq!(dec.decode(&[5, START0]), Err(NecDecodeError::Start1InvalidLength));
    assert_eq!(dec.decode(&[START1, 500]), Err(NecDecodeError::Start0InvalidLength));

    let mut truncated = frame(0x12, !0x12, 0x34, !0x34);
    truncated.truncate(40);
    assert_eq!(dec.decode(&truncated), Err(NecDecodeError::InvalidPulseCountTooShort));

    let mut long = frame(0x12, !0x12, 0x34, !0x34);
    long.push(SHORT);
    assert_eq!(dec.decode(&long), Err(NecDecodeError::InvalidPulseCountTooLong));

    let mut bad_mark = frame(0x12, !0x12, 0x34, !0x34);
    bad_mark[2] = 500; // first data mark out of window, payload reported
    assert_eq!(dec.decode(&bad_mark), Err(NecDecodeError::Data1InvalidLength(500)));

    let mut bad_space = frame(0x12, !0x12, 0x34, !0x34);
    bad_space[3] = 500; // first data space fits neither window
    assert_eq!(dec.decode(&bad_space), Err(NecDecodeError::Data0InvalidLength));

    let mut bad_last = frame(0x12, !0x12, 0x34, !0x34);
    bad_last[66] = 500;
    assert_eq!(dec.decode(&bad_last), Err(NecDecodeError::Last1InvalidLength));
}

#[test]
fn in_range_is_inclusive() {
    assert!(in_range(10, 10, 30));
    assert!(in_range(30, 10, 30));
    assert!(!in_range(9, 10, 30));
    assert!(!in_range(31, 10, 30));
}

fn words_of(lengths: &[u16]) -> Vec<PulseCode> {
    let mut words = Vec::new();
    let mut i = 0;
    while i < lengths.len() {
        let l1 = lengths[i];
        let l2 = if i + 1 < lengths.len() { lengths[i + 1] } else { 0 };
        words.push(PulseCode { level1: true, length1: l1, level2: false, length2: l2 });
        i += 2;
    }
    if lengths.len() % 2 == 0 {
        words.push(PulseCode { level1: true, length1: 0, level2: false, length2: 0 });
    }
    words
}

#[test]
fn receiver_decodes_capture_and_keeps_listening() {
    let mut rx = IrNecRx::new();
    let mut rmt = RmtRxChannel::new();
    let mut mb = Mailbox::new();
    let mut sink: RingBufferUsbWriter<64> = RingBufferUsbWriter::new(UsbDevice::new(0), None);

    // nothing pending: no work
    assert!(!rx.update(&mut rmt, &mut mb, &mut sink, 0));

    rmt.device_capture(words_of(&frame(0x12, !0x12, 0x34, !0x34)));
    mb.record(RMTInterruptStatus::CH2_END);
    assert!(rx.update(&mut rmt, &mut mb, &mut sink, 0));
    assert_eq!(rx.state, IrNecRxState::Active);
    assert_eq!(mb.get(), 0);
    assert_eq!(
        rx.last_result,
        Some(Ok(NecMessage::Message { address: 0x12, message: 0x34 }))
    );

    // a malformed frame is reported but does not stop the receiver
    rmt.device_capture(words_of(&[START1, 500]));
    mb.record(RMTInterruptStatus::CH2_END);
    assert!(rx.update(&mut rmt, &mut mb, &mut sink, 0));
    assert_eq!(rx.state, IrNecRxState::Active);
    assert_eq!(rx.last_result, Some(Err(NecDecodeError::Start0InvalidLength)));
}

#[test]
fn receiver_channel_error_is_terminal() {
    let mut rx = IrNecRx::new();
    let mut rmt = RmtRxChannel::new();
    let mut mb = Mailbox::new();
    let mut sink: RingBufferUsbWriter<64> = RingBufferUsbWriter::new(UsbDevice::new(0), None);

    mb.record(RMTInterruptStatus::CH2_ERROR);
    assert!(rx.update(&mut rmt, &mut mb, &mut sink, 0));
    assert_eq!(rx.state, IrNecRxState::Error);
    // terminal: later interrupts are ignored
    mb.record(RMTInterruptStatus::CH2_END);
    assert!(!rx.update(&mut rmt, &mut mb, &mut sink, 0));
    assert_eq!(rx.state, IrNecRxState::Error);
}
