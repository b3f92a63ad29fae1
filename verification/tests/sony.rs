use coopfw::rmt_tx::{PulseCode, RmtTxChannel};
use coopfw::sony_ir::rx::{
    SonyIRDecoder, SonyIRDecoderState, SonyIRDeltaDecoder, SonyIREvent,
};
use coopfw::sony_ir::tx::{
    sony_ir_ch0_fill_ram, SonyIREncoder, SonyIREncoderPause, SonyIRError,
    SonyIRRawSendableCommand,
};
use coopfw::sony_ir::{SonyIRCommand, SonyIRRawCommand};

#[test]
fn command_conversion_round_trip() {
    let cmd = SonyIRCommand::V12 { address: 0x12, command: 0x34 };
    let raw = SonyIRRawCommand::from_command(cmd);
    assert_eq!(raw, SonyIRRawCommand { data: 0x12 * 128 + 0x34, bits: 12 });
    assert_eq!(SonyIRCommand::from_raw(&raw), cmd);

    let unknown = SonyIRRawCommand { data: 5, bits: 20 };
    assert_eq!(SonyIRCommand::from_raw(&unknown), SonyIRCommand::Raw(unknown));
    assert_eq!(SonyIRRawCommand::from_command(SonyIRCommand::Raw(unknown)), unknown);
}

const SHORT: u64 = 600 * 16;
const MID: u64 = 1200 * 16;
const LONG: u64 = 2400 * 16;

fn feed_frame(dec: &mut SonyIRDeltaDecoder, data: u32, bits: u8) {
    dec.pulse(1).unwrap(); // first edge only opens the frame
    dec.pulse(LONG).unwrap();
    dec.pulse(SHORT).unwrap();
    for k in 0..bits {
        let gap = if (data >> k) & 1 == 1 { MID } else { SHORT };
        dec.pulse(gap).unwrap();
        if k + 1 < bits {
            dec.pulse(SHORT).unwrap();
        }
    }
}

#[test]
fn delta_decoder_accepts_twelve_bit_frame() {
    let mut dec = SonyIRDeltaDecoder::new();
    let data: u32 = 0x12 * 128 + 0x34;
    feed_frame(&mut dec, data, 12);
    let raw = dec.timeout().expect("valid frame");
    assert_eq!(raw, SonyIRRawCommand { data, bits: 12 });
    assert_eq!(dec.state, SonyIRDecoderState::Idle);
    assert_eq!(
        SonyIRCommand::from_raw(&raw),
        SonyIRCommand::V12 { address: 0x12, command: 0x34 }
    );
}

#[test]
fn delta_decoder_rejects_bad_lengths() {
    let mut dec = SonyIRDeltaDecoder::new();
    dec.pulse(1).unwrap();
    // the preamble must be a long gap
    assert!(dec.pulse(SHORT).is_err());
    // errors stick until a timeout resets the decoder
    assert!(dec.pulse(LONG).is_err());
    assert!(dec.timeout().is_err());
    assert_eq!(dec.state, SonyIRDecoderState::Idle);
}

#[test]
fn delta_decoder_rejects_wrong_bit_count() {
    let mut dec = SonyIRDeltaDecoder::new();
    feed_frame(&mut dec, 0x3f, 7); // 7 bits is no valid frame length
    assert!(dec.timeout().is_err());
}

#[test]
fn timestamp_decoder_works_on_absolute_times() {
    let mut dec = SonyIRDecoder::new();
    let data: u32 = 0b1010_1010_1010;
    let mut t: u64 = 500;
    assert!(dec.update(Some(SonyIREvent::Pulse(t))).is_ok());
    t += LONG;
    assert!(dec.update(Some(SonyIREvent::Pulse(t))).is_ok());
    t += SHORT;
    assert!(dec.update(Some(SonyIREvent::Pulse(t))).is_ok());
    for k in 0..12 {
        t += if (data >> k) & 1 == 1 { MID } else { SHORT };
        assert!(dec.update(Some(SonyIREvent::Pulse(t))).is_ok());
        if k + 1 < 12 {
            t += SHORT;
            assert!(dec.update(Some(SonyIREvent::Pulse(t))).is_ok());
        }
    }
    assert!(dec.update(None).unwrap().is_none());
    let got = dec.update(Some(SonyIREvent::TimeOut)).unwrap();
    assert_eq!(got, Some(SonyIRRawCommand { data, bits: 12 }));
}

#[test]
fn fill_ram_pulse_words() {
    let mut rmt = RmtTxChannel::new();
    // three bits 0b101: one, zero, one (least significant first)
    sony_ir_ch0_fill_ram(&mut rmt, SonyIRCommand::Raw(SonyIRRawCommand { data: 0b101, bits: 3 }))
        .unwrap();
    assert_eq!(
        rmt.ram,
        vec![
            PulseCode { level1: true, length1: 4, level2: false, length2: 1 },
            PulseCode { level1: true, length1: 2, level2: false, length2: 1 },
            PulseCode { level1: true, length1: 1, level2: false, length2: 1 },
            PulseCode { level1: true, length1: 2, level2: false, length2: 0 },
        ]
    );

    let too_wide = SonyIRCommand::Raw(SonyIRRawCommand { data: 0, bits: 48 });
    assert_eq!(
        sony_ir_ch0_fill_ram(&mut rmt, too_wide),
        Err(SonyIRError::UnsendableCommand)
    );
}

#[test]
fn sendable_command_bounds() {
    assert!(SonyIRRawSendableCommand::from_raw(SonyIRRawCommand { data: 0, bits: 0 }).is_none());
    assert!(SonyIRRawSendableCommand::from_raw(SonyIRRawCommand { data: 0, bits: 48 }).is_none());
    assert!(SonyIRRawSendableCommand::from_raw(SonyIRRawCommand { data: 0, bits: 47 }).is_some());
}

#[test]
fn encoder_paces_repeats() {
    let mut enc: SonyIREncoder<4> = SonyIREncoder::with_commands_pause(
        SonyIREncoderPause::FromEnd(100),
    );
    let mut rmt = RmtTxChannel::new();
    let cmd = SonyIRCommand::V12 { address: 1, command: 2 };

    assert!(enc.send_non_immediatly(cmd, 2, None).is_ok());
    assert_eq!(enc.buffer_length, 1);

    // first update starts the first transmission
    assert!(enc.update(&mut rmt, 0).is_ok());
    assert!(rmt.running);
    assert!(enc.is_transmitting());
    assert_eq!(rmt.ram.len(), 13);
    assert_eq!(rmt.ram[0], PulseCode { level1: true, length1: 4, level2: false, length2: 1 });
    assert_eq!(rmt.ram[12].length2, 0);

    // still transmitting: nothing new starts
    assert!(enc.update(&mut rmt, 5).is_ok());
    assert!(enc.is_transmitting());

    // transmission ends: the encoder retires into its pause and, the pause
    // window still being open, starts the repeat without refilling the RAM
    rmt.int_end = true;
    assert!(enc.update(&mut rmt, 10).is_ok());
    assert!(enc.is_transmitting());
    assert_eq!(enc.buffer_length, 0);

    rmt.int_end = true;
    assert!(enc.update(&mut rmt, 20).is_ok());
    assert!(!enc.is_transmitting());
}

#[test]
fn encoder_reports_channel_error() {
    let mut enc: SonyIREncoder<2> = SonyIREncoder::new();
    let mut rmt = RmtTxChannel::new();
    assert!(enc.send_non_immediatly(SonyIRCommand::V12 { address: 1, command: 1 }, 1, None).is_ok());
    assert!(enc.update(&mut rmt, 0).is_ok());
    rmt.int_err = true;
    assert_eq!(enc.update(&mut rmt, 5), Err(SonyIRError::RMTPeripheral));
}

#[test]
fn encoder_buffer_full_and_zero_repeats() {
    let mut enc: SonyIREncoder<2> = SonyIREncoder::new();
    let cmd = SonyIRCommand::V12 { address: 1, command: 1 };
    assert!(enc.send_non_immediatly(cmd, 1, None).is_ok());
    assert!(enc.send_non_immediatly(cmd, 1, None).is_ok());
    assert_eq!(enc.send_non_immediatly(cmd, 1, None), Err(SonyIRError::EncoderBufferFull));
    // zero repeats is a no-op, even on a full queue
    assert!(enc.send_non_immediatly(cmd, 0, None).is_ok());
}

#[test]
fn send_transmits_immediately_when_free() {
    let mut enc: SonyIREncoder<2> = SonyIREncoder::new();
    let mut rmt = RmtTxChannel::new();
    let cmd = SonyIRCommand::V12 { address: 3, command: 4 };
    assert!(enc.send(&mut rmt, cmd, 1, Some(SonyIREncoderPause::FromEnd(50)), 0).is_ok());
    assert!(rmt.running);
    assert_eq!(enc.buffer_length, 0);
    assert!(enc.is_transmitting());
}
