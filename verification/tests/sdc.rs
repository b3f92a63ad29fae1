use coopfw::interrupts::{I2CInterruptStatus, Mailbox};
use coopfw::pac_utils::i2c::{I2cBus, I2CCommand, I2CTransmissionError};
use coopfw::sdc::machines::{DelayedGet, DelayedGetError, DelayedGetState, SetCmd, SetState, State};
use coopfw::sdc::{
    check_crc, compute_crc, read_response_is_ready, read_response_measurment, read_response_param,
    set_command_write, u16_into_param_bytes, RawMeasurment, SDCGetCommand, SDCReadResponseError,
    SDCSetCommand, DEFAULT_ADDRESS,
};
use coopfw::qq_alarm_queue::{AlarmComparator, DumbQQAlarmQueue};

#[test]
fn crc_known_vectors() {
    // the sensor's documented frames: 0x0000 checks as 0x81, 0x0001 as 0xb0
    assert_eq!(compute_crc(0x00, 0x00), 0x81);
    assert_eq!(compute_crc(0x00, 0x01), 0xb0);
    assert!(check_crc(0x00, 0x00, 0x81));
    assert!(!check_crc(0x00, 0x00, 0x80));
}

#[test]
fn param_bytes_layout() {
    let (b2, b1, crc) = u16_into_param_bytes(0x1234);
    assert_eq!((b2, b1), (0x12, 0x34));
    assert_eq!(crc, compute_crc(0x12, 0x34));
    assert_eq!(u16_into_param_bytes(0), (0, 0, 0x81));
}

#[test]
fn set_command_wire_format() {
    let mut i2c = I2cBus::new();
    set_command_write(&mut i2c, SDCSetCommand::SetDelta { delta: 10 });
    let crc = compute_crc(0x00, 10);
    assert_eq!(i2c.tx_fifo, vec![DEFAULT_ADDRESS << 1, 0x46, 0x00, 0x00, 10, crc]);
    assert!(i2c.started);
    assert_eq!(i2c.cmd.len(), 3);
    assert_eq!(i2c.cmd[0], I2CCommand::Start.encode());
    assert_eq!(
        i2c.cmd[1],
        I2CCommand::Write { ack_ckeck: true, ack_exp: false, len: 6 }.encode()
    );
    assert_eq!(i2c.cmd[2], I2CCommand::Stop.encode());

    let mut i2c = I2cBus::new();
    set_command_write(&mut i2c, SDCSetCommand::Start { pressure: None });
    assert_eq!(i2c.tx_fifo, vec![DEFAULT_ADDRESS << 1, 0x00, 0x10, 0x00, 0x00, 0x81]);
}

#[test]
fn command_register_encoding() {
    assert_eq!(I2CCommand::Start.encode(), 6 << 11);
    assert_eq!(I2CCommand::Stop.encode(), 2 << 11);
    assert_eq!(I2CCommand::End.encode(), 4 << 11);
    assert_eq!(
        I2CCommand::Write { ack_ckeck: true, ack_exp: false, len: 3 }.encode(),
        (1 << 11) | (1 << 8) | 3
    );
    assert_eq!(I2CCommand::Read { ack: true, len: 1 }.encode(), (3 << 11) | (1 << 10) | 1);
}

#[test]
fn read_response_parsing() {
    let mut i2c = I2cBus::new();
    i2c.device_respond(&[0x12, 0x34, compute_crc(0x12, 0x34)]);
    assert_eq!(read_response_param(&mut i2c), Ok([0x12, 0x34]));

    i2c.device_respond(&[0x12, 0x34, 0x00]);
    assert_eq!(read_response_param(&mut i2c), Err(SDCReadResponseError::CRCCheckFailed));
}

#[test]
fn ready_flag_parsing() {
    let mut i2c = I2cBus::new();
    i2c.device_respond(&[0x00, 0x00, compute_crc(0, 0)]);
    assert_eq!(read_response_is_ready(&mut i2c), Ok(false));
    i2c.device_respond(&[0x00, 0x01, compute_crc(0, 1)]);
    assert_eq!(read_response_is_ready(&mut i2c), Ok(true));
    i2c.device_respond(&[0x00, 0x02, compute_crc(0, 2)]);
    assert_eq!(read_response_is_ready(&mut i2c), Err(SDCReadResponseError::InvalidFormat));
}

fn respond_words(i2c: &mut I2cBus, words: &[(u8, u8)]) {
    for &(b2, b1) in words {
        i2c.device_respond(&[b2, b1, compute_crc(b2, b1)]);
    }
}

#[test]
fn measurement_response_assembly() {
    let mut i2c = I2cBus::new();
    respond_words(
        &mut i2c,
        &[(0x41, 0xec), (0x00, 0x00), (0x41, 0xa4), (0x00, 0x00), (0x42, 0x20), (0x00, 0x00)],
    );
    let m = read_response_measurment(&mut i2c).unwrap();
    assert_eq!(m.co2, [0x41, 0xec, 0x00, 0x00]);
    assert_eq!(m.temperature, [0x41, 0xa4, 0x00, 0x00]);
    assert_eq!(m.humidity, [0x42, 0x20, 0x00, 0x00]);

    // one bad checksum in the middle fails the whole readout
    let mut i2c = I2cBus::new();
    respond_words(&mut i2c, &[(0x41, 0xec), (0x00, 0x00)]);
    i2c.device_respond(&[0x41, 0xa4, 0x00]);
    respond_words(&mut i2c, &[(0x00, 0x00), (0x42, 0x20), (0x00, 0x00)]);
    assert_eq!(
        read_response_measurment(&mut i2c),
        Err(SDCReadResponseError::CRCCheckFailed)
    );
}

#[test]
fn from_sdc_response_field_mapping() {
    let m = RawMeasurment::from_sdc_response([[1, 2], [3, 4], [5, 6], [7, 8], [9, 10], [11, 12]]);
    assert_eq!(m.co2, [1, 2, 3, 4]);
    assert_eq!(m.temperature, [5, 6, 7, 8]);
    assert_eq!(m.humidity, [9, 10, 11, 12]);
}

#[test]
fn set_machine_awaits_completion() {
    let mut i2c = I2cBus::new();
    let mut cmd = SetCmd::start(&mut i2c, SDCSetCommand::SetDelta { delta: 2 });
    assert_eq!(cmd.state, SetState::AwaitingInterrupt);

    let mut mb = Mailbox::new();
    assert!(matches!(cmd.update(&mut mb), State::Active(false)));

    mb.record(I2CInterruptStatus::TRANSACTION_COMPLETE);
    assert!(matches!(cmd.update(&mut mb), State::Done(Ok(()))));
    // once done it stays done
    assert!(matches!(cmd.update(&mut mb), State::Done(Ok(()))));
}

#[test]
fn set_machine_reports_nack() {
    let mut i2c = I2cBus::new();
    let mut cmd = SetCmd::start(&mut i2c, SDCSetCommand::Start { pressure: None });
    let mut mb = Mailbox::new();
    mb.record(I2CInterruptStatus::NACK);
    match cmd.update(&mut mb) {
        State::Done(Err(I2CTransmissionError::Unknown(flags))) => {
            assert_eq!(flags.bits, I2CInterruptStatus::NACK)
        }
        other => panic!("unexpected step result: {:?}", other),
    }
}

#[test]
fn delayed_get_full_walk() {
    let mut i2c = I2cBus::new();
    let mut qq: DumbQQAlarmQueue<4> = DumbQQAlarmQueue::new(AlarmComparator::new());
    let mut mb = Mailbox::new();

    let mut get = DelayedGet::start(&mut i2c, SDCGetCommand::IsReady, 100);
    assert_eq!(get.state, DelayedGetState::WriteAwaitingInterrupt);
    assert_eq!(i2c.tx_fifo, vec![DEFAULT_ADDRESS << 1, 0x02, 0x02]);

    // write completion arms the settle delay
    mb.record(I2CInterruptStatus::TRANSACTION_COMPLETE);
    assert!(matches!(get.update(&mut qq, &mut i2c, &mut mb, 1000), State::Active(true)));
    assert_eq!(qq.alarm.target, 1100);

    // waiting for the delay: no work
    assert!(matches!(get.update(&mut qq, &mut i2c, &mut mb, 1150), State::Active(false)));
    let ids = {
        let mut fired = Mailbox::new();
        fired.record(1);
        assert!(qq.update(1200, &mut fired));
        qq.consume_pending().unwrap()
    };
    assert_eq!(ids.len(), 1);
    assert!(get.on_alarm(ids[0]));

    // delay done: the read phase is issued
    assert!(matches!(get.update(&mut qq, &mut i2c, &mut mb, 1200), State::Active(true)));
    assert_eq!(get.state, DelayedGetState::ReadAwaitingInterrupt);
    assert_eq!(i2c.tx_fifo, vec![(DEFAULT_ADDRESS << 1) | 1]);

    // read completion finishes the exchange
    mb.record(I2CInterruptStatus::TRANSACTION_COMPLETE);
    assert!(matches!(get.update(&mut qq, &mut i2c, &mut mb, 1300), State::Done(Ok(()))));
}

#[test]
fn delayed_get_read_error() {
    let mut i2c = I2cBus::new();
    let mut qq: DumbQQAlarmQueue<4> = DumbQQAlarmQueue::new(AlarmComparator::new());
    let mut mb = Mailbox::new();
    let mut get = DelayedGet::start(&mut i2c, SDCGetCommand::Measurment, 10);
    mb.record(I2CInterruptStatus::TRANSACTION_COMPLETE);
    assert!(matches!(get.update(&mut qq, &mut i2c, &mut mb, 0), State::Active(true)));
    assert!(get.on_alarm(0));
    assert!(matches!(get.update(&mut qq, &mut i2c, &mut mb, 20), State::Active(true)));
    mb.record(I2CInterruptStatus::TIME_OUT);
    assert!(matches!(
        get.update(&mut qq, &mut i2c, &mut mb, 30),
        State::Done(Err(DelayedGetError::Read(_)))
    ));
}
