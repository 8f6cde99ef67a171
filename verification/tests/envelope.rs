use linux_cec::address::LogicalAddress;
use linux_cec::codec::Coded;
use linux_cec::device::{CecMsg, Envelope, MessageData};
use linux_cec::error::{Error, RxError};
use linux_cec::message::Opcode;

const CEC_RX_STATUS_OK: u8 = 0x01;

fn received(rx_ts: u64, len: u32, msg: [u8; 16]) -> CecMsg {
    CecMsg {
        tx_ts: 0,
        rx_ts,
        len,
        timeout: 0,
        sequence: 1,
        flags: 0,
        msg,
        reply: 0,
        rx_status: CEC_RX_STATUS_OK,
        tx_status: 0,
        tx_arb_lost_cnt: 0,
        tx_nack_cnt: 0,
        tx_low_drive_cnt: 0,
        tx_error_cnt: 0,
    }
}

fn error_of(msg: CecMsg) -> Error {
    let Err(err) = Envelope::try_from(msg) else {
        panic!();
    };
    err
}

#[test]
fn decode_simple() {
    let standby = Opcode::Standby.to_primitive();
    let msg = received(911462400, 2, [0xF, standby, 0, 0, 0, 0, 0, 0, 0, 0, 0, 0, 0, 0, 0, 0]);
    let envelope = Envelope::try_from(msg).unwrap();
    assert_eq!(envelope.message.opcode(), standby);
    assert_eq!(envelope.initiator, LogicalAddress::Tv);
    assert_eq!(envelope.destination, LogicalAddress::Broadcast);
    assert_eq!(envelope.timestamp, 911462400);
    assert_eq!(envelope.sequence, 1);
    let MessageData::Valid(message) = envelope.message else {
        panic!();
    };
    assert_eq!(message.opcode(), Opcode::Standby);
}

#[test]
fn decode_invalid_opcode() {
    let msg = received(0, 2, [0xF, 0xFE, 0, 0, 0, 0, 0, 0, 0, 0, 0, 0, 0, 0, 0, 0]);
    let envelope = Envelope::try_from(msg).unwrap();
    assert_eq!(envelope.message.opcode(), 0xFE);
    let MessageData::Invalid(message) = envelope.message else {
        panic!();
    };
    assert_eq!(message.as_slice(), &[0xFE]);
}

#[test]
fn decode_max_length() {
    let opcode = Opcode::VendorCommandWithId.to_primitive();
    let msg = received(
        0,
        16,
        [
            0xF, opcode, 0x08, 0x00, 0x46, 0x00, 0x13, 0x00, 0x10, 0x80, 0x90, 0x01, 0x00, 0x00,
            0x00, 0x00,
        ],
    );
    let envelope = Envelope::try_from(msg).unwrap();
    assert_eq!(envelope.message.opcode(), opcode);
    assert!(matches!(envelope.message, MessageData::Valid(_)));
}

#[test]
fn decode_invalid_max_length() {
    let mut msg = CecMsg::from_timeout(0);
    msg.len = 16;
    msg.msg[0] = 0x0F;
    msg.msg[1] = 0xFE;
    msg.rx_status = CEC_RX_STATUS_OK;

    let envelope = Envelope::try_from(msg).unwrap();
    let MessageData::Invalid(message) = envelope.message else {
        panic!();
    };
    assert_eq!(message.len(), 14);
    assert_eq!(message[0], 0xFE);
}

#[test]
fn decode_too_long() {
    let mut msg = CecMsg::from_timeout(0);
    msg.len = 17;
    msg.rx_status = CEC_RX_STATUS_OK;
    assert_eq!(error_of(msg), Error::InvalidData);
}

#[test]
fn decode_way_too_short() {
    assert_eq!(error_of(received(0, 0, [0; 16])), Error::InvalidData);
}

#[test]
fn decode_too_short() {
    assert_eq!(error_of(received(0, 1, [0; 16])), Error::InvalidData);
}

#[test]
fn decode_failures() {
    let mut msg = received(0, 2, [0; 16]);
    msg.rx_status = 0x02;
    assert_eq!(error_of(msg), Error::Timeout);
    msg.rx_status = 0x04;
    assert_eq!(error_of(msg), Error::RxError(RxError::FeatureAbort));
    msg.rx_status = 0x08;
    assert_eq!(error_of(msg), Error::Abort);
}

#[test]
fn invalid_bytes_are_kept() {
    let msg = received(0, 5, [0x4F, 0xFE, 1, 2, 3, 9, 9, 9, 0, 0, 0, 0, 0, 0, 0, 0]);
    let envelope = Envelope::try_from(msg).unwrap();
    assert_eq!(envelope.initiator, LogicalAddress::PlaybackDevice1);
    assert_eq!(envelope.message.to_bytes(), vec![0xFE, 1, 2, 3]);
}
