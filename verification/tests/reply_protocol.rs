use cec_linux::msg::encode;
use cec_linux::protocol::{
    build_command, check_transmit_source, keypress_messages, prepare_request, resolve_reply,
    turn_on_messages, REPLY_TIMEOUT_CEILING_MS,
};
use cec_linux::status::{RX_FEATURE_ABORT, RX_OK, TX_NACK, TX_OK};
use cec_linux::CecAbortReason;
use cec_linux::CecError;
use cec_linux::CecLogAddrMask;
use cec_linux::CecLogicalAddress;
use cec_linux::CecMsg;
use cec_linux::CecOpcode;
use cec_linux::CecTxError;
use cec_linux::CecUserControlCode;
use cec_linux::RxStatus;
use cec_linux::TxStatus;

fn request_result(
    wait_for: CecOpcode,
    reply_zeroed: bool,
    tx: u8,
    rx: u8,
    payload: &[u8],
) -> CecMsg {
    let mut m = encode(
        CecLogicalAddress::Playback2,
        CecLogicalAddress::Audiosystem,
        Some(CecOpcode::GiveAudioStatus),
        &[],
    )
    .unwrap();
    prepare_request(&mut m, wait_for, 0);
    // What the transport hands back after the exchange.
    if reply_zeroed {
        m.reply = 0;
    }
    m.tx_status = TxStatus { bits: tx };
    m.rx_status = RxStatus { bits: rx };
    let l = 2 + payload.len();
    m.msg[2..l].copy_from_slice(payload);
    m.len = l as u32;
    m
}

#[test]
fn await_abort_without_transmit_ok_is_a_timeout() {
    // Waiting for a feature abort leaves the reply field at the abort
    // opcode (zero); a failed transmit must resolve as a timeout.
    let m = request_result(CecOpcode::FeatureAbort, true, TX_NACK, 0, &[]);
    assert_eq!(
        resolve_reply(&m),
        Err(CecError::Timeout(CecTxError::NotAcknowledged))
    );
}

#[test]
fn await_abort_with_flagged_abort_decodes_the_reason() {
    let payload = [CecOpcode::GiveDeviceVendorId.value(), 0x00];
    let m = request_result(
        CecOpcode::FeatureAbort,
        true,
        TX_OK,
        RX_OK | RX_FEATURE_ABORT,
        &payload,
    );
    assert_eq!(
        resolve_reply(&m),
        Err(CecError::FeatureAbort {
            opcode: CecOpcode::GiveDeviceVendorId.value(),
            reason: CecAbortReason::Unrecognized,
        })
    );
}

#[test]
fn abort_reason_outside_the_table_reads_as_other() {
    let payload = [CecOpcode::Standby.value(), 0x77];
    let m = request_result(
        CecOpcode::FeatureAbort,
        true,
        TX_OK,
        RX_OK | RX_FEATURE_ABORT,
        &payload,
    );
    assert_eq!(
        resolve_reply(&m),
        Err(CecError::FeatureAbort {
            opcode: CecOpcode::Standby.value(),
            reason: CecAbortReason::Other,
        })
    );
}

#[test]
fn matched_reply_returns_its_parameters() {
    let m = request_result(
        CecOpcode::ReportAudioStatus,
        false,
        TX_OK,
        RX_OK,
        &[0x2a],
    );
    assert_eq!(resolve_reply(&m), Ok(vec![0x2a]));
}

#[test]
fn matched_reply_with_two_byte_message_returns_empty() {
    let m = request_result(CecOpcode::ReportAudioStatus, false, TX_OK, RX_OK, &[]);
    assert_eq!(resolve_reply(&m), Ok(vec![]));
}

#[test]
fn unmatched_reply_is_a_timeout() {
    // Transmit went out fine, nothing matched: driver zeroes the reply.
    let m = request_result(CecOpcode::ReportAudioStatus, true, TX_OK, 0, &[]);
    assert_eq!(resolve_reply(&m), Err(CecError::Timeout(CecTxError::Unresolved)));
}

#[test]
fn prepare_request_clamps_the_timeout() {
    let mut m = CecMsg::init(CecLogicalAddress::Playback1, CecLogicalAddress::Tv);
    prepare_request(&mut m, CecOpcode::ReportPowerStatus, 0);
    assert_eq!(m.timeout, REPLY_TIMEOUT_CEILING_MS);
    assert_eq!(m.reply, CecOpcode::ReportPowerStatus.value());

    prepare_request(&mut m, CecOpcode::ReportPowerStatus, 250);
    assert_eq!(m.timeout, 250);

    prepare_request(&mut m, CecOpcode::ReportPowerStatus, 5000);
    assert_eq!(m.timeout, REPLY_TIMEOUT_CEILING_MS);
}

#[test]
fn turn_on_tv_sends_image_view_on() {
    let plan = turn_on_messages(CecLogicalAddress::Playback2, CecLogicalAddress::Tv);
    assert_eq!(plan.len(), 1);
    assert_eq!(plan[0].opcode(), Some(Ok(CecOpcode::ImageViewOn)));
    assert_eq!(plan[0].len, 2);
}

#[test]
fn turn_on_other_device_sends_power_keypress_pair() {
    let plan = turn_on_messages(CecLogicalAddress::Playback2, CecLogicalAddress::Audiosystem);
    assert_eq!(plan.len(), 2);
    assert_eq!(plan[0].opcode(), Some(Ok(CecOpcode::UserControlPressed)));
    assert_eq!(plan[0].parameters(), &[CecUserControlCode::Power.value()]);
    assert_eq!(plan[1].opcode(), Some(Ok(CecOpcode::UserControlReleased)));
    assert_eq!(plan[1].len, 2);
}

#[test]
fn keypress_pair_carries_the_key() {
    let plan = keypress_messages(
        CecLogicalAddress::Playback1,
        CecLogicalAddress::Audiosystem,
        CecUserControlCode::VolumeUp,
    );
    assert_eq!(plan.len(), 2);
    assert_eq!(plan[0].parameters(), &[0x41]);
    assert_eq!(plan[0].msg[0], 0x45);
}

#[test]
fn build_command_matches_encode() {
    let a = build_command(
        CecLogicalAddress::Tv,
        CecLogicalAddress::Audiosystem,
        CecOpcode::GiveAudioStatus,
        &[],
    );
    assert_eq!(a.msg[0], 0x05);
    assert_eq!(a.msg[1], 0x71);
    assert_eq!(a.len, 2);
}

#[test]
fn transmit_source_must_be_claimed() {
    let mask = CecLogAddrMask { bits: 1 << 8 };
    assert_eq!(
        check_transmit_source(mask, CecLogicalAddress::Playback2),
        Ok(())
    );
    assert_eq!(
        check_transmit_source(mask, CecLogicalAddress::Playback1),
        Err(CecError::InvalidSource)
    );
}
