use cec_linux::protocol::msg_to_io_result;
use cec_linux::status::{
    interpret_transport_error, RX_FEATURE_ABORT, RX_OK, TRANSPORT_BUSY, TRANSPORT_NO_DATA,
    TRANSPORT_TIMED_OUT, TRANSPORT_UNSUPPORTED, TX_ARB_LOST, TX_ERROR, TX_LOW_DRIVE,
    TX_MAX_RETRIES, TX_NACK, TX_OK,
};
use cec_linux::CecError;
use cec_linux::CecLogicalAddress;
use cec_linux::CecMsg;
use cec_linux::CecTxError;
use cec_linux::RxStatus;
use cec_linux::TxStatus;

/// The four success rules of the status model, restated independently.
fn expected_is_successful(tx: u8, rx: u8) -> bool {
    if tx != 0 && tx & TX_OK == 0 {
        return false;
    }
    if rx != 0 && rx & RX_OK == 0 {
        return false;
    }
    if tx == 0 && rx == 0 {
        return false;
    }
    rx & RX_FEATURE_ABORT == 0
}

fn msg_with_status(tx: u8, rx: u8) -> CecMsg {
    let mut m = CecMsg::init(CecLogicalAddress::Playback1, CecLogicalAddress::Tv);
    m.tx_status = TxStatus { bits: tx };
    m.rx_status = RxStatus { bits: rx };
    m
}

#[test]
fn is_ok_matches_the_rule_order_on_every_status_combination() {
    // All 2^6 transmit x 2^3 receive bit combinations.
    for tx in 0..64u8 {
        for rx in 0..8u8 {
            let m = msg_with_status(tx, rx);
            assert_eq!(
                m.is_ok(),
                expected_is_successful(tx, rx),
                "tx={:#04x} rx={:#04x}",
                tx,
                rx
            );
        }
    }
}

#[test]
fn both_statuses_empty_means_unresolved_not_success() {
    assert!(!msg_with_status(0, 0).is_ok());
}

#[test]
fn feature_abort_overrides_receive_ok() {
    assert!(!msg_with_status(TX_OK, RX_OK | RX_FEATURE_ABORT).is_ok());
    assert!(msg_with_status(TX_OK, RX_OK).is_ok());
}

#[test]
fn transmit_failure_bits_without_ok_fail() {
    assert!(!msg_with_status(TX_NACK, 0).is_ok());
    assert!(!msg_with_status(TX_NACK | TX_MAX_RETRIES, 0).is_ok());
    // A transmit that reports OK alongside informative failure bits passed.
    assert!(msg_with_status(TX_OK | TX_ARB_LOST, 0).is_ok());
}

#[test]
fn tx_error_diagnosis_follows_bit_order() {
    assert_eq!(
        CecTxError::from_tx_status(TxStatus { bits: TX_ARB_LOST | TX_NACK }),
        CecTxError::ArbitrationLost
    );
    assert_eq!(
        CecTxError::from_tx_status(TxStatus { bits: TX_NACK | TX_MAX_RETRIES }),
        CecTxError::NotAcknowledged
    );
    assert_eq!(
        CecTxError::from_tx_status(TxStatus { bits: TX_LOW_DRIVE }),
        CecTxError::LowDrive
    );
    assert_eq!(
        CecTxError::from_tx_status(TxStatus { bits: TX_ERROR }),
        CecTxError::Error
    );
    assert_eq!(
        CecTxError::from_tx_status(TxStatus { bits: TX_MAX_RETRIES }),
        CecTxError::MaxRetries
    );
    assert_eq!(
        CecTxError::from_tx_status(TxStatus { bits: 0 }),
        CecTxError::Unresolved
    );
}

#[test]
fn transport_failure_vocabulary_is_interpreted() {
    assert_eq!(
        interpret_transport_error(TRANSPORT_UNSUPPORTED),
        Ok(CecError::Unsupported)
    );
    assert_eq!(interpret_transport_error(TRANSPORT_BUSY), Ok(CecError::Busy));
    assert_eq!(
        interpret_transport_error(TRANSPORT_NO_DATA),
        Ok(CecError::WouldBlock)
    );
    assert_eq!(
        interpret_transport_error(TRANSPORT_TIMED_OUT),
        Ok(CecError::Timeout(CecTxError::Unresolved))
    );
    assert_eq!(interpret_transport_error(1), Err(1));
}

#[test]
fn msg_to_io_result_succeeds_exactly_on_transmit_ok() {
    assert_eq!(msg_to_io_result(msg_with_status(TX_OK, 0)), Ok(()));
    assert_eq!(
        msg_to_io_result(msg_with_status(TX_NACK, 0)),
        Err(CecError::Transmission(CecTxError::NotAcknowledged))
    );
    assert_eq!(
        msg_to_io_result(msg_with_status(0, 0)),
        Err(CecError::Transmission(CecTxError::Unresolved))
    );
}
