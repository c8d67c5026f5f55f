//! Transmit/receive status bits, the derived success predicate, and the
//! error taxonomy of the protocol layer.

use vstd::prelude::*;
use crate::opcode::CecAbortReason;

verus! {

/// Transmit reported OK.
pub const TX_OK: u8 = 0x01;

/// Arbitration for the bus was lost.
pub const TX_ARB_LOST: u8 = 0x02;

/// The message was not acknowledged.
pub const TX_NACK: u8 = 0x04;

/// A low drive condition was detected on the line.
pub const TX_LOW_DRIVE: u8 = 0x08;

/// Some other transmit error occurred.
pub const TX_ERROR: u8 = 0x10;

/// The hardware gave up after exhausting its retries.
pub const TX_MAX_RETRIES: u8 = 0x20;

/// Receive reported OK.
pub const RX_OK: u8 = 0x01;

/// Waiting for a reply timed out.
pub const RX_TIMEOUT: u8 = 0x02;

/// The reply was a feature abort: the peer explicitly declined.
pub const RX_FEATURE_ABORT: u8 = 0x04;

/// The transmit status bits of a message. The bits are informative, not
/// exclusive: a transmit can report not-acknowledged and retries-exhausted
/// together.
#[derive(Debug, Eq, PartialEq, Clone, Copy, Structural)]
pub struct TxStatus {
    pub bits: u8,
}

impl TxStatus {
    /// No status bit set: the transmit has not resolved.
    pub fn empty() -> (r: TxStatus)
        ensures
            r.bits == 0u8,
    {
        TxStatus { bits: 0 }
    }

    pub open spec fn spec_is_empty(&self) -> bool {
        self.bits == 0u8
    }

    /// True when no status bit is set.
    #[verifier::when_used_as_spec(spec_is_empty)]
    pub fn is_empty(&self) -> (r: bool)
        ensures
            r == self.spec_is_empty(),
    {
        self.bits == 0
    }

    pub open spec fn spec_contains(&self, flags: u8) -> bool {
        self.bits & flags == flags
    }

    /// True when every bit of `flags` is set in this status.
    #[verifier::when_used_as_spec(spec_contains)]
    pub fn contains(&self, flags: u8) -> (r: bool)
        ensures
            r == self.spec_contains(flags),
    {
        self.bits & flags == flags
    }
}

/// The receive status bits of a message.
#[derive(Debug, Eq, PartialEq, Clone, Copy, Structural)]
pub struct RxStatus {
    pub bits: u8,
}

impl RxStatus {
    /// No status bit set: nothing was received.
    pub fn empty() -> (r: RxStatus)
        ensures
            r.bits == 0u8,
    {
        RxStatus { bits: 0 }
    }

    pub open spec fn spec_is_empty(&self) -> bool {
        self.bits == 0u8
    }

    /// True when no status bit is set.
    #[verifier::when_used_as_spec(spec_is_empty)]
    pub fn is_empty(&self) -> (r: bool)
        ensures
            r == self.spec_is_empty(),
    {
        self.bits == 0
    }

    pub open spec fn spec_contains(&self, flags: u8) -> bool {
        self.bits & flags == flags
    }

    /// True when every bit of `flags` is set in this status.
    #[verifier::when_used_as_spec(spec_contains)]
    pub fn contains(&self, flags: u8) -> (r: bool)
        ensures
            r == self.spec_contains(flags),
    {
        self.bits & flags == flags
    }
}

/// The success predicate over a message's status bits, in its fixed rule
/// order: a non-empty transmit status must carry OK; a non-empty receive
/// status must carry OK; both empty means the message never resolved; and
/// a feature abort overrides an otherwise-OK receive status, because the
/// declining reply arrives with receive-OK set yet is a semantic failure.
pub open spec fn spec_is_successful(tx: u8, rx: u8) -> bool {
    if tx != 0u8 && tx & TX_OK != TX_OK {
        false
    } else if rx != 0u8 && rx & RX_OK != RX_OK {
        false
    } else if tx == 0u8 && rx == 0u8 {
        false
    } else {
        rx & RX_FEATURE_ABORT != RX_FEATURE_ABORT
    }
}

/// The transport's code for an operation the capability set does not
/// allow.
pub const TRANSPORT_UNSUPPORTED: i32 = 25;

/// The transport's code for a role conflict.
pub const TRANSPORT_BUSY: i32 = 16;

/// The transport's code for no data ready on a non-blocking handle.
pub const TRANSPORT_NO_DATA: i32 = 11;

/// The transport's code for a deadline that passed.
pub const TRANSPORT_TIMED_OUT: i32 = 110;

/// Interpret the transport's fixed failure vocabulary: unsupported for
/// this capability set, role conflict, no data ready, or deadline
/// exceeded. A code outside the vocabulary is handed back raw.
pub fn interpret_transport_error(code: i32) -> (r: Result<CecError, i32>)
    ensures
        r == (if code == TRANSPORT_UNSUPPORTED {
            Ok::<CecError, i32>(CecError::Unsupported)
        } else if code == TRANSPORT_BUSY {
            Ok::<CecError, i32>(CecError::Busy)
        } else if code == TRANSPORT_NO_DATA {
            Ok::<CecError, i32>(CecError::WouldBlock)
        } else if code == TRANSPORT_TIMED_OUT {
            Ok::<CecError, i32>(CecError::Timeout(CecTxError::Unresolved))
        } else {
            Err::<CecError, i32>(code)
        }),
{
    if code == TRANSPORT_UNSUPPORTED {
        Ok(CecError::Unsupported)
    } else if code == TRANSPORT_BUSY {
        Ok(CecError::Busy)
    } else if code == TRANSPORT_NO_DATA {
        Ok(CecError::WouldBlock)
    } else if code == TRANSPORT_TIMED_OUT {
        Ok(CecError::Timeout(CecTxError::Unresolved))
    } else {
        Err(code)
    }
}

/// A feature abort is never a success, whatever else the statuses say:
/// the abort check comes last and overrides an otherwise-OK receive
/// status.
pub proof fn lemma_feature_abort_never_successful(tx: u8, rx: u8)
    requires
        rx & RX_FEATURE_ABORT == RX_FEATURE_ABORT,
    ensures
        !spec_is_successful(tx, rx),
{
}

/// A message on which neither status was ever set never resolved, and is
/// never a success.
pub proof fn lemma_unresolved_never_successful()
    ensures
        !spec_is_successful(0, 0),
{
}

/// The transmit-failure diagnoses, each standing for one transmit status
/// bit, in the order the bits are examined.
#[derive(Debug, Eq, PartialEq, Clone, Copy, Structural)]
pub enum CecTxError {
    /// Arbitration for the bus was lost.
    ArbitrationLost,
    /// The message was not acknowledged.
    NotAcknowledged,
    /// A low drive condition was detected.
    LowDrive,
    /// A generic bus error was reported.
    Error,
    /// The retry budget was exhausted without success.
    MaxRetries,
    /// No failure bit was reported; the transmit never resolved.
    Unresolved,
}

/// The diagnosis the transmit status bits support, examined in the fixed
/// order arbitration-lost, not-acknowledged, low-drive, error,
/// retries-exhausted.
pub open spec fn spec_tx_error_of(tx: u8) -> CecTxError {
    if tx & TX_ARB_LOST == TX_ARB_LOST {
        CecTxError::ArbitrationLost
    } else if tx & TX_NACK == TX_NACK {
        CecTxError::NotAcknowledged
    } else if tx & TX_LOW_DRIVE == TX_LOW_DRIVE {
        CecTxError::LowDrive
    } else if tx & TX_ERROR == TX_ERROR {
        CecTxError::Error
    } else if tx & TX_MAX_RETRIES == TX_MAX_RETRIES {
        CecTxError::MaxRetries
    } else {
        CecTxError::Unresolved
    }
}

impl CecTxError {
    /// Diagnose a transmit status that lacks OK.
    pub fn from_tx_status(tx: TxStatus) -> (r: CecTxError)
        ensures
            r == spec_tx_error_of(tx.bits),
    {
        if tx.contains(TX_ARB_LOST) {
            CecTxError::ArbitrationLost
        } else if tx.contains(TX_NACK) {
            CecTxError::NotAcknowledged
        } else if tx.contains(TX_LOW_DRIVE) {
            CecTxError::LowDrive
        } else if tx.contains(TX_ERROR) {
            CecTxError::Error
        } else if tx.contains(TX_MAX_RETRIES) {
            CecTxError::MaxRetries
        } else {
            CecTxError::Unresolved
        }
    }
}

/// The error taxonomy of the protocol layer: configuration failures,
/// transmit failures derived from status bits, reception failures, and
/// the one malformed-input failure the codec can raise.
#[derive(Debug, Eq, PartialEq, Clone, Copy, Structural)]
pub enum CecError {
    /// The adapter lacks the capability the operation needs.
    Unsupported,
    /// A conflicting role or claim already exists.
    Busy,
    /// The requested mode pair is invalid for the current state.
    InvalidMode,
    /// The transmit source address is not among the claimed addresses.
    InvalidSource,
    /// The bus reported a transmit failure.
    Transmission(CecTxError),
    /// No reply arrived in time; carries the transmit diagnosis.
    Timeout(CecTxError),
    /// The peer declined: the aborted opcode byte and the reason operand.
    FeatureAbort { opcode: u8, reason: CecAbortReason },
    /// The caller supplied more than 14 parameter bytes.
    ParameterTooLong,
    /// No data is ready and the handle is in non-blocking mode.
    WouldBlock,
}

} // verus!
