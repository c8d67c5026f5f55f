//! The handle's negotiation roles: initiator and follower modes, their
//! wire encoding in one mode word, and the validity rules for changing
//! them.

use vstd::prelude::*;
use crate::caps::CAP_MONITOR_ALL;
use crate::caps::CAP_TRANSMIT;
use crate::caps::Capabilities;
use crate::status::CecError;

verus! {

/// The low nibble of the mode word holds the initiator mode.
pub const CEC_MODE_INITIATOR_MSK: u32 = 0x0f;

/// The high nibble of the mode word holds the follower mode.
pub const CEC_MODE_FOLLOWER_MSK: u32 = 0xf0;

/// The sending role a handle holds: whether it may initiate messages,
/// and whether it keeps that right to itself.
#[derive(Debug, Eq, PartialEq, Clone, Copy, Structural)]
pub enum CecModeInitiator {
    /// This handle does not transmit; others still can.
    NoInitiator,
    /// Shared access: the default.
    Send,
    /// No other handle may send.
    Exclusive,
}

impl CecModeInitiator {
    /// The value this mode contributes to the mode word.
    pub open spec fn spec_value(self) -> u32 {
        match self {
            CecModeInitiator::NoInitiator => 0,
            CecModeInitiator::Send => 1,
            CecModeInitiator::Exclusive => 2,
        }
    }

    /// The initiator mode a masked mode word names, if any.
    pub open spec fn spec_from_word(w: u32) -> Option<CecModeInitiator> {
        if w == 0 {
            Some(CecModeInitiator::NoInitiator)
        } else if w == 1 {
            Some(CecModeInitiator::Send)
        } else if w == 2 {
            Some(CecModeInitiator::Exclusive)
        } else {
            None
        }
    }

    /// The value this mode contributes to the mode word.
    #[verifier::when_used_as_spec(spec_value)]
    pub fn value(self) -> (r: u32)
        ensures
            r == self.spec_value(),
    {
        match self {
            CecModeInitiator::NoInitiator => 0,
            CecModeInitiator::Send => 1,
            CecModeInitiator::Exclusive => 2,
        }
    }

    /// Decode the initiator half of a mode word, already masked.
    pub fn from_word(w: u32) -> (r: Option<CecModeInitiator>)
        ensures
            r == CecModeInitiator::spec_from_word(w),
    {
        if w == 0 {
            Some(CecModeInitiator::NoInitiator)
        } else if w == 1 {
            Some(CecModeInitiator::Send)
        } else if w == 2 {
            Some(CecModeInitiator::Exclusive)
        } else {
            None
        }
    }
}

/// The processing role a handle holds: which inbound messages it sees
/// and whether it must answer core messages itself.
#[derive(Debug, Eq, PartialEq, Clone, Copy, Structural)]
pub enum CecModeFollower {
    /// Only replies to this handle's own messages: the default.
    RepliesOnly,
    /// All messages directed at this device.
    All,
    /// As `All`, and no other follower is admitted.
    Exclusive,
    /// Exclusive, and most core messages are passed through for this
    /// handle to answer instead of the framework.
    ExclusivePassthru,
    /// Observe everything this device sends or receives.
    Monitor,
    /// Observe all bus traffic, not just this device's.
    MonitorAll,
}

impl CecModeFollower {
    /// The value this mode contributes to the mode word.
    pub open spec fn spec_value(self) -> u32 {
        match self {
            CecModeFollower::RepliesOnly => 0x00,
            CecModeFollower::All => 0x10,
            CecModeFollower::Exclusive => 0x20,
            CecModeFollower::ExclusivePassthru => 0x30,
            CecModeFollower::Monitor => 0xe0,
            CecModeFollower::MonitorAll => 0xf0,
        }
    }

    /// The follower mode a masked mode word names, if any.
    pub open spec fn spec_from_word(w: u32) -> Option<CecModeFollower> {
        if w == 0x00 {
            Some(CecModeFollower::RepliesOnly)
        } else if w == 0x10 {
            Some(CecModeFollower::All)
        } else if w == 0x20 {
            Some(CecModeFollower::Exclusive)
        } else if w == 0x30 {
            Some(CecModeFollower::ExclusivePassthru)
        } else if w == 0xe0 {
            Some(CecModeFollower::Monitor)
        } else if w == 0xf0 {
            Some(CecModeFollower::MonitorAll)
        } else {
            None
        }
    }

    /// The value this mode contributes to the mode word.
    #[verifier::when_used_as_spec(spec_value)]
    pub fn value(self) -> (r: u32)
        ensures
            r == self.spec_value(),
    {
        match self {
            CecModeFollower::RepliesOnly => 0x00,
            CecModeFollower::All => 0x10,
            CecModeFollower::Exclusive => 0x20,
            CecModeFollower::ExclusivePassthru => 0x30,
            CecModeFollower::Monitor => 0xe0,
            CecModeFollower::MonitorAll => 0xf0,
        }
    }

    /// Decode the follower half of a mode word, already masked.
    pub fn from_word(w: u32) -> (r: Option<CecModeFollower>)
        ensures
            r == CecModeFollower::spec_from_word(w),
    {
        if w == 0x00 {
            Some(CecModeFollower::RepliesOnly)
        } else if w == 0x10 {
            Some(CecModeFollower::All)
        } else if w == 0x20 {
            Some(CecModeFollower::Exclusive)
        } else if w == 0x30 {
            Some(CecModeFollower::ExclusivePassthru)
        } else if w == 0xe0 {
            Some(CecModeFollower::Monitor)
        } else if w == 0xf0 {
            Some(CecModeFollower::MonitorAll)
        } else {
            None
        }
    }
}

/// The one mode word a handle submits: the initiator value in the low
/// nibble and the follower value in the high nibble.
pub open spec fn spec_mode_word(i: CecModeInitiator, f: CecModeFollower) -> u32 {
    (i.spec_value() + f.spec_value()) as u32
}

/// Compose the mode word of an initiator/follower pair. The nibbles are
/// disjoint, so each half masks back out of the word unchanged.
pub fn mode_word(i: CecModeInitiator, f: CecModeFollower) -> (r: u32)
    ensures
        r == spec_mode_word(i, f),
        CecModeInitiator::spec_from_word(r & CEC_MODE_INITIATOR_MSK) == Some(i),
        CecModeFollower::spec_from_word(r & CEC_MODE_FOLLOWER_MSK) == Some(f),
{
    let iv = i.value();
    let fv = f.value();
    let r = iv | fv;
    proof {
        assert((iv == 0 || iv == 1 || iv == 2) && (fv == 0x00 || fv == 0x10 || fv == 0x20 || fv
            == 0x30 || fv == 0xe0 || fv == 0xf0) ==> (iv | fv) == iv + fv && (iv | fv) & 0x0fu32
            == iv && (iv | fv) & 0xf0u32 == fv) by (bit_vector);
    }
    r
}

/// Split a mode word into its initiator and follower halves; fails when
/// either half names no mode.
pub fn split_mode_word(w: u32) -> (r: Option<(CecModeInitiator, CecModeFollower)>)
    ensures
        r matches Some((i, f)) ==> CecModeInitiator::spec_from_word(w & CEC_MODE_INITIATOR_MSK)
            == Some(i) && CecModeFollower::spec_from_word(w & CEC_MODE_FOLLOWER_MSK) == Some(f),
        r is None ==> CecModeInitiator::spec_from_word(w & CEC_MODE_INITIATOR_MSK) is None
            || CecModeFollower::spec_from_word(w & CEC_MODE_FOLLOWER_MSK) is None,
{
    let i = CecModeInitiator::from_word(w & CEC_MODE_INITIATOR_MSK);
    let f = CecModeFollower::from_word(w & CEC_MODE_FOLLOWER_MSK);
    match (i, f) {
        (Some(i), Some(f)) => Some((i, f)),
        _ => None,
    }
}

/// Whether a mode pair is admissible, per the state machine's rules:
/// the follower modes that receive for the device (all, exclusive,
/// exclusive-passthrough) demand a transmitting initiator and the
/// transmit capability; the monitor modes demand the opposite — no
/// initiator role — plus elevated privilege, and monitoring the whole
/// bus also demands the monitor-all capability.
pub open spec fn spec_check_set_mode(
    caps: Capabilities,
    privileged: bool,
    i: CecModeInitiator,
    f: CecModeFollower,
) -> Result<(), CecError> {
    match f {
        CecModeFollower::RepliesOnly => Ok(()),
        CecModeFollower::All | CecModeFollower::Exclusive | CecModeFollower::ExclusivePassthru => {
            if i is NoInitiator {
                Err(CecError::InvalidMode)
            } else if !caps.spec_contains(CAP_TRANSMIT) {
                Err(CecError::Unsupported)
            } else {
                Ok(())
            }
        },
        CecModeFollower::Monitor => {
            if !(i is NoInitiator) {
                Err(CecError::InvalidMode)
            } else if !privileged {
                Err(CecError::Unsupported)
            } else {
                Ok(())
            }
        },
        CecModeFollower::MonitorAll => {
            if !(i is NoInitiator) {
                Err(CecError::InvalidMode)
            } else if !privileged || !caps.spec_contains(CAP_MONITOR_ALL) {
                Err(CecError::Unsupported)
            } else {
                Ok(())
            }
        },
    }
}

/// Check a requested mode pair against the adapter's capabilities and
/// the caller's privilege.
pub fn check_set_mode(
    caps: Capabilities,
    privileged: bool,
    i: CecModeInitiator,
    f: CecModeFollower,
) -> (r: Result<(), CecError>)
    ensures
        r == spec_check_set_mode(caps, privileged, i, f),
{
    match f {
        CecModeFollower::RepliesOnly => Ok(()),
        CecModeFollower::All | CecModeFollower::Exclusive | CecModeFollower::ExclusivePassthru => {
            if matches!(i, CecModeInitiator::NoInitiator) {
                Err(CecError::InvalidMode)
            } else if !caps.contains(CAP_TRANSMIT) {
                Err(CecError::Unsupported)
            } else {
                Ok(())
            }
        },
        CecModeFollower::Monitor => {
            if !matches!(i, CecModeInitiator::NoInitiator) {
                Err(CecError::InvalidMode)
            } else if !privileged {
                Err(CecError::Unsupported)
            } else {
                Ok(())
            }
        },
        CecModeFollower::MonitorAll => {
            if !matches!(i, CecModeInitiator::NoInitiator) {
                Err(CecError::InvalidMode)
            } else if !privileged || !caps.contains(CAP_MONITOR_ALL) {
                Err(CecError::Unsupported)
            } else {
                Ok(())
            }
        },
    }
}

} // verus!
