//! Adapter notifications: state changes and lost-message counts.
//!
//! Each event kind has its own single-slot, latest-wins queue on the
//! transport side: a slow consumer loses intermediate values but always
//! sees the most recent one, and is owed one further event whenever the
//! state changed between two reads.

use vstd::prelude::*;
use crate::addr::CecLogAddrMask;

verus! {

/// The discriminant an event record carries on the wire.
#[derive(Debug, Eq, PartialEq, Clone, Copy, Structural)]
pub enum CecEventType {
    /// The adapter's address state changed.
    StateChange,
    /// Messages were lost because the queue was not drained in time.
    LostMsgs,
}

impl CecEventType {
    /// The wire discriminant of this event kind.
    pub open spec fn spec_value(self) -> u32 {
        match self {
            CecEventType::StateChange => 1,
            CecEventType::LostMsgs => 2,
        }
    }

    /// The event kind a wire discriminant names, if any.
    pub open spec fn spec_from_word(w: u32) -> Option<CecEventType> {
        if w == 1 {
            Some(CecEventType::StateChange)
        } else if w == 2 {
            Some(CecEventType::LostMsgs)
        } else {
            None
        }
    }

    /// The wire discriminant of this event kind.
    #[verifier::when_used_as_spec(spec_value)]
    pub fn value(self) -> (r: u32)
        ensures
            r == self.spec_value(),
    {
        match self {
            CecEventType::StateChange => 1,
            CecEventType::LostMsgs => 2,
        }
    }

    /// Decode a wire discriminant; the discriminant selects which payload
    /// reading of the event record is valid, so it is decoded first.
    pub fn from_word(w: u32) -> (r: Option<CecEventType>)
        ensures
            r == CecEventType::spec_from_word(w),
    {
        if w == 1 {
            Some(CecEventType::StateChange)
        } else if w == 2 {
            Some(CecEventType::LostMsgs)
        } else {
            None
        }
    }
}

/// The event was generated for the initial state of the adapter.
pub const EVENT_FL_INITIAL_STATE: u32 = 0x01;

/// The payload of a state-change event: where the adapter now sits in
/// the topology and which logical addresses it holds.
#[derive(Debug, Eq, PartialEq, Clone, Copy, Structural)]
pub struct CecEventStateChange {
    /// The current physical address; the all-ones marker when unassigned.
    pub phys_addr: u16,
    /// The current set of claimed logical addresses; zero when none are
    /// claimed or the physical address is unassigned.
    pub log_addr_mask: CecLogAddrMask,
}

/// The payload of a lost-messages event.
#[derive(Debug, Eq, PartialEq, Clone, Copy, Structural)]
pub struct CecEventLostMsgs {
    /// How many messages were lost.
    pub lost_msgs: u32,
}

/// One adapter notification, already keyed by its discriminant.
#[derive(Debug, Eq, PartialEq, Clone, Copy, Structural)]
pub enum CecEvent {
    /// The adapter's address state changed, including changes this
    /// process itself caused.
    StateChange(CecEventStateChange),
    /// Messages were lost to a full queue.
    LostMsgs(CecEventLostMsgs),
}

impl CecEvent {
    /// The wire discriminant this event would carry.
    pub open spec fn spec_event_type(&self) -> CecEventType {
        match self {
            CecEvent::StateChange(_) => CecEventType::StateChange,
            CecEvent::LostMsgs(_) => CecEventType::LostMsgs,
        }
    }

    /// The wire discriminant this event would carry.
    #[verifier::when_used_as_spec(spec_event_type)]
    pub fn event_type(&self) -> (r: CecEventType)
        ensures
            r == self.spec_event_type(),
    {
        match self {
            CecEvent::StateChange(_) => CecEventType::StateChange,
            CecEvent::LostMsgs(_) => CecEventType::LostMsgs,
        }
    }
}

} // verus!
