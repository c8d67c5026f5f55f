//! The mode and address state machine of one adapter session: what each
//! operation may do in the current state, and what state it leaves
//! behind. The transport performs the operations; the decisions and the
//! bookkeeping live here.

use vstd::prelude::*;
use crate::addr::CecLogAddrMask;
use crate::addr::CecPhysicalAddress;
use crate::caps::CAP_LOG_ADDRS;
use crate::caps::CAP_PHYS_ADDR;
use crate::caps::Capabilities;
use crate::event::CecEventStateChange;
use crate::logaddrs::CecLogAddrs;
use crate::mode::CecModeFollower;
use crate::mode::CecModeInitiator;
use crate::mode::spec_check_set_mode;
use crate::mode::check_set_mode;
use crate::status::CecError;

verus! {

/// Where an adapter stands in its configuration lifecycle. The path runs
/// unconfigured, then physical address set, then logical addresses
/// claimed; claims are only reached through a state-change report, never
/// directly from unconfigured.
#[derive(Debug, Eq, PartialEq, Clone, Copy, Structural)]
pub enum AdapterConfigState {
    /// No identity: no claims, and possibly no topology position.
    Unconfigured,
    /// A topology position is set; no logical address is claimed yet.
    PhysicalAddressSet,
    /// At least one logical address is claimed.
    LogicalAddressesClaimed,
}

/// One session's view of its adapter: capabilities, the negotiation
/// roles of the handle, and the address state.
#[derive(Debug, Eq, PartialEq, Clone, Copy, Structural)]
pub struct AdapterState {
    /// What the adapter exposes.
    pub caps: Capabilities,
    /// The handle's sending role.
    pub initiator: CecModeInitiator,
    /// The handle's processing role.
    pub follower: CecModeFollower,
    /// The current topology position; the all-ones marker when unset.
    pub phys: CecPhysicalAddress,
    /// The claimed logical addresses.
    pub claimed: CecLogAddrMask,
    /// Whether logical address types have been defined on the adapter.
    pub log_addrs_defined: bool,
    /// Where the adapter stands in its lifecycle.
    pub config: AdapterConfigState,
}

impl AdapterState {
    /// The state is consistent: the lifecycle stage, the claimed mask and
    /// the topology position agree — claims exist exactly in the claimed
    /// stage, claims presuppose a topology position and defined address
    /// types, and the middle stage holds a position but no claim.
    pub open spec fn wf(&self) -> bool {
        &&& (self.config is LogicalAddressesClaimed <==> self.claimed.bits != 0)
        &&& (self.config is PhysicalAddressSet ==> !self.phys.spec_is_invalid())
        &&& (self.claimed.bits != 0 ==> !self.phys.spec_is_invalid() && self.log_addrs_defined)
    }

    /// A fresh session on an adapter with the given capabilities: the
    /// default roles, no topology position, no claims.
    pub fn new(caps: Capabilities) -> (r: AdapterState)
        ensures
            r.wf(),
            r.caps == caps,
            r.initiator == CecModeInitiator::Send,
            r.follower == CecModeFollower::RepliesOnly,
            r.phys.spec_is_invalid(),
            r.claimed.bits == 0,
            !r.log_addrs_defined,
            r.config == AdapterConfigState::Unconfigured,
    {
        AdapterState {
            caps,
            initiator: CecModeInitiator::Send,
            follower: CecModeFollower::RepliesOnly,
            phys: CecPhysicalAddress::invalid(),
            claimed: CecLogAddrMask::empty(),
            log_addrs_defined: false,
            config: AdapterConfigState::Unconfigured,
        }
    }

    /// Reassign the handle's negotiation roles. Succeeds exactly when the
    /// requested pair passes the mode rules for this adapter and this
    /// caller's privilege; on failure nothing changes.
    pub fn set_mode(
        &mut self,
        privileged: bool,
        initiator: CecModeInitiator,
        follower: CecModeFollower,
    ) -> (r: Result<(), CecError>)
        ensures
            r == spec_check_set_mode(old(self).caps, privileged, initiator, follower),
            r is Ok ==> *final(self) == (AdapterState {
                initiator,
                follower,
                ..*old(self)
            }),
            r is Err ==> *final(self) == *old(self),
            old(self).wf() ==> final(self).wf(),
    {
        let check = check_set_mode(self.caps, privileged, initiator, follower);
        if check.is_ok() {
            self.initiator = initiator;
            self.follower = follower;
        }
        check
    }

    /// Set or clear the adapter's topology position. Demands the
    /// physical-address capability and a transmitting initiator role.
    /// The unassigned marker clears the position and every claim,
    /// returning the adapter to unconfigured; a real position moves the
    /// adapter to the physical-address-set stage, and any logical
    /// addresses already requested are reclaimed against it, observable
    /// through the event stream. On failure nothing changes.
    pub fn set_phys(&mut self, addr: CecPhysicalAddress) -> (r: Result<(), CecError>)
        ensures
            r is Ok <==> old(self).caps.spec_contains(CAP_PHYS_ADDR) && !(old(
                self,
            ).initiator is NoInitiator),
            r matches Err(e) ==> e == (if !old(self).caps.spec_contains(CAP_PHYS_ADDR) {
                CecError::Unsupported
            } else {
                CecError::Busy
            }) && *final(self) == *old(self),
            r is Ok && addr.spec_is_invalid() ==> *final(self) == (AdapterState {
                phys: addr,
                claimed: (CecLogAddrMask { bits: 0 }),
                config: AdapterConfigState::Unconfigured,
                ..*old(self)
            }),
            r is Ok && !addr.spec_is_invalid() ==> *final(self) == (AdapterState {
                phys: addr,
                claimed: (CecLogAddrMask { bits: 0 }),
                config: AdapterConfigState::PhysicalAddressSet,
                ..*old(self)
            }),
            old(self).wf() ==> final(self).wf(),
    {
        if !self.caps.contains(CAP_PHYS_ADDR) {
            return Err(CecError::Unsupported);
        }
        if matches!(self.initiator, CecModeInitiator::NoInitiator) {
            return Err(CecError::Busy);
        }
        self.phys = addr;
        self.claimed = CecLogAddrMask::empty();
        if addr.is_invalid() {
            self.config = AdapterConfigState::Unconfigured;
        } else {
            self.config = AdapterConfigState::PhysicalAddressSet;
        }
        Ok(())
    }

    /// Submit a logical-address request. Demands the logical-address
    /// capability and a transmitting initiator role; a request for
    /// addresses while types are already defined is a role conflict. A
    /// request for zero addresses clears every claim and returns the
    /// adapter to unconfigured. A real request defines the address
    /// types; the claims themselves complete against the topology
    /// position and arrive through the event stream, so no stage is
    /// skipped on the way to claimed. On failure nothing changes.
    pub fn set_log(&mut self, desired: &CecLogAddrs) -> (r: Result<(), CecError>)
        ensures
            r is Ok <==> old(self).caps.spec_contains(CAP_LOG_ADDRS) && !(old(
                self,
            ).initiator is NoInitiator) && !(desired.num_log_addrs > 0 && old(
                self,
            ).log_addrs_defined),
            r matches Err(e) ==> e == (if !old(self).caps.spec_contains(CAP_LOG_ADDRS) {
                CecError::Unsupported
            } else {
                CecError::Busy
            }) && *final(self) == *old(self),
            r is Ok && desired.num_log_addrs == 0 ==> *final(self) == (AdapterState {
                claimed: (CecLogAddrMask { bits: 0 }),
                log_addrs_defined: false,
                config: AdapterConfigState::Unconfigured,
                ..*old(self)
            }),
            r is Ok && desired.num_log_addrs > 0 ==> *final(self) == (AdapterState {
                log_addrs_defined: true,
                ..*old(self)
            }),
            old(self).wf() ==> final(self).wf(),
    {
        if !self.caps.contains(CAP_LOG_ADDRS) {
            return Err(CecError::Unsupported);
        }
        if matches!(self.initiator, CecModeInitiator::NoInitiator) {
            return Err(CecError::Busy);
        }
        if desired.num_log_addrs > 0 && self.log_addrs_defined {
            return Err(CecError::Busy);
        }
        if desired.num_log_addrs == 0 {
            self.claimed = CecLogAddrMask::empty();
            self.log_addrs_defined = false;
            self.config = AdapterConfigState::Unconfigured;
        } else {
            self.log_addrs_defined = true;
        }
        Ok(())
    }

    /// Fold a state-change report into the session's view. The report
    /// gives the current position and claim mask; a mask is only
    /// credited against a real position, and a non-empty mask means the
    /// adapter has address types defined.
    pub fn apply_state_change(&mut self, change: CecEventStateChange)
        ensures
            final(self).phys == (CecPhysicalAddress { raw: change.phys_addr }),
            final(self).claimed == (if change.phys_addr == 0xffffu16 {
                CecLogAddrMask { bits: 0 }
            } else {
                change.log_addr_mask
            }),
            final(self).log_addrs_defined == (old(self).log_addrs_defined || final(self).claimed.bits
                != 0),
            final(self).config == (if final(self).claimed.bits != 0 {
                AdapterConfigState::LogicalAddressesClaimed
            } else if change.phys_addr != 0xffffu16 {
                AdapterConfigState::PhysicalAddressSet
            } else {
                AdapterConfigState::Unconfigured
            }),
            final(self).caps == old(self).caps,
            final(self).initiator == old(self).initiator,
            final(self).follower == old(self).follower,
            final(self).wf(),
    {
        self.phys = CecPhysicalAddress { raw: change.phys_addr };
        if change.phys_addr == 0xffff {
            self.claimed = CecLogAddrMask::empty();
        } else {
            self.claimed = change.log_addr_mask;
        }
        if self.claimed.bits != 0 {
            self.log_addrs_defined = true;
        }
        if self.claimed.bits != 0 {
            self.config = AdapterConfigState::LogicalAddressesClaimed;
        } else if change.phys_addr != 0xffff {
            self.config = AdapterConfigState::PhysicalAddressSet;
        } else {
            self.config = AdapterConfigState::Unconfigured;
        }
    }
}

} // verus!
