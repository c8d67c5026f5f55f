//! What an adapter exposes: its capability bits and its self-description.

use vstd::prelude::*;
use crate::osd::OSDStr;

verus! {

/// Userspace has to configure the physical address.
pub const CAP_PHYS_ADDR: u32 = 0x01;

/// Userspace has to configure the logical addresses.
pub const CAP_LOG_ADDRS: u32 = 0x02;

/// This handle may transmit messages, and so become a follower as well.
pub const CAP_TRANSMIT: u32 = 0x04;

/// A passthrough follower mode is available: userspace may answer core
/// messages itself.
pub const CAP_PASSTHROUGH: u32 = 0x08;

/// Remote control is supported.
pub const CAP_RC: u32 = 0x10;

/// The hardware can monitor all bus traffic, not just directed and
/// broadcast messages.
pub const CAP_MONITOR_ALL: u32 = 0x20;

/// The capability bits of an adapter.
#[derive(Debug, Eq, PartialEq, Clone, Copy, Structural)]
pub struct Capabilities {
    pub bits: u32,
}

impl Capabilities {
    /// No capability.
    pub fn empty() -> (r: Capabilities)
        ensures
            r.bits == 0u32,
    {
        Capabilities { bits: 0 }
    }

    /// The given capability bits.
    pub fn from_bits(bits: u32) -> (r: Capabilities)
        ensures
            r.bits == bits,
    {
        Capabilities { bits }
    }

    pub open spec fn spec_contains(&self, flags: u32) -> bool {
        self.bits & flags == flags
    }

    /// True when every bit of `flags` is present.
    #[verifier::when_used_as_spec(spec_contains)]
    pub fn contains(&self, flags: u32) -> (r: bool)
        ensures
            r == self.spec_contains(flags),
    {
        self.bits & flags == flags
    }
}

/// An adapter's self-description: driver and device names, how many
/// logical addresses it offers, its capability bits, and the version of
/// the framework behind it.
#[derive(Debug, Clone, Copy)]
pub struct CecCaps {
    /// Name of the device driver.
    pub driver: OSDStr<32>,
    /// Name of the device; driver plus name is unique.
    pub name: OSDStr<32>,
    /// How many logical addresses this adapter can claim.
    pub available_log_addrs: u32,
    /// The capability bits.
    pub capabilities: Capabilities,
    /// Version of the adapter framework.
    pub version: u32,
}

impl CecCaps {
    /// An adapter description with the given fields.
    pub fn new(
        driver: OSDStr<32>,
        name: OSDStr<32>,
        available_log_addrs: u32,
        capabilities: Capabilities,
        version: u32,
    ) -> (r: CecCaps)
        ensures
            r.driver == driver,
            r.name == name,
            r.available_log_addrs == available_log_addrs,
            r.capabilities == capabilities,
            r.version == version,
    {
        CecCaps { driver, name, available_log_addrs, capabilities, version }
    }

    /// How many logical addresses this adapter can claim.
    pub fn available_log_addrs(&self) -> (r: u32)
        ensures
            r == self.available_log_addrs,
    {
        self.available_log_addrs
    }

    /// The capability bits.
    pub fn capabilities(&self) -> (r: Capabilities)
        ensures
            r == self.capabilities,
    {
        self.capabilities
    }
}

impl Default for CecCaps {
    /// The blank description: empty names, no addresses, no capability.
    fn default() -> (r: CecCaps)
        ensures
            r.available_log_addrs == 0,
            r.capabilities.bits == 0,
            r.version == 0,
            r.driver.bytes@ =~= Seq::new(32, |i: int| 0u8),
            r.name.bytes@ =~= Seq::new(32, |i: int| 0u8),
    {
        CecCaps {
            driver: OSDStr::<32>::empty(),
            name: OSDStr::<32>::empty(),
            available_log_addrs: 0,
            capabilities: Capabilities::empty(),
            version: 0,
        }
    }
}

} // verus!
