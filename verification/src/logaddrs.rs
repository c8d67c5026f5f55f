//! The logical-address request a session submits, and the vocabulary
//! that goes into it.

use vstd::prelude::*;
use crate::addr::CecLogAddrMask;
use crate::addr::CecLogicalAddress;
use crate::osd::OSDStr;

verus! {

/// At most this many logical addresses can be claimed by one device.
pub const CEC_MAX_LOG_ADDRS: usize = 4;

/// The marker to use when no vendor id is set.
pub const CEC_VENDOR_ID_NONE: u32 = 0xffffffff;

/// The protocol version a device implements or reports.
#[derive(Debug, Eq, PartialEq, Clone, Copy, Structural)]
pub enum Version {
    V1_3A,
    V1_4,
    V2_0,
}

impl Version {
    /// The wire byte of this value.
    pub open spec fn spec_value(self) -> u8 {
        match self {
            Version::V1_3A => 4,
            Version::V1_4 => 5,
            Version::V2_0 => 6,
        }
    }

    /// The value a wire byte decodes to, if it is in the table.
    pub open spec fn spec_from_byte(b: u8) -> Option<Version> {
        if b == 4 {
            Some(Version::V1_3A)
        } else if b == 5 {
            Some(Version::V1_4)
        } else if b == 6 {
            Some(Version::V2_0)
        } else {
            None
        }
    }

    /// The wire byte of this value.
    #[verifier::when_used_as_spec(spec_value)]
    pub fn value(self) -> (r: u8)
        ensures
            r == self.spec_value(),
    {
        match self {
            Version::V1_3A => 4,
            Version::V1_4 => 5,
            Version::V2_0 => 6,
        }
    }

    /// Decode a wire byte; `None` when the byte is not in the table.
    pub fn from_byte(b: u8) -> (r: Option<Version>)
        ensures
            r == Version::spec_from_byte(b),
    {
        if b == 4 {
            Some(Version::V1_3A)
        } else if b == 5 {
            Some(Version::V1_4)
        } else if b == 6 {
            Some(Version::V2_0)
        } else {
            None
        }
    }
}

/// The primary device type announced for a claimed address.
#[derive(Debug, Eq, PartialEq, Clone, Copy, Structural)]
pub enum CecPrimDevType {
    TV,
    RECORD,
    TUNER,
    PLAYBACK,
    AUDIOSYSTEM,
    SWITCH,
    PROCESSOR,
}

impl CecPrimDevType {
    /// The wire byte of this value.
    pub open spec fn spec_value(self) -> u8 {
        match self {
            CecPrimDevType::TV => 0,
            CecPrimDevType::RECORD => 1,
            CecPrimDevType::TUNER => 3,
            CecPrimDevType::PLAYBACK => 4,
            CecPrimDevType::AUDIOSYSTEM => 5,
            CecPrimDevType::SWITCH => 6,
            CecPrimDevType::PROCESSOR => 7,
        }
    }

    /// The value a wire byte decodes to, if it is in the table.
    pub open spec fn spec_from_byte(b: u8) -> Option<CecPrimDevType> {
        if b == 0 {
            Some(CecPrimDevType::TV)
        } else if b == 1 {
            Some(CecPrimDevType::RECORD)
        } else if b == 3 {
            Some(CecPrimDevType::TUNER)
        } else if b == 4 {
            Some(CecPrimDevType::PLAYBACK)
        } else if b == 5 {
            Some(CecPrimDevType::AUDIOSYSTEM)
        } else if b == 6 {
            Some(CecPrimDevType::SWITCH)
        } else if b == 7 {
            Some(CecPrimDevType::PROCESSOR)
        } else {
            None
        }
    }

    /// The wire byte of this value.
    #[verifier::when_used_as_spec(spec_value)]
    pub fn value(self) -> (r: u8)
        ensures
            r == self.spec_value(),
    {
        match self {
            CecPrimDevType::TV => 0,
            CecPrimDevType::RECORD => 1,
            CecPrimDevType::TUNER => 3,
            CecPrimDevType::PLAYBACK => 4,
            CecPrimDevType::AUDIOSYSTEM => 5,
            CecPrimDevType::SWITCH => 6,
            CecPrimDevType::PROCESSOR => 7,
        }
    }

    /// Decode a wire byte; `None` when the byte is not in the table.
    pub fn from_byte(b: u8) -> (r: Option<CecPrimDevType>)
        ensures
            r == CecPrimDevType::spec_from_byte(b),
    {
        if b == 0 {
            Some(CecPrimDevType::TV)
        } else if b == 1 {
            Some(CecPrimDevType::RECORD)
        } else if b == 3 {
            Some(CecPrimDevType::TUNER)
        } else if b == 4 {
            Some(CecPrimDevType::PLAYBACK)
        } else if b == 5 {
            Some(CecPrimDevType::AUDIOSYSTEM)
        } else if b == 6 {
            Some(CecPrimDevType::SWITCH)
        } else if b == 7 {
            Some(CecPrimDevType::PROCESSOR)
        } else {
            None
        }
    }
}

/// The kind of logical address a device asks the adapter to claim.
#[derive(Debug, Eq, PartialEq, Clone, Copy, Structural)]
pub enum CecLogAddrType {
    TV,
    RECORD,
    TUNER,
    PLAYBACK,
    AUDIOSYSTEM,
    SPECIFIC,
    UNREGISTERED,
}

impl CecLogAddrType {
    /// The wire byte of this value.
    pub open spec fn spec_value(self) -> u8 {
        match self {
            CecLogAddrType::TV => 0,
            CecLogAddrType::RECORD => 1,
            CecLogAddrType::TUNER => 2,
            CecLogAddrType::PLAYBACK => 3,
            CecLogAddrType::AUDIOSYSTEM => 4,
            CecLogAddrType::SPECIFIC => 5,
            CecLogAddrType::UNREGISTERED => 6,
        }
    }

    /// The value a wire byte decodes to, if it is in the table.
    pub open spec fn spec_from_byte(b: u8) -> Option<CecLogAddrType> {
        if b == 0 {
            Some(CecLogAddrType::TV)
        } else if b == 1 {
            Some(CecLogAddrType::RECORD)
        } else if b == 2 {
            Some(CecLogAddrType::TUNER)
        } else if b == 3 {
            Some(CecLogAddrType::PLAYBACK)
        } else if b == 4 {
            Some(CecLogAddrType::AUDIOSYSTEM)
        } else if b == 5 {
            Some(CecLogAddrType::SPECIFIC)
        } else if b == 6 {
            Some(CecLogAddrType::UNREGISTERED)
        } else {
            None
        }
    }

    /// The wire byte of this value.
    #[verifier::when_used_as_spec(spec_value)]
    pub fn value(self) -> (r: u8)
        ensures
            r == self.spec_value(),
    {
        match self {
            CecLogAddrType::TV => 0,
            CecLogAddrType::RECORD => 1,
            CecLogAddrType::TUNER => 2,
            CecLogAddrType::PLAYBACK => 3,
            CecLogAddrType::AUDIOSYSTEM => 4,
            CecLogAddrType::SPECIFIC => 5,
            CecLogAddrType::UNREGISTERED => 6,
        }
    }

    /// Decode a wire byte; `None` when the byte is not in the table.
    pub fn from_byte(b: u8) -> (r: Option<CecLogAddrType>)
        ensures
            r == CecLogAddrType::spec_from_byte(b),
    {
        if b == 0 {
            Some(CecLogAddrType::TV)
        } else if b == 1 {
            Some(CecLogAddrType::RECORD)
        } else if b == 2 {
            Some(CecLogAddrType::TUNER)
        } else if b == 3 {
            Some(CecLogAddrType::PLAYBACK)
        } else if b == 4 {
            Some(CecLogAddrType::AUDIOSYSTEM)
        } else if b == 5 {
            Some(CecLogAddrType::SPECIFIC)
        } else if b == 6 {
            Some(CecLogAddrType::UNREGISTERED)
        } else {
            None
        }
    }
}

/// A three-byte IEEE OUI vendor identifier, as it travels in message
/// parameters, most significant byte first.
#[derive(Debug, Clone, Copy)]
pub struct VendorID {
    pub bytes: [u8; 3],
}

impl VendorID {
    /// The identifier as the 24-bit number the adapter structures hold.
    pub fn to_u32(&self) -> (r: u32)
        ensures
            r == self.bytes@[0] * 0x10000 + self.bytes@[1] * 0x100 + self.bytes@[2],
    {
        (self.bytes[0] as u32) * 0x10000 + (self.bytes[1] as u32) * 0x100 + (self.bytes[2] as u32)
    }
}

/// If no address of a requested type can be claimed, fall back to the
/// unregistered address instead of going unconfigured.
pub const LOG_ADDR_FL_ALLOW_UNREG_FALLBACK: u32 = 0x01;

/// Flag bits of a logical-address request.
#[derive(Debug, Eq, PartialEq, Clone, Copy, Structural)]
pub struct CecLogAddrFlags {
    pub bits: u32,
}

impl CecLogAddrFlags {
    /// No flag set.
    pub fn empty() -> (r: CecLogAddrFlags)
        ensures
            r.bits == 0u32,
    {
        CecLogAddrFlags { bits: 0 }
    }
}

/// The logical addresses that a sequence of claimed-address bytes names:
/// each byte below 16 is a claimed role, in order; anything else (the
/// invalid-address marker) is passed over.
pub open spec fn spec_addresses(s: Seq<u8>) -> Seq<CecLogicalAddress>
    decreases s.len(),
{
    if s.len() == 0 {
        Seq::empty()
    } else {
        let rest = spec_addresses(s.drop_last());
        if s.last() < 16 {
            rest.push(CecLogicalAddress::spec_from_nibble(s.last()))
        } else {
            rest
        }
    }
}

/// A session's logical identity: the fields the caller sets to request
/// claims — protocol version, vendor id, display name, and up to four
/// (device type, address type) pairs — and the fields the driver fills
/// back in once claims complete — the claimed addresses and their mask.
/// Submitting a request for zero addresses clears every claim.
#[derive(Debug, Clone, Copy)]
pub struct CecLogAddrs {
    /// The claimed logical addresses; driver-set.
    pub log_addr: [u8; 4],
    /// The mask of all claimed addresses; driver-set.
    pub log_addr_mask: CecLogAddrMask,
    /// The protocol version the adapter should implement; caller-set.
    pub cec_version: Version,
    /// How many logical addresses to claim; caller-set. Zero clears all
    /// claims. The driver reports back how many it could claim, which
    /// may be fewer.
    pub num_log_addrs: u8,
    /// The vendor id of the device; caller-set.
    pub vendor_id: u32,
    /// Request flags; caller-set.
    pub flags: CecLogAddrFlags,
    /// The on-screen display name of the device; caller-set.
    pub osd_name: OSDStr<15>,
    /// The primary device type for each requested address; caller-set.
    pub primary_device_type: [CecPrimDevType; 4],
    /// The kind of each requested address; caller-set.
    pub log_addr_type: [CecLogAddrType; 4],
    /// All device types each address represents; caller-set.
    pub all_device_types: [u8; 4],
    /// The feature bytes of each address; caller-set.
    pub features: [[u8; 4]; 12],
}

impl CecLogAddrs {
    /// A request is well formed when it asks for no more addresses than
    /// one device can hold.
    pub open spec fn wf(&self) -> bool {
        self.num_log_addrs <= 4
    }

    /// A request for the given identity: `prim` and `kinds` pair up the
    /// primary device type and the address kind of each requested
    /// address. The driver-set fields start cleared.
    pub fn new(
        vendor_id: u32,
        cec_version: Version,
        osd_name: OSDStr<15>,
        prim: &[CecPrimDevType],
        kinds: &[CecLogAddrType],
    ) -> (r: CecLogAddrs)
        requires
            prim@.len() == kinds@.len(),
            1 <= prim@.len() <= 4,
        ensures
            r.wf(),
            r.num_log_addrs == prim@.len(),
            r.cec_version == cec_version,
            r.vendor_id == vendor_id,
            r.osd_name == osd_name,
            r.flags.bits == 0,
            r.log_addr@ =~= seq![0u8, 0u8, 0u8, 0u8],
            r.log_addr_mask.bits == 0,
            forall|i: int| 0 <= i < prim@.len() ==> r.primary_device_type@[i] == prim@[i],
            forall|i: int| 0 <= i < kinds@.len() ==> r.log_addr_type@[i] == kinds@[i],
    {
        let mut primary_device_type: [CecPrimDevType; 4] = [CecPrimDevType::PLAYBACK; 4];
        let mut log_addr_type: [CecLogAddrType; 4] = [CecLogAddrType::PLAYBACK; 4];
        let n = prim.len();
        let mut i: usize = 0;
        while i < n
            invariant
                n == prim@.len() == kinds@.len(),
                n <= 4,
                i <= n,
                primary_device_type@.len() == 4,
                log_addr_type@.len() == 4,
                forall|j: int| 0 <= j < i ==> primary_device_type@[j] == prim@[j],
                forall|j: int| 0 <= j < i ==> log_addr_type@[j] == kinds@[j],
            decreases n - i,
        {
            primary_device_type[i] = prim[i];
            log_addr_type[i] = kinds[i];
            i = i + 1;
        }
        let r = CecLogAddrs {
            log_addr: [0; 4],
            log_addr_mask: CecLogAddrMask::empty(),
            cec_version,
            num_log_addrs: n as u8,
            vendor_id,
            flags: CecLogAddrFlags::empty(),
            osd_name,
            primary_device_type,
            log_addr_type,
            all_device_types: [0; 4],
            features: [[0; 4]; 12],
        };
        proof {
            assert(r.log_addr@ =~= seq![0u8, 0u8, 0u8, 0u8]);
        }
        r
    }

    /// The claimed logical addresses the driver reported: the first
    /// `num_log_addrs` entries, read as roles, with invalid-address
    /// markers passed over.
    pub fn addresses(&self) -> (r: Vec<CecLogicalAddress>)
        requires
            self.wf(),
        ensures
            r@ == spec_addresses(self.log_addr@.take(self.num_log_addrs as int)),
    {
        let mut r: Vec<CecLogicalAddress> = Vec::new();
        let n = self.num_log_addrs as usize;
        let mut i: usize = 0;
        while i < n
            invariant
                n == self.num_log_addrs,
                n <= 4,
                i <= n,
                self.log_addr@.len() == 4,
                r@ == spec_addresses(self.log_addr@.take(i as int)),
            decreases n - i,
        {
            let b = self.log_addr[i];
            proof {
                assert(self.log_addr@.take(i + 1).drop_last() =~= self.log_addr@.take(i as int));
                assert(self.log_addr@.take(i + 1).last() == self.log_addr@[i as int]);
            }
            if b < 16 {
                r.push(CecLogicalAddress::from_nibble(b));
            }
            i = i + 1;
        }
        r
    }
}

impl Default for CecLogAddrs {
    /// The cleared request: submitting it asks the adapter to drop every
    /// claim and go unconfigured.
    fn default() -> (r: CecLogAddrs)
        ensures
            r.wf(),
            r.num_log_addrs == 0,
            r.cec_version == Version::V1_4,
            r.vendor_id == 0,
            r.flags.bits == 0,
            r.log_addr@ =~= seq![0u8, 0u8, 0u8, 0u8],
            r.log_addr_mask.bits == 0,
            r.osd_name.bytes@ =~= Seq::new(15, |i: int| 0u8),
    {
        let osd_name = OSDStr::<15>::empty();
        let r = CecLogAddrs {
            log_addr: [0; 4],
            log_addr_mask: CecLogAddrMask::empty(),
            cec_version: Version::V1_4,
            num_log_addrs: 0,
            vendor_id: 0,
            flags: CecLogAddrFlags::empty(),
            osd_name,
            primary_device_type: [CecPrimDevType::PLAYBACK; 4],
            log_addr_type: [CecLogAddrType::PLAYBACK; 4],
            all_device_types: [0; 4],
            features: [[0; 4]; 12],
        };
        proof {
            assert(r.log_addr@ =~= seq![0u8, 0u8, 0u8, 0u8]);
        }
        r
    }
}

} // verus!
