//! Logical and physical bus addresses, and the claimed-address bitmask.

use vstd::prelude::*;

verus! {

/// The 16 logical-address roles a CEC device can hold on the bus.
///
/// Every 4-bit value names a role, so decoding a raw nibble is total.
/// Value 15 doubles as the broadcast destination.
#[derive(Debug, Eq, PartialEq, Clone, Copy, Structural)]
pub enum CecLogicalAddress {
    Tv,
    Record1,
    Record2,
    Tuner1,
    Playback1,
    Audiosystem,
    Tuner2,
    Tuner3,
    Playback2,
    Record3,
    Tuner4,
    Playback3,
    Backup1,
    Backup2,
    Specific,
    /// Unregistered initiator; as a destination this is the broadcast address.
    UnregisteredBroadcast,
}

impl CecLogicalAddress {
    /// The 4-bit wire value of this role.
    pub open spec fn spec_value(self) -> u8 {
        match self {
            CecLogicalAddress::Tv => 0,
            CecLogicalAddress::Record1 => 1,
            CecLogicalAddress::Record2 => 2,
            CecLogicalAddress::Tuner1 => 3,
            CecLogicalAddress::Playback1 => 4,
            CecLogicalAddress::Audiosystem => 5,
            CecLogicalAddress::Tuner2 => 6,
            CecLogicalAddress::Tuner3 => 7,
            CecLogicalAddress::Playback2 => 8,
            CecLogicalAddress::Record3 => 9,
            CecLogicalAddress::Tuner4 => 10,
            CecLogicalAddress::Playback3 => 11,
            CecLogicalAddress::Backup1 => 12,
            CecLogicalAddress::Backup2 => 13,
            CecLogicalAddress::Specific => 14,
            CecLogicalAddress::UnregisteredBroadcast => 15,
        }
    }

    /// The role a 4-bit wire value names. Total over nibbles: every value
    /// below 16 maps to a role.
    pub open spec fn spec_from_nibble(n: u8) -> CecLogicalAddress {
        if n == 0 {
            CecLogicalAddress::Tv
        } else if n == 1 {
            CecLogicalAddress::Record1
        } else if n == 2 {
            CecLogicalAddress::Record2
        } else if n == 3 {
            CecLogicalAddress::Tuner1
        } else if n == 4 {
            CecLogicalAddress::Playback1
        } else if n == 5 {
            CecLogicalAddress::Audiosystem
        } else if n == 6 {
            CecLogicalAddress::Tuner2
        } else if n == 7 {
            CecLogicalAddress::Tuner3
        } else if n == 8 {
            CecLogicalAddress::Playback2
        } else if n == 9 {
            CecLogicalAddress::Record3
        } else if n == 10 {
            CecLogicalAddress::Tuner4
        } else if n == 11 {
            CecLogicalAddress::Playback3
        } else if n == 12 {
            CecLogicalAddress::Backup1
        } else if n == 13 {
            CecLogicalAddress::Backup2
        } else if n == 14 {
            CecLogicalAddress::Specific
        } else {
            CecLogicalAddress::UnregisteredBroadcast
        }
    }

    /// The 4-bit wire value of this role.
    #[verifier::when_used_as_spec(spec_value)]
    pub fn value(self) -> (r: u8)
        ensures
            r == self.spec_value(),
            r < 16,
    {
        match self {
            CecLogicalAddress::Tv => 0,
            CecLogicalAddress::Record1 => 1,
            CecLogicalAddress::Record2 => 2,
            CecLogicalAddress::Tuner1 => 3,
            CecLogicalAddress::Playback1 => 4,
            CecLogicalAddress::Audiosystem => 5,
            CecLogicalAddress::Tuner2 => 6,
            CecLogicalAddress::Tuner3 => 7,
            CecLogicalAddress::Playback2 => 8,
            CecLogicalAddress::Record3 => 9,
            CecLogicalAddress::Tuner4 => 10,
            CecLogicalAddress::Playback3 => 11,
            CecLogicalAddress::Backup1 => 12,
            CecLogicalAddress::Backup2 => 13,
            CecLogicalAddress::Specific => 14,
            CecLogicalAddress::UnregisteredBroadcast => 15,
        }
    }

    /// Decode a 4-bit wire value; total, since all 16 nibbles name a role.
    pub fn from_nibble(n: u8) -> (r: CecLogicalAddress)
        requires
            n < 16,
        ensures
            r == CecLogicalAddress::spec_from_nibble(n),
    {
        if n == 0 {
            CecLogicalAddress::Tv
        } else if n == 1 {
            CecLogicalAddress::Record1
        } else if n == 2 {
            CecLogicalAddress::Record2
        } else if n == 3 {
            CecLogicalAddress::Tuner1
        } else if n == 4 {
            CecLogicalAddress::Playback1
        } else if n == 5 {
            CecLogicalAddress::Audiosystem
        } else if n == 6 {
            CecLogicalAddress::Tuner2
        } else if n == 7 {
            CecLogicalAddress::Tuner3
        } else if n == 8 {
            CecLogicalAddress::Playback2
        } else if n == 9 {
            CecLogicalAddress::Record3
        } else if n == 10 {
            CecLogicalAddress::Tuner4
        } else if n == 11 {
            CecLogicalAddress::Playback3
        } else if n == 12 {
            CecLogicalAddress::Backup1
        } else if n == 13 {
            CecLogicalAddress::Backup2
        } else if n == 14 {
            CecLogicalAddress::Specific
        } else {
            CecLogicalAddress::UnregisteredBroadcast
        }
    }
}

/// Every logical address encodes to a nibble that decodes back to it.
pub proof fn lemma_logical_address_round_trip(a: CecLogicalAddress)
    ensures
        CecLogicalAddress::spec_from_nibble(a.spec_value()) == a,
        a.spec_value() < 16,
{
}

/// Every nibble decodes to a logical address that encodes back to it.
pub proof fn lemma_nibble_round_trip(n: u8)
    requires
        n < 16,
    ensures
        CecLogicalAddress::spec_from_nibble(n).spec_value() == n,
{
}

/// A 16-bit HDMI topology position: four 4-bit digits a.b.c.d.
///
/// The all-ones value means "unassigned / no sink connected"; zero is the
/// root device (the TV).
#[derive(Debug, Eq, PartialEq, Clone, Copy, Structural)]
pub struct CecPhysicalAddress {
    pub raw: u16,
}

impl CecPhysicalAddress {
    /// The unassigned marker, 0xFFFF.
    pub fn invalid() -> (r: CecPhysicalAddress)
        ensures
            r.raw == 0xffffu16,
    {
        CecPhysicalAddress { raw: 0xffff }
    }

    /// The root device (TV) address, 0.0.0.0.
    pub fn root() -> (r: CecPhysicalAddress)
        ensures
            r.raw == 0u16,
    {
        CecPhysicalAddress { raw: 0 }
    }

    pub open spec fn spec_is_invalid(&self) -> bool {
        self.raw == 0xffffu16
    }

    /// True when no sink is connected and the address is unassigned.
    #[verifier::when_used_as_spec(spec_is_invalid)]
    pub fn is_invalid(&self) -> (r: bool)
        ensures
            r == self.spec_is_invalid(),
    {
        self.raw == 0xffff
    }

    /// The four topology digits, most significant first.
    pub fn digits(&self) -> (r: (u8, u8, u8, u8))
        ensures
            r.0 == self.raw / 0x1000 % 16,
            r.1 == self.raw / 0x100 % 16,
            r.2 == self.raw / 0x10 % 16,
            r.3 == self.raw % 16,
    {
        let raw = self.raw;
        let a = (raw >> 12) as u8;
        let b = ((raw >> 8) & 0xf) as u8;
        let c = ((raw >> 4) & 0xf) as u8;
        let d = (raw & 0xf) as u8;
        proof {
            assert(raw >> 12 == raw / 0x1000 % 16 && (raw >> 8) & 0xf == raw / 0x100 % 16 && (raw
                >> 4) & 0xf == raw / 0x10 % 16 && raw & 0xf == raw % 16 && raw >> 12 < 16 && (raw
                >> 8) & 0xf < 16 && (raw >> 4) & 0xf < 16 && raw & 0xf < 16) by (bit_vector);
        }
        (a, b, c, d)
    }

    /// The address as two big-endian wire bytes, as it travels in message
    /// parameters.
    pub fn to_be_bytes(&self) -> (r: [u8; 2])
        ensures
            r@ == seq![(self.raw / 0x100) as u8, (self.raw % 0x100) as u8],
    {
        let raw = self.raw;
        let hi = (raw >> 8) as u8;
        let lo = (raw & 0xff) as u8;
        proof {
            assert(raw >> 8 == raw / 0x100 && raw & 0xff == raw % 0x100 && raw >> 8 < 256 && raw
                & 0xff < 256) by (bit_vector);
            assert(seq![hi, lo] =~= seq![(self.raw / 0x100) as u8, (self.raw % 0x100) as u8]);
        }
        [hi, lo]
    }

    /// Reassemble an address from its two big-endian wire bytes.
    pub fn from_be_bytes(hi: u8, lo: u8) -> (r: CecPhysicalAddress)
        ensures
            r.raw == hi * 0x100 + lo,
    {
        CecPhysicalAddress { raw: (hi as u16) * 0x100 + (lo as u16) }
    }
}

/// The bitmask of all logical addresses an adapter has claimed.
///
/// Bit `n` stands for the logical address with wire value `n`; a mask of
/// zero means the adapter is unconfigured.
#[derive(Debug, Eq, PartialEq, Clone, Copy, Structural)]
pub struct CecLogAddrMask {
    pub bits: u16,
}

impl CecLogAddrMask {
    /// The empty mask: no address claimed, adapter unconfigured.
    pub fn empty() -> (r: CecLogAddrMask)
        ensures
            r.bits == 0u16,
    {
        CecLogAddrMask { bits: 0 }
    }

    pub open spec fn spec_claims(self, a: CecLogicalAddress) -> bool {
        self.bits >> a.spec_value() & 1u16 == 1u16
    }

    /// True when the mask holds the claim on logical address `a`.
    pub fn claims(&self, a: CecLogicalAddress) -> (r: bool)
        ensures
            r == self.spec_claims(a),
    {
        let v = a.value();
        (self.bits >> (v as u16)) & 1 == 1
    }

    pub open spec fn spec_is_playback(self) -> bool {
        self.bits & 0x0910u16 != 0u16
    }

    /// True when a playback-role address is claimed.
    pub fn is_playback(&self) -> (r: bool)
        ensures
            r == self.spec_is_playback(),
            r == (self.spec_claims(CecLogicalAddress::Playback1) || self.spec_claims(
                CecLogicalAddress::Playback2,
            ) || self.spec_claims(CecLogicalAddress::Playback3)),
    {
        proof {
            lemma_mask_group(self.bits);
        }
        self.bits & 0x0910 != 0
    }

    pub open spec fn spec_is_record(self) -> bool {
        self.bits & 0x0206u16 != 0u16
    }

    /// True when a recording-role address is claimed.
    pub fn is_record(&self) -> (r: bool)
        ensures
            r == self.spec_is_record(),
            r == (self.spec_claims(CecLogicalAddress::Record1) || self.spec_claims(
                CecLogicalAddress::Record2,
            ) || self.spec_claims(CecLogicalAddress::Record3)),
    {
        proof {
            lemma_mask_group(self.bits);
        }
        self.bits & 0x0206 != 0
    }

    pub open spec fn spec_is_tuner(self) -> bool {
        self.bits & 0x04c8u16 != 0u16
    }

    /// True when a tuner-role address is claimed.
    pub fn is_tuner(&self) -> (r: bool)
        ensures
            r == self.spec_is_tuner(),
            r == (self.spec_claims(CecLogicalAddress::Tuner1) || self.spec_claims(
                CecLogicalAddress::Tuner2,
            ) || self.spec_claims(CecLogicalAddress::Tuner3) || self.spec_claims(
                CecLogicalAddress::Tuner4,
            )),
    {
        proof {
            lemma_mask_group(self.bits);
        }
        self.bits & 0x04c8 != 0
    }

    pub open spec fn spec_is_backup(self) -> bool {
        self.bits & 0x3000u16 != 0u16
    }

    /// True when a backup-role address is claimed.
    pub fn is_backup(&self) -> (r: bool)
        ensures
            r == self.spec_is_backup(),
            r == (self.spec_claims(CecLogicalAddress::Backup1) || self.spec_claims(
                CecLogicalAddress::Backup2,
            )),
    {
        proof {
            lemma_mask_group(self.bits);
        }
        self.bits & 0x3000 != 0
    }
}

/// Each role-group test over the mask agrees with claim-by-claim reads of
/// the single bits that make the group up.
proof fn lemma_mask_group(bits: u16)
    ensures
        (bits & 0x0910u16 != 0u16) == (bits >> 4u16 & 1u16 == 1u16 || bits >> 8u16 & 1u16 == 1u16
            || bits >> 11u16 & 1u16 == 1u16),
        (bits & 0x0206u16 != 0u16) == (bits >> 1u16 & 1u16 == 1u16 || bits >> 2u16 & 1u16 == 1u16
            || bits >> 9u16 & 1u16 == 1u16),
        (bits & 0x04c8u16 != 0u16) == (bits >> 3u16 & 1u16 == 1u16 || bits >> 6u16 & 1u16 == 1u16
            || bits >> 7u16 & 1u16 == 1u16 || bits >> 10u16 & 1u16 == 1u16),
        (bits & 0x3000u16 != 0u16) == (bits >> 12u16 & 1u16 == 1u16 || bits >> 13u16 & 1u16
            == 1u16),
{
    assert((bits & 0x0910u16 != 0u16) == (bits >> 4u16 & 1u16 == 1u16 || bits >> 8u16 & 1u16
        == 1u16 || bits >> 11u16 & 1u16 == 1u16)) by (bit_vector);
    assert((bits & 0x0206u16 != 0u16) == (bits >> 1u16 & 1u16 == 1u16 || bits >> 2u16 & 1u16
        == 1u16 || bits >> 9u16 & 1u16 == 1u16)) by (bit_vector);
    assert((bits & 0x04c8u16 != 0u16) == (bits >> 3u16 & 1u16 == 1u16 || bits >> 6u16 & 1u16
        == 1u16 || bits >> 7u16 & 1u16 == 1u16 || bits >> 10u16 & 1u16 == 1u16)) by (bit_vector);
    assert((bits & 0x3000u16 != 0u16) == (bits >> 12u16 & 1u16 == 1u16 || bits >> 13u16 & 1u16
        == 1u16)) by (bit_vector);
}

} // verus!
