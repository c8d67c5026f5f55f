//! The bus message and the codec between typed fields and the fixed
//! 16-byte wire buffer.

use vstd::prelude::*;
use crate::addr::CecLogicalAddress;
use crate::opcode::CecOpcode;
use crate::opcode::lemma_opcode_round_trip;
use crate::addr::lemma_logical_address_round_trip;
use crate::status::CecError;
use crate::status::RxStatus;
use crate::status::TxStatus;
use crate::status::spec_is_successful;
use vstd::arithmetic::div_mod::lemma_fundamental_div_mod_converse;
use vstd::slice::slice_subrange;

verus! {

/// The wire buffer holds at most 16 payload bytes.
pub const CEC_MAX_MSG_SIZE: usize = 16;

/// The address byte that opens every message: the initiator role in the
/// high nibble, the destination role in the low nibble.
pub open spec fn spec_addr_byte(from: CecLogicalAddress, to: CecLogicalAddress) -> u8 {
    (from.spec_value() * 16 + to.spec_value()) as u8
}

/// The wire bytes of a message with the given fields: the address byte,
/// then the opcode byte if one is present, then the parameters.
pub open spec fn spec_encode(
    from: CecLogicalAddress,
    to: CecLogicalAddress,
    opcode: Option<CecOpcode>,
    params: Seq<u8>,
) -> Seq<u8> {
    match opcode {
        None => seq![spec_addr_byte(from, to)],
        Some(op) => seq![spec_addr_byte(from, to), op.spec_value()] + params,
    }
}

/// The initiator role a wire buffer names: the high nibble of its first
/// byte. Total, since every nibble names a role.
pub open spec fn wire_initiator(w: Seq<u8>) -> CecLogicalAddress {
    CecLogicalAddress::spec_from_nibble((w[0] as int / 16) as u8)
}

/// The destination role a wire buffer names: the low nibble of its first
/// byte. Total, since every nibble names a role.
pub open spec fn wire_destination(w: Seq<u8>) -> CecLogicalAddress {
    CecLogicalAddress::spec_from_nibble((w[0] as int % 16) as u8)
}

/// The opcode a wire buffer carries: absent for a one-byte poll message;
/// otherwise the second byte, decoded against the registry, with bytes
/// outside the registry kept as a raw unrecognized marker.
pub open spec fn wire_opcode(w: Seq<u8>) -> Option<Result<CecOpcode, u8>> {
    if w.len() > 1 {
        match CecOpcode::spec_from_byte(w[1]) {
            Some(op) => Some(Ok(op)),
            None => Some(Err(w[1])),
        }
    } else {
        None
    }
}

/// The parameter bytes of a wire buffer: everything after the address and
/// opcode bytes.
pub open spec fn wire_parameters(w: Seq<u8>) -> Seq<u8> {
    if w.len() > 2 {
        w.subrange(2, w.len() as int)
    } else {
        Seq::empty()
    }
}

/// Decoding inverts encoding: for every valid message — parameters of at
/// most 14 bytes, and no parameters on an opcode-less poll — the wire
/// bytes give back the initiator, the destination, the opcode (decoded as
/// known) and the parameters unchanged.
pub proof fn lemma_decode_encode(
    from: CecLogicalAddress,
    to: CecLogicalAddress,
    opcode: Option<CecOpcode>,
    params: Seq<u8>,
)
    requires
        params.len() <= 14,
        opcode is None ==> params.len() == 0,
    ensures
        wire_initiator(spec_encode(from, to, opcode, params)) == from,
        wire_destination(spec_encode(from, to, opcode, params)) == to,
        wire_opcode(spec_encode(from, to, opcode, params)) == match opcode {
            None => None::<Result<CecOpcode, u8>>,
            Some(op) => Some(Ok(op)),
        },
        wire_parameters(spec_encode(from, to, opcode, params)) == params,
{
    let w = spec_encode(from, to, opcode, params);
    lemma_logical_address_round_trip(from);
    lemma_logical_address_round_trip(to);
    lemma_fundamental_div_mod_converse(
        spec_addr_byte(from, to) as int,
        16,
        from.spec_value() as int,
        to.spec_value() as int,
    );
    match opcode {
        None => {
            assert(wire_parameters(w) =~= params);
        },
        Some(op) => {
            lemma_opcode_round_trip(op);
            assert(wire_parameters(w) =~= params);
        },
    }
}

/// One bus message: the wire buffer with its length, and the transport
/// bookkeeping that travels with it — reply correlation, timeout, the
/// sequence number the transport assigns, status bits and error counters.
#[derive(Debug, Clone, Copy)]
pub struct CecMsg {
    /// Timestamp of the finished transmission, transport clock.
    pub tx_ts: u64,
    /// Timestamp of the reception, transport clock.
    pub rx_ts: u64,
    /// Length in bytes of the wire payload, 1 to 16.
    pub len: u32,
    /// How long a receive or a requested reply may take, in milliseconds;
    /// zero means the transport default.
    pub timeout: u32,
    /// Sequence number the transport assigns to correlate transmit results.
    pub sequence: u32,
    /// Reserved flag bits.
    pub flags: u32,
    /// The wire payload: address byte, opcode byte, parameters.
    pub msg: [u8; 16],
    /// If non-zero, the opcode byte a reply is awaited for.
    pub reply: u8,
    /// Receive status bits, set by the transport.
    pub rx_status: RxStatus,
    /// Transmit status bits, set by the transport.
    pub tx_status: TxStatus,
    /// How many arbitration-lost events the transmit saw.
    pub tx_arb_lost_cnt: u8,
    /// How many not-acknowledged events the transmit saw.
    pub tx_nack_cnt: u8,
    /// How many low-drive events the transmit saw.
    pub tx_low_drive_cnt: u8,
    /// How many generic error events the transmit saw.
    pub tx_error_cnt: u8,
}

impl CecMsg {
    /// A message is well formed when its length fits the wire buffer and
    /// covers at least the address byte.
    pub open spec fn wf(&self) -> bool {
        1 <= self.len <= 16
    }

    /// The wire bytes of this message: the buffer up to its length.
    pub open spec fn wire(&self) -> Seq<u8> {
        self.msg@.take(self.len as int)
    }

    pub open spec fn spec_initiator(&self) -> CecLogicalAddress {
        wire_initiator(self.msg@)
    }

    pub open spec fn spec_destination(&self) -> CecLogicalAddress {
        wire_destination(self.msg@)
    }

    /// A fresh message to `to` from `from`: a one-byte poll payload with
    /// every other field cleared.
    pub fn init(from: CecLogicalAddress, to: CecLogicalAddress) -> (m: CecMsg)
        ensures
            m.wf(),
            m.len == 1,
            m.wire() == spec_encode(from, to, None::<CecOpcode>, Seq::empty()),
            m.msg@[0] == spec_addr_byte(from, to),
            forall|i: int| 1 <= i < 16 ==> m.msg@[i] == 0u8,
            m.timeout == 0,
            m.sequence == 0,
            m.reply == 0,
            m.tx_status.bits == 0,
            m.rx_status.bits == 0,
            m.tx_ts == 0 && m.rx_ts == 0 && m.flags == 0,
            m.tx_arb_lost_cnt == 0 && m.tx_nack_cnt == 0 && m.tx_low_drive_cnt == 0
                && m.tx_error_cnt == 0,
    {
        let f: u8 = from.value();
        let t: u8 = to.value();
        let packed: u8 = f << 4 | t;
        proof {
            assert(f < 16 && t < 16 ==> f << 4 | t == f * 16 + t) by (bit_vector);
        }
        let mut buf: [u8; 16] = [0; 16];
        buf[0] = packed;
        let m = CecMsg {
            tx_ts: 0,
            rx_ts: 0,
            len: 1,
            timeout: 0,
            sequence: 0,
            flags: 0,
            msg: buf,
            reply: 0,
            rx_status: RxStatus::empty(),
            tx_status: TxStatus::empty(),
            tx_arb_lost_cnt: 0,
            tx_nack_cnt: 0,
            tx_low_drive_cnt: 0,
            tx_error_cnt: 0,
        };
        proof {
            assert(m.wire() =~= spec_encode(from, to, None::<CecOpcode>, Seq::empty()));
        }
        m
    }

    /// The initiator role of this message.
    pub fn initiator(&self) -> (r: CecLogicalAddress)
        ensures
            r == self.spec_initiator(),
    {
        let b = self.msg[0];
        proof {
            assert(b >> 4 == b / 16 && b >> 4 < 16) by (bit_vector);
        }
        CecLogicalAddress::from_nibble(b >> 4)
    }

    /// The destination role of this message.
    pub fn destination(&self) -> (r: CecLogicalAddress)
        ensures
            r == self.spec_destination(),
    {
        let b = self.msg[0];
        proof {
            assert(b & 0xf == b % 16 && b & 0xf < 16) by (bit_vector);
        }
        CecLogicalAddress::from_nibble(b & 0xf)
    }

    /// The opcode of this message: `None` for a one-byte poll, otherwise
    /// the registry's reading of the opcode byte, with a byte outside the
    /// registry handed back raw in `Err` rather than failing the message.
    pub fn opcode(&self) -> (r: Option<Result<CecOpcode, u8>>)
        requires
            self.len <= 16,
        ensures
            r == wire_opcode(self.wire()),
            self.len > 1 ==> r == Some(
                match CecOpcode::spec_from_byte(self.msg@[1]) {
                    Some(op) => Ok::<CecOpcode, u8>(op),
                    None => Err(self.msg@[1]),
                },
            ),
            self.len <= 1 ==> r is None,
    {
        if self.len > 1 {
            let b = self.msg[1];
            match CecOpcode::from_byte(b) {
                Some(op) => Some(Ok(op)),
                None => Some(Err(b)),
            }
        } else {
            None
        }
    }

    /// The parameter bytes of this message: everything after the address
    /// and opcode bytes; empty when the payload is two bytes or fewer.
    pub fn parameters(&self) -> (r: &[u8])
        requires
            self.len <= 16,
        ensures
            r@ == wire_parameters(self.wire()),
    {
        if self.len > 2 {
            let r = slice_subrange(self.msg.as_slice(), 2, self.len as usize);
            proof {
                assert(r@ =~= wire_parameters(self.wire()));
            }
            r
        } else {
            let r = slice_subrange(self.msg.as_slice(), 0, 0);
            proof {
                assert(r@ =~= wire_parameters(self.wire()));
            }
            r
        }
    }

    /// True when this message is addressed to everyone: the destination
    /// nibble is 15, exactly when the destination role is the broadcast
    /// role.
    pub fn is_broadcast(&self) -> (r: bool)
        ensures
            r == (self.msg@[0] as int % 16 == 15),
            r == (self.spec_destination() == CecLogicalAddress::UnregisteredBroadcast),
    {
        let b = self.msg[0];
        proof {
            assert(b & 0xf == b % 16 && b & 0xf < 16) by (bit_vector);
        }
        b & 0xf == 0xf
    }

    /// The derived success predicate over the status bits, in the fixed
    /// rule order of the status model.
    pub fn is_ok(&self) -> (r: bool)
        ensures
            r == spec_is_successful(self.tx_status.bits, self.rx_status.bits),
    {
        if !self.tx_status.is_empty() && !self.tx_status.contains(crate::status::TX_OK) {
            return false;
        }
        if !self.rx_status.is_empty() && !self.rx_status.contains(crate::status::RX_OK) {
            return false;
        }
        if self.rx_status.is_empty() && self.tx_status.is_empty() {
            return false;
        }
        !self.rx_status.contains(crate::status::RX_FEATURE_ABORT)
    }
}

/// Pack typed message fields into a wire buffer. Fails, and fails only,
/// when more than 14 parameter bytes are supplied; it never truncates.
/// On success the message holds exactly the encoded bytes, awaits no
/// reply, and its status is untouched.
pub fn encode(
    from: CecLogicalAddress,
    to: CecLogicalAddress,
    opcode: Option<CecOpcode>,
    params: &[u8],
) -> (r: Result<CecMsg, CecError>)
    requires
        opcode is None ==> params@.len() == 0,
    ensures
        params@.len() > 14 <==> r is Err,
        r matches Err(e) ==> e == CecError::ParameterTooLong,
        r matches Ok(m) ==> {
            &&& m.wf()
            &&& m.wire() == spec_encode(from, to, opcode, params@)
            &&& m.len == spec_encode(from, to, opcode, params@).len()
            &&& m.timeout == 0 && m.sequence == 0 && m.reply == 0
            &&& m.tx_status.bits == 0 && m.rx_status.bits == 0
            &&& m.spec_initiator() == from
            &&& m.spec_destination() == to
            &&& wire_opcode(m.wire()) == (match opcode {
                None => None::<Result<CecOpcode, u8>>,
                Some(op) => Some(Ok(op)),
            })
            &&& wire_parameters(m.wire()) == params@
        },
{
    if params.len() > 14 {
        return Err(CecError::ParameterTooLong);
    }
    let mut m = CecMsg::init(from, to);
    match opcode {
        None => {
            proof {
                assert(m.wire() =~= spec_encode(from, to, opcode, params@));
                lemma_decode_encode(from, to, opcode, params@);
                assert(m.wire()[0] == m.msg@[0]);
            }
            Ok(m)
        },
        Some(op) => {
            m.msg[1] = op.value();
            m.len = 2 + params.len() as u32;
            let mut i: usize = 0;
            while i < params.len()
                invariant
                    i <= params@.len() <= 14,
                    m.len == 2 + params@.len(),
                    m.msg@[0] == spec_addr_byte(from, to),
                    m.msg@[1] == op.spec_value(),
                    forall|j: int| 0 <= j < i ==> m.msg@[2 + j] == params@[j],
                    m.timeout == 0 && m.sequence == 0 && m.reply == 0,
                    m.tx_status.bits == 0 && m.rx_status.bits == 0,
                decreases params@.len() - i,
            {
                m.msg[2 + i] = params[i];
                i = i + 1;
            }
            proof {
                assert(m.wire() =~= spec_encode(from, to, opcode, params@));
                lemma_decode_encode(from, to, opcode, params@);
                assert(m.wire()[0] == m.msg@[0]);
            }
            Ok(m)
        },
    }
}

} // verus!
