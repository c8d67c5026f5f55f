//! The transmit and request/reply protocol: turning a completed message
//! into a result, correlating replies, and the derived convenience
//! message plans.

use vstd::prelude::*;
use crate::addr::CecLogAddrMask;
use crate::addr::CecLogicalAddress;
use crate::msg::CecMsg;
use crate::msg::encode;
use crate::msg::spec_encode;
use crate::msg::wire_parameters;
use crate::opcode::CecAbortReason;
use crate::opcode::CecOpcode;
use crate::opcode::CecUserControlCode;
use crate::status::CecError;
use crate::status::CecTxError;
use crate::status::RX_FEATURE_ABORT;
use crate::status::TX_OK;
use crate::status::spec_tx_error_of;

verus! {

/// The ceiling, in milliseconds, on waiting for a requested reply.
pub const REPLY_TIMEOUT_CEILING_MS: u32 = 1000;

/// Pack a command message, requiring up front that the parameters fit;
/// the callers that build fixed command shapes use this in place of the
/// fallible codec entry.
pub fn build_command(
    from: CecLogicalAddress,
    to: CecLogicalAddress,
    opcode: CecOpcode,
    params: &[u8],
) -> (m: CecMsg)
    requires
        params@.len() <= 14,
    ensures
        m.wf(),
        m.wire() == spec_encode(from, to, Some(opcode), params@),
        m.len == 2 + params@.len(),
        m.timeout == 0 && m.sequence == 0 && m.reply == 0,
        m.tx_status.bits == 0 && m.rx_status.bits == 0,
{
    match encode(from, to, Some(opcode), params) {
        Ok(m) => m,
        Err(_) => {
            // The codec refuses only parameters longer than 14 bytes,
            // which the precondition rules out.
            proof {
                assert(false);
            }
            CecMsg::init(from, to)
        },
    }
}

/// The outcome a fire-and-forget transmit reports: success exactly when
/// the transmit status carries OK, and otherwise the diagnosis the
/// failure bits support.
pub fn msg_to_io_result(msg: CecMsg) -> (r: Result<(), CecError>)
    ensures
        r is Ok <==> msg.tx_status.bits & TX_OK == TX_OK,
        r matches Err(e) ==> e == CecError::Transmission(spec_tx_error_of(msg.tx_status.bits)),
{
    if msg.tx_status.contains(TX_OK) {
        Ok(())
    } else {
        Err(CecError::Transmission(CecTxError::from_tx_status(msg.tx_status)))
    }
}

/// Mark a message as awaiting a reply with the given opcode, holding the
/// wait below the fixed ceiling: a smaller caller-supplied timeout is
/// honored, zero or anything larger is clamped to the ceiling.
pub fn prepare_request(m: &mut CecMsg, wait_for: CecOpcode, timeout_ms: u32)
    ensures
        *final(m) == (CecMsg {
            reply: wait_for.spec_value(),
            timeout: if timeout_ms == 0 || timeout_ms > REPLY_TIMEOUT_CEILING_MS {
                REPLY_TIMEOUT_CEILING_MS
            } else {
                timeout_ms
            },
            ..*old(m)
        }),
{
    m.reply = wait_for.value();
    if timeout_ms == 0 || timeout_ms > REPLY_TIMEOUT_CEILING_MS {
        m.timeout = REPLY_TIMEOUT_CEILING_MS;
    } else {
        m.timeout = timeout_ms;
    }
}

/// The abort reason an operand byte names, with bytes outside the table
/// read as the catch-all reason.
pub open spec fn spec_abort_reason_of(b: u8) -> CecAbortReason {
    match CecAbortReason::spec_from_byte(b) {
        Some(r) => r,
        None => CecAbortReason::Other,
    }
}

/// What resolving a completed request yields, written over the fields the
/// transport filled in. The rules apply in order, and the order is what
/// tells "nobody replied" apart from "somebody replied with a decline":
/// 1. the resolved reply opcode is the feature-abort opcode (the transport
///    zeroes the reply field both on failure and for an awaited abort) and
///    the transmit itself did not report OK — a timeout-class error;
/// 2. else, the resolved reply is the feature-abort opcode and the receive
///    status flags a feature abort — a successful correlation carrying the
///    peer's decline: the aborted opcode and the reason operand come back
///    as an error value, not as data (a two-byte abort payload is owed;
///    anything shorter resolves as a timeout);
/// 3. else, a reply with the awaited opcode arrived — its parameter bytes,
///    empty when the reply carried only the two header bytes;
/// 4. otherwise nothing matched — a timeout-class error.
pub open spec fn spec_resolve_reply(msg: CecMsg) -> Result<Seq<u8>, CecError> {
    let params = wire_parameters(msg.wire());
    if msg.reply == 0u8 && msg.tx_status.bits & TX_OK != TX_OK {
        Err(CecError::Timeout(spec_tx_error_of(msg.tx_status.bits)))
    } else if msg.reply == 0u8 && msg.rx_status.bits & RX_FEATURE_ABORT == RX_FEATURE_ABORT {
        if params.len() >= 2 {
            Err(CecError::FeatureAbort { opcode: params[0], reason: spec_abort_reason_of(params[1]) })
        } else {
            Err(CecError::Timeout(spec_tx_error_of(msg.tx_status.bits)))
        }
    } else if msg.reply != 0u8 {
        Ok(params)
    } else {
        Err(CecError::Timeout(spec_tx_error_of(msg.tx_status.bits)))
    }
}

/// Resolve a completed request into the awaited reply's parameter bytes
/// or the error the rule order assigns.
pub fn resolve_reply(msg: &CecMsg) -> (r: Result<Vec<u8>, CecError>)
    requires
        msg.wf(),
    ensures
        r matches Ok(data) ==> spec_resolve_reply(*msg) matches Ok(s) && data@ == s,
        r matches Err(e) ==> spec_resolve_reply(*msg) == Err::<Seq<u8>, CecError>(e),
{
    if msg.reply == 0 && !msg.tx_status.contains(TX_OK) {
        return Err(CecError::Timeout(CecTxError::from_tx_status(msg.tx_status)));
    }
    if msg.reply == 0 && msg.rx_status.contains(RX_FEATURE_ABORT) {
        let params = msg.parameters();
        if params.len() >= 2 {
            let aborted = params[0];
            let reason = match CecAbortReason::from_byte(params[1]) {
                Some(r) => r,
                None => CecAbortReason::Other,
            };
            return Err(CecError::FeatureAbort { opcode: aborted, reason });
        } else {
            return Err(CecError::Timeout(CecTxError::from_tx_status(msg.tx_status)));
        }
    }
    if msg.reply != 0 {
        let params = msg.parameters();
        let mut data: Vec<u8> = Vec::new();
        let mut i: usize = 0;
        while i < params.len()
            invariant
                i <= params@.len(),
                data@ == params@.take(i as int),
            decreases params@.len() - i,
        {
            data.push(params[i]);
            proof {
                assert(data@ =~= params@.take(i + 1));
            }
            i = i + 1;
        }
        proof {
            assert(data@ =~= params@);
        }
        return Ok(data);
    }
    Err(CecError::Timeout(CecTxError::from_tx_status(msg.tx_status)))
}

/// A transmit may only originate from an address this adapter has
/// claimed; anything else is an input-validation failure, not a bus
/// failure.
pub fn check_transmit_source(mask: CecLogAddrMask, from: CecLogicalAddress) -> (r: Result<
    (),
    CecError,
>)
    ensures
        r is Ok <==> mask.spec_claims(from),
        r matches Err(e) ==> e == CecError::InvalidSource,
{
    if mask.claims(from) {
        Ok(())
    } else {
        Err(CecError::InvalidSource)
    }
}

/// The message pair that sends one remote-control key to a device: the
/// key press carrying the key operand, then the matching release.
pub fn keypress_messages(
    from: CecLogicalAddress,
    to: CecLogicalAddress,
    key: CecUserControlCode,
) -> (r: Vec<CecMsg>)
    ensures
        r@.len() == 2,
        r@[0].wf() && r@[1].wf(),
        r@[0].wire() == spec_encode(
            from,
            to,
            Some(CecOpcode::UserControlPressed),
            seq![key.spec_value()],
        ),
        r@[1].wire() == spec_encode(from, to, Some(CecOpcode::UserControlReleased), Seq::empty()),
{
    let pressed = build_command(from, to, CecOpcode::UserControlPressed, &[key.value()]);
    let released = build_command(from, to, CecOpcode::UserControlReleased, &[]);
    proof {
        assert(pressed.wire() =~= spec_encode(
            from,
            to,
            Some(CecOpcode::UserControlPressed),
            seq![key.spec_value()],
        ));
        assert(released.wire() =~= spec_encode(
            from,
            to,
            Some(CecOpcode::UserControlReleased),
            Seq::empty(),
        ));
    }
    let mut r: Vec<CecMsg> = Vec::new();
    r.push(pressed);
    r.push(released);
    r
}

/// The messages that wake a remote device: the TV is woken with an
/// image-view-on command; any other target gets a power-key press and
/// release. Waking non-TV targets through the power key is an
/// implementation policy, not a protocol rule.
pub fn turn_on_messages(from: CecLogicalAddress, to: CecLogicalAddress) -> (r: Vec<CecMsg>)
    ensures
        to == CecLogicalAddress::Tv ==> r@.len() == 1 && r@[0].wf() && r@[0].wire() == spec_encode(
            from,
            to,
            Some(CecOpcode::ImageViewOn),
            Seq::empty(),
        ),
        to != CecLogicalAddress::Tv ==> {
            &&& r@.len() == 2
            &&& r@[0].wf() && r@[1].wf()
            &&& r@[0].wire() == spec_encode(
                from,
                to,
                Some(CecOpcode::UserControlPressed),
                seq![CecUserControlCode::Power.spec_value()],
            )
            &&& r@[1].wire() == spec_encode(
                from,
                to,
                Some(CecOpcode::UserControlReleased),
                Seq::empty(),
            )
        },
{
    if to == CecLogicalAddress::Tv {
        let m = build_command(from, to, CecOpcode::ImageViewOn, &[]);
        proof {
            assert(m.wire() =~= spec_encode(from, to, Some(CecOpcode::ImageViewOn), Seq::empty()));
        }
        let mut r: Vec<CecMsg> = Vec::new();
        r.push(m);
        r
    } else {
        keypress_messages(from, to, CecUserControlCode::Power)
    }
}

} // verus!
