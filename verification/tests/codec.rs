use cec_linux::msg::encode;
use cec_linux::CecError;
use cec_linux::CecLogicalAddress;
use cec_linux::CecMsg;
use cec_linux::CecOpcode;

#[test]
fn standby_playback2_to_audiosystem_encodes_to_85_36() {
    let m = encode(
        CecLogicalAddress::Playback2,
        CecLogicalAddress::Audiosystem,
        Some(CecOpcode::Standby),
        &[],
    )
    .unwrap();
    assert_eq!(m.len, 2);
    assert_eq!(m.msg[0], 0x85);
    assert_eq!(m.msg[1], 0x36);
}

#[test]
fn encode_decode_round_trip_with_parameters() {
    let params = [0x12u8, 0x34, 0x56];
    let m = encode(
        CecLogicalAddress::Tv,
        CecLogicalAddress::Playback1,
        Some(CecOpcode::SetStreamPath),
        &params,
    )
    .unwrap();
    assert_eq!(m.len, 5);
    assert_eq!(m.initiator(), CecLogicalAddress::Tv);
    assert_eq!(m.destination(), CecLogicalAddress::Playback1);
    assert_eq!(m.opcode(), Some(Ok(CecOpcode::SetStreamPath)));
    assert_eq!(m.parameters(), &params);
}

#[test]
fn encode_decode_round_trip_poll_message() {
    let m = encode(
        CecLogicalAddress::Record1,
        CecLogicalAddress::Tuner2,
        None,
        &[],
    )
    .unwrap();
    assert_eq!(m.len, 1);
    assert_eq!(m.initiator(), CecLogicalAddress::Record1);
    assert_eq!(m.destination(), CecLogicalAddress::Tuner2);
    assert_eq!(m.opcode(), None);
    assert_eq!(m.parameters(), &[] as &[u8]);
}

#[test]
fn encode_decode_round_trip_all_address_pairs() {
    let addrs = all_logical_addresses();
    for &from in &addrs {
        for &to in &addrs {
            let m = encode(from, to, Some(CecOpcode::Standby), &[]).unwrap();
            assert_eq!(m.initiator(), from);
            assert_eq!(m.destination(), to);
            assert_eq!(m.opcode(), Some(Ok(CecOpcode::Standby)));
        }
    }
}

#[test]
fn encode_fourteen_parameter_bytes_is_accepted() {
    let params = [0xaau8; 14];
    let m = encode(
        CecLogicalAddress::Playback2,
        CecLogicalAddress::Tv,
        Some(CecOpcode::VendorCommand),
        &params,
    )
    .unwrap();
    assert_eq!(m.len, 16);
    assert_eq!(m.parameters(), &params);
}

#[test]
fn encode_fifteen_parameter_bytes_fails_without_truncating() {
    let params = [0xaau8; 15];
    let r = encode(
        CecLogicalAddress::Playback2,
        CecLogicalAddress::Tv,
        Some(CecOpcode::VendorCommand),
        &params,
    );
    assert_eq!(r.unwrap_err(), CecError::ParameterTooLong);
}

#[test]
fn encode_much_longer_parameters_fail_too() {
    for extra in [16usize, 20, 100] {
        let params = vec![0u8; extra];
        let r = encode(
            CecLogicalAddress::Tv,
            CecLogicalAddress::Playback1,
            Some(CecOpcode::VendorCommand),
            &params,
        );
        assert_eq!(r.unwrap_err(), CecError::ParameterTooLong);
    }
}

#[test]
fn unregistered_opcode_byte_decodes_to_raw_marker() {
    // 0x5C names no opcode in the registry; the message still decodes,
    // parameters intact.
    let mut m = CecMsg::init(CecLogicalAddress::Tv, CecLogicalAddress::Playback1);
    m.msg[1] = 0x5c;
    m.msg[2] = 0x01;
    m.msg[3] = 0x02;
    m.len = 4;
    assert_eq!(m.opcode(), Some(Err(0x5c)));
    assert_eq!(m.parameters(), &[0x01, 0x02]);
}

#[test]
fn broadcast_iff_destination_nibble_is_fifteen() {
    let addrs = all_logical_addresses();
    for &to in &addrs {
        let m = CecMsg::init(CecLogicalAddress::Playback1, to);
        assert_eq!(
            m.is_broadcast(),
            to == CecLogicalAddress::UnregisteredBroadcast,
            "destination {:?}",
            to
        );
        assert_eq!(m.is_broadcast(), m.msg[0] & 0x0f == 0x0f);
    }
}

#[test]
fn init_packs_nibbles_and_clears_the_rest() {
    let m = CecMsg::init(
        CecLogicalAddress::Audiosystem,
        CecLogicalAddress::UnregisteredBroadcast,
    );
    assert_eq!(m.msg[0], 0x5f);
    assert_eq!(m.len, 1);
    assert_eq!(m.sequence, 0);
    assert_eq!(m.timeout, 0);
    assert_eq!(m.reply, 0);
    assert!(m.tx_status.is_empty());
    assert!(m.rx_status.is_empty());
    for i in 1..16 {
        assert_eq!(m.msg[i], 0);
    }
}

#[test]
fn every_byte_round_trips_through_the_opcode_registry() {
    let mut known = 0;
    for b in 0..=255u8 {
        match CecOpcode::from_byte(b) {
            Some(op) => {
                assert_eq!(op.value(), b);
                known += 1;
            }
            None => {}
        }
    }
    assert_eq!(known, 75);
}

#[test]
fn opcode_registry_spot_values() {
    assert_eq!(CecOpcode::Standby.value(), 0x36);
    assert_eq!(CecOpcode::FeatureAbort.value(), 0x00);
    assert_eq!(CecOpcode::Abort.value(), 0xff);
    assert_eq!(CecOpcode::ImageViewOn.value(), 0x04);
    assert_eq!(CecOpcode::ActiveSource.value(), 0x82);
    assert_eq!(CecOpcode::GiveAudioStatus.value(), 0x71);
    assert_eq!(CecOpcode::ReportAudioStatus.value(), 0x7a);
    assert_eq!(CecOpcode::UserControlPressed.value(), 0x44);
    assert_eq!(CecOpcode::UserControlReleased.value(), 0x45);
    assert_eq!(CecOpcode::CdcMessage.value(), 0xf8);
    assert_eq!(CecOpcode::from_byte(0x9e), Some(CecOpcode::CecVersion));
    assert_eq!(CecOpcode::from_byte(0x5c), None);
}

#[test]
fn logical_address_nibbles_round_trip() {
    for n in 0..16u8 {
        let a = CecLogicalAddress::from_nibble(n);
        assert_eq!(a.value(), n);
    }
    assert_eq!(CecLogicalAddress::Tv.value(), 0);
    assert_eq!(CecLogicalAddress::Playback2.value(), 8);
    assert_eq!(CecLogicalAddress::UnregisteredBroadcast.value(), 15);
}

fn all_logical_addresses() -> Vec<CecLogicalAddress> {
    (0..16u8).map(CecLogicalAddress::from_nibble).collect()
}
