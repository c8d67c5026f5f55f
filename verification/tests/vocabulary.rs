use cec_linux::CecAbortReason;
use cec_linux::CecEvent;
use cec_linux::CecEventLostMsgs;
use cec_linux::CecEventStateChange;
use cec_linux::CecEventType;
use cec_linux::CecLogAddrMask;
use cec_linux::CecLogAddrType;
use cec_linux::CecLogAddrs;
use cec_linux::CecLogicalAddress;
use cec_linux::CecPhysicalAddress;
use cec_linux::CecPowerStatus;
use cec_linux::CecPrimDevType;
use cec_linux::CecUserControlCode;
use cec_linux::OSDStr;
use cec_linux::VendorID;
use cec_linux::Version;

#[test]
fn physical_address_digits_and_bytes() {
    let a = CecPhysicalAddress { raw: 0x1234 };
    assert_eq!(a.digits(), (1, 2, 3, 4));
    assert_eq!(a.to_be_bytes(), [0x12, 0x34]);
    assert_eq!(CecPhysicalAddress::from_be_bytes(0x12, 0x34), a);
    assert!(!a.is_invalid());
    assert!(CecPhysicalAddress::invalid().is_invalid());
    assert_eq!(CecPhysicalAddress::root().raw, 0);
}

#[test]
fn claimed_mask_role_groups() {
    let playback2 = CecLogAddrMask { bits: 1 << 8 };
    assert!(playback2.is_playback());
    assert!(!playback2.is_record());
    assert!(!playback2.is_tuner());
    assert!(!playback2.is_backup());
    assert!(playback2.claims(CecLogicalAddress::Playback2));
    assert!(!playback2.claims(CecLogicalAddress::Playback1));

    let tuner4_backup1 = CecLogAddrMask { bits: (1 << 10) | (1 << 12) };
    assert!(tuner4_backup1.is_tuner());
    assert!(tuner4_backup1.is_backup());
    assert!(!tuner4_backup1.is_playback());

    let record3 = CecLogAddrMask { bits: 1 << 9 };
    assert!(record3.is_record());
    assert_eq!(CecLogAddrMask::empty().bits, 0);
}

#[test]
fn osd_names_round_trip_up_to_the_first_nul() {
    let name = OSDStr::<15>::from_slice(b"pi4");
    assert_eq!(name.text(), b"pi4".to_vec());
    assert_eq!(name.bytes[3], 0);

    let full = OSDStr::<4>::from_slice(b"abcdef");
    assert_eq!(full.text(), b"abcd".to_vec());

    let empty = OSDStr::<15>::empty();
    assert_eq!(empty.text(), Vec::<u8>::new());

    let embedded = OSDStr::<8>::from_slice(&[0x61, 0x00, 0x62]);
    assert_eq!(embedded.text(), vec![0x61]);
}

#[test]
fn osd_names_from_strings_require_ascii() {
    let name = OSDStr::<15>::from_str("pi4").unwrap();
    assert_eq!(name.text(), b"pi4".to_vec());
    assert!(OSDStr::<15>::from_str("t\u{00e9}l\u{00e9}").is_none());
    let cut = OSDStr::<4>::from_str("abcdef").unwrap();
    assert_eq!(cut.text(), b"abcd".to_vec());
}

#[test]
fn log_addr_request_carries_the_identity() {
    let log = CecLogAddrs::new(
        0x000c03,
        Version::V1_4,
        OSDStr::<15>::from_slice(b"pi4"),
        &[CecPrimDevType::PLAYBACK],
        &[CecLogAddrType::PLAYBACK],
    );
    assert_eq!(log.num_log_addrs, 1);
    assert_eq!(log.vendor_id, 0x000c03);
    assert_eq!(log.cec_version, Version::V1_4);
    assert_eq!(log.primary_device_type[0], CecPrimDevType::PLAYBACK);
    assert_eq!(log.log_addr_type[0], CecLogAddrType::PLAYBACK);
    assert_eq!(log.log_addr_mask.bits, 0);

    let cleared = CecLogAddrs::default();
    assert_eq!(cleared.num_log_addrs, 0);
    assert_eq!(cleared.cec_version, Version::V1_4);
}

#[test]
fn claimed_addresses_skip_invalid_markers() {
    let mut log = CecLogAddrs::default();
    log.num_log_addrs = 3;
    log.log_addr = [8, 0xff, 4, 0];
    assert_eq!(
        log.addresses(),
        vec![CecLogicalAddress::Playback2, CecLogicalAddress::Playback1]
    );
}

#[test]
fn vendor_id_packs_big_endian() {
    let v = VendorID { bytes: [0x00, 0x0c, 0x03] };
    assert_eq!(v.to_u32(), 0x000c03);
}

#[test]
fn event_discriminants_decode_first() {
    assert_eq!(CecEventType::from_word(1), Some(CecEventType::StateChange));
    assert_eq!(CecEventType::from_word(2), Some(CecEventType::LostMsgs));
    assert_eq!(CecEventType::from_word(3), None);
    assert_eq!(CecEventType::StateChange.value(), 1);

    let sc = CecEvent::StateChange(CecEventStateChange {
        phys_addr: 0x1000,
        log_addr_mask: CecLogAddrMask { bits: 1 << 8 },
    });
    assert_eq!(sc.event_type(), CecEventType::StateChange);
    let lost = CecEvent::LostMsgs(CecEventLostMsgs { lost_msgs: 7 });
    assert_eq!(lost.event_type(), CecEventType::LostMsgs);
}

#[test]
fn operand_tables_round_trip() {
    for b in 0..=255u8 {
        if let Some(v) = CecUserControlCode::from_byte(b) {
            assert_eq!(v.value(), b);
        }
        if let Some(v) = CecAbortReason::from_byte(b) {
            assert_eq!(v.value(), b);
        }
        if let Some(v) = CecPowerStatus::from_byte(b) {
            assert_eq!(v.value(), b);
        }
        if let Some(v) = Version::from_byte(b) {
            assert_eq!(v.value(), b);
        }
    }
    assert_eq!(CecUserControlCode::Power.value(), 0x40);
    assert_eq!(CecAbortReason::Unrecognized.value(), 0);
    assert_eq!(CecPowerStatus::On.value(), 0);
    assert_eq!(Version::V1_4.value(), 5);
}
