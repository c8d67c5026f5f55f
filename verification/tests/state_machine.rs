use cec_linux::caps::{CAP_LOG_ADDRS, CAP_MONITOR_ALL, CAP_PHYS_ADDR, CAP_TRANSMIT};
use cec_linux::mode::{check_set_mode, mode_word, split_mode_word};
use cec_linux::AdapterConfigState;
use cec_linux::AdapterState;
use cec_linux::Capabilities;
use cec_linux::CecError;
use cec_linux::CecEventStateChange;
use cec_linux::CecLogAddrMask;
use cec_linux::CecLogAddrType;
use cec_linux::CecLogAddrs;
use cec_linux::CecModeFollower;
use cec_linux::CecModeInitiator;
use cec_linux::CecPhysicalAddress;
use cec_linux::CecPrimDevType;
use cec_linux::OSDStr;
use cec_linux::Version;

fn full_caps() -> Capabilities {
    Capabilities::from_bits(CAP_PHYS_ADDR | CAP_LOG_ADDRS | CAP_TRANSMIT | CAP_MONITOR_ALL)
}

fn playback_request() -> CecLogAddrs {
    CecLogAddrs::new(
        0,
        Version::V1_4,
        OSDStr::<15>::from_slice(b"pi4"),
        &[CecPrimDevType::PLAYBACK],
        &[CecLogAddrType::PLAYBACK],
    )
}

fn claimed_adapter() -> AdapterState {
    let mut s = AdapterState::new(full_caps());
    s.set_phys(CecPhysicalAddress { raw: 0x1000 }).unwrap();
    s.set_log(&playback_request()).unwrap();
    s.apply_state_change(CecEventStateChange {
        phys_addr: 0x1000,
        log_addr_mask: CecLogAddrMask { bits: 1 << 8 },
    });
    s
}

#[test]
fn clearing_log_addrs_returns_a_claimed_adapter_to_unconfigured() {
    let mut s = claimed_adapter();
    assert_eq!(s.config, AdapterConfigState::LogicalAddressesClaimed);
    assert_eq!(s.claimed.bits, 1 << 8);

    s.set_log(&CecLogAddrs::default()).unwrap();
    assert_eq!(s.config, AdapterConfigState::Unconfigured);
    assert_eq!(s.claimed.bits, 0);
}

#[test]
fn adapter_walks_the_three_stages_in_order() {
    let mut s = AdapterState::new(full_caps());
    assert_eq!(s.config, AdapterConfigState::Unconfigured);

    s.set_phys(CecPhysicalAddress { raw: 0x2000 }).unwrap();
    assert_eq!(s.config, AdapterConfigState::PhysicalAddressSet);
    assert_eq!(s.claimed.bits, 0);

    s.set_log(&playback_request()).unwrap();
    // Claims complete through the event stream, not on the call itself.
    assert_eq!(s.config, AdapterConfigState::PhysicalAddressSet);

    s.apply_state_change(CecEventStateChange {
        phys_addr: 0x2000,
        log_addr_mask: CecLogAddrMask { bits: 1 << 8 },
    });
    assert_eq!(s.config, AdapterConfigState::LogicalAddressesClaimed);
}

#[test]
fn clearing_the_physical_address_unconfigures_and_drops_claims() {
    let mut s = claimed_adapter();
    s.set_phys(CecPhysicalAddress { raw: 0xffff }).unwrap();
    assert_eq!(s.config, AdapterConfigState::Unconfigured);
    assert_eq!(s.claimed.bits, 0);
    assert!(s.phys.is_invalid());
}

#[test]
fn set_phys_needs_capability_and_initiator() {
    let mut s = AdapterState::new(Capabilities::from_bits(CAP_LOG_ADDRS));
    assert_eq!(
        s.set_phys(CecPhysicalAddress { raw: 0x1000 }),
        Err(CecError::Unsupported)
    );

    let mut s = AdapterState::new(full_caps());
    s.set_mode(false, CecModeInitiator::NoInitiator, CecModeFollower::RepliesOnly)
        .unwrap();
    assert_eq!(
        s.set_phys(CecPhysicalAddress { raw: 0x1000 }),
        Err(CecError::Busy)
    );
}

#[test]
fn set_log_while_types_are_defined_is_busy() {
    let mut s = AdapterState::new(full_caps());
    s.set_phys(CecPhysicalAddress { raw: 0x1000 }).unwrap();
    s.set_log(&playback_request()).unwrap();
    assert_eq!(s.set_log(&playback_request()), Err(CecError::Busy));
    // Clearing first makes another request admissible.
    s.set_log(&CecLogAddrs::default()).unwrap();
    assert_eq!(s.set_log(&playback_request()), Ok(()));
}

#[test]
fn set_log_needs_capability_and_initiator() {
    let mut s = AdapterState::new(Capabilities::from_bits(CAP_PHYS_ADDR));
    assert_eq!(s.set_log(&playback_request()), Err(CecError::Unsupported));

    let mut s = AdapterState::new(full_caps());
    s.set_mode(false, CecModeInitiator::NoInitiator, CecModeFollower::RepliesOnly)
        .unwrap();
    assert_eq!(s.set_log(&playback_request()), Err(CecError::Busy));
}

#[test]
fn receiving_follower_modes_need_an_initiator_and_transmit() {
    let caps = full_caps();
    for f in [
        CecModeFollower::All,
        CecModeFollower::Exclusive,
        CecModeFollower::ExclusivePassthru,
    ] {
        assert_eq!(
            check_set_mode(caps, false, CecModeInitiator::NoInitiator, f),
            Err(CecError::InvalidMode)
        );
        assert_eq!(
            check_set_mode(
                Capabilities::from_bits(CAP_PHYS_ADDR | CAP_LOG_ADDRS),
                false,
                CecModeInitiator::Send,
                f
            ),
            Err(CecError::Unsupported)
        );
        assert_eq!(check_set_mode(caps, false, CecModeInitiator::Send, f), Ok(()));
    }
}

#[test]
fn monitor_modes_need_no_initiator_and_privilege() {
    let caps = full_caps();
    assert_eq!(
        check_set_mode(caps, true, CecModeInitiator::Send, CecModeFollower::Monitor),
        Err(CecError::InvalidMode)
    );
    assert_eq!(
        check_set_mode(caps, false, CecModeInitiator::NoInitiator, CecModeFollower::Monitor),
        Err(CecError::Unsupported)
    );
    assert_eq!(
        check_set_mode(caps, true, CecModeInitiator::NoInitiator, CecModeFollower::Monitor),
        Ok(())
    );
    // Monitoring the whole bus additionally needs the capability.
    assert_eq!(
        check_set_mode(
            Capabilities::from_bits(CAP_TRANSMIT),
            true,
            CecModeInitiator::NoInitiator,
            CecModeFollower::MonitorAll
        ),
        Err(CecError::Unsupported)
    );
    assert_eq!(
        check_set_mode(caps, true, CecModeInitiator::NoInitiator, CecModeFollower::MonitorAll),
        Ok(())
    );
}

#[test]
fn mode_words_compose_and_split() {
    let pairs = [
        (CecModeInitiator::NoInitiator, CecModeFollower::Monitor),
        (CecModeInitiator::Send, CecModeFollower::RepliesOnly),
        (CecModeInitiator::Send, CecModeFollower::ExclusivePassthru),
        (CecModeInitiator::Exclusive, CecModeFollower::All),
    ];
    for (i, f) in pairs {
        let w = mode_word(i, f);
        assert_eq!(split_mode_word(w), Some((i, f)));
    }
    assert_eq!(
        mode_word(CecModeInitiator::Send, CecModeFollower::ExclusivePassthru),
        0x31
    );
    assert_eq!(split_mode_word(0x41), None);
}

#[test]
fn state_change_with_invalid_phys_discredits_the_mask() {
    let mut s = claimed_adapter();
    s.apply_state_change(CecEventStateChange {
        phys_addr: 0xffff,
        log_addr_mask: CecLogAddrMask { bits: 1 << 8 },
    });
    assert_eq!(s.claimed.bits, 0);
    assert_eq!(s.config, AdapterConfigState::Unconfigured);
}
