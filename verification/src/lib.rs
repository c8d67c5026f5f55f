//! Typed protocol layer for the HDMI-CEC command bus.
//!
//! The crate models bus messages as typed values, packs and unpacks the
//! fixed 16-byte wire buffer, interprets transmit/receive status bits,
//! and drives the adapter mode and address state machine. All of it is
//! verified; the device transport that carries the buffers lives outside
//! this crate and hands plain values in and out.

pub mod addr;
pub mod caps;
pub mod event;
pub mod logaddrs;
pub mod mode;
pub mod msg;
pub mod opcode;
pub mod osd;
pub mod protocol;
pub mod state;
pub mod status;
pub mod timer;

pub use addr::CecLogicalAddress;
pub use addr::CecPhysicalAddress;
pub use addr::CecLogAddrMask;
pub use caps::Capabilities;
pub use caps::CecCaps;
pub use event::CecEvent;
pub use event::CecEventLostMsgs;
pub use event::CecEventStateChange;
pub use event::CecEventType;
pub use logaddrs::CecLogAddrFlags;
pub use logaddrs::CecLogAddrType;
pub use logaddrs::CecLogAddrs;
pub use logaddrs::CecPrimDevType;
pub use logaddrs::VendorID;
pub use logaddrs::Version;
pub use mode::CecModeFollower;
pub use mode::CecModeInitiator;
pub use msg::CecMsg;
pub use osd::OSDStr;
pub use opcode::CecAbortReason;
pub use opcode::CecOpcode;
pub use opcode::CecPowerStatus;
pub use opcode::CecUserControlCode;
pub use opcode::DeckControlMode;
pub use opcode::DeckInfo;
pub use opcode::DisplayControl;
pub use opcode::MenuRequestType;
pub use opcode::PlayMode;
pub use opcode::StatusRequest;
pub use state::AdapterConfigState;
pub use state::AdapterState;
pub use status::CecError;
pub use status::CecTxError;
pub use status::RxStatus;
pub use status::TxStatus;
pub use timer::CecTimer;
pub use timer::RecordingSequence;
