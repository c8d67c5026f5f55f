//! The opcode registry and the operand vocabularies of the message families.

use vstd::prelude::*;

verus! {

/// The protocol-defined opcode space: one byte naming the command a
/// message carries. The enumeration is open: bytes outside this table
/// decode to an unrecognized-opcode marker, never to an error, so
/// messages from future protocol revisions still flow through.
#[derive(Debug, Eq, PartialEq, Clone, Copy, Structural)]
pub enum CecOpcode {
    /// Announces the device now sending the stream; also the answer to a
    /// request for the active source. Two parameter bytes: the source's
    /// physical address.
    ActiveSource,
    /// Asks the TV to come out of standby and show the sender's stream.
    ImageViewOn,
    /// As image-view-on, and also clears text, menus and picture-in-picture
    /// from the TV's display.
    TextViewOn,
    /// The active source bows out: it has nothing to show or is going to
    /// standby. Two parameter bytes: its physical address.
    InactiveSource,
    /// Asks, as a broadcast, which device is the active source.
    RequestActiveSource,
    /// A switch announces that its active route changed. Four parameter
    /// bytes: the old and the new physical address.
    RoutingChange,
    /// A switch announces the active route below it. Two parameter bytes:
    /// a physical address.
    RoutingInformation,
    /// The TV requests a stream from the given position. Two parameter
    /// bytes: a physical address.
    SetStreamPath,
    /// Puts the destination — or, broadcast, everyone — into standby. No
    /// parameters.
    Standby,
    /// Answers a version query. One parameter byte: the version operand.
    CecVersion,
    /// Asks a device which protocol version it implements.
    GetCecVersion,
    /// Asks a device to report its physical address.
    GivePhysicalAddr,
    /// Asks a device for its menu language.
    GetMenuLanguage,
    /// Announces the mapping between the sender's physical and logical
    /// address. Three parameter bytes: the physical address and a device
    /// type.
    ReportPhysicalAddr,
    /// Announces the menu language. Three parameter bytes: a language code.
    SetMenuLanguage,
    ReportFeatures,
    GiveFeatures,
    /// Drives a deck's media functions. One parameter byte: the deck
    /// control operand.
    DeckControl,
    /// Answers a deck-status request. One parameter byte: the deck state
    /// operand.
    DeckStatus,
    /// Asks a deck for its status. One parameter byte: the status-request
    /// operand.
    GiveDeckStatus,
    /// Drives a source's playback. One parameter byte: the play-mode
    /// operand.
    Play,
    /// Announces the sender's vendor. Three parameter bytes: the vendor
    /// identifier.
    DeviceVendorId,
    /// Asks a device for its vendor identifier.
    GiveDeviceVendorId,
    /// Carries a vendor-defined payload between two devices of one vendor.
    VendorCommand,
    /// As a vendor command, prefixed with the three vendor-identifier
    /// bytes.
    VendorCommandWithId,
    /// A vendor-defined remote-control button went down. Parameters are
    /// vendor-specific.
    VendorRemoteButtonDown,
    /// The vendor-defined button of the last button-down was released.
    VendorRemoteButtonUp,
    /// Puts a text message on the TV's display. Parameters: the display
    /// control operand, then the text bytes.
    SetOsdString,
    /// Asks a device for its on-screen-display name.
    GiveOsdName,
    /// Answers an OSD-name request. Parameters: the name's bytes, neither
    /// terminated nor prefixed.
    SetOsdName,
    /// The TV asks a device to show or remove its menu, or whether one is
    /// showing. One parameter byte: the menu-request operand.
    MenuRequest,
    /// Tells the TV a menu is showing (0) or was removed (1). One
    /// parameter byte.
    MenuStatus,
    /// A remote-control key went down. One parameter byte: the key.
    UserControlPressed,
    /// The key of the last key-down was released.
    UserControlReleased,
    /// Asks a device for its power status.
    GiveDevicePowerStatus,
    /// Answers a power-status request. One parameter byte: the power-status
    /// operand.
    ReportPowerStatus,
    /// Declines a directly addressed message: the sender does not support
    /// the opcode, cannot act now, or rejects the operands. Two parameter
    /// bytes: the declined opcode and the reason.
    FeatureAbort,
    /// Asks the destination to decline: a probe that expects a feature
    /// abort back.
    Abort,
    /// Asks an amplifier for its volume and mute state.
    GiveAudioStatus,
    /// Asks for the current system-audio-mode state.
    GiveSystemAudioModeStatus,
    /// Answers an audio-status request. One parameter byte: mute in the
    /// high bit, volume percent in the rest.
    ReportAudioStatus,
    ReportShortAudioDescriptor,
    RequestShortAudioDescriptor,
    /// Turns system audio mode on (1) or off (0); the TV then mutes its
    /// own speakers while an amplifier plays. One parameter byte.
    SetSystemAudioMode,
    /// Asks the amplifier to take over audio for the given source — two
    /// parameter bytes of physical address — or, without parameters, to
    /// end the feature.
    SystemAudioModeRequest,
    /// Reports the current system-audio-mode state. One parameter byte:
    /// on (1) or off (0).
    SystemAudioModeStatus,
    /// Drives the audio rate of a source. One parameter byte: the rate
    /// operand.
    SetAudioRate,
    /// Asks a recorder to stop recording.
    RecordOff,
    /// Asks a recorder to record the given source. Parameters: a record
    /// source block.
    RecordOn,
    /// A recorder reports on a record-on request. One parameter byte: the
    /// record-status operand.
    RecordStatus,
    /// A recorder asks to record what the TV presently shows.
    RecordTvScreen,
    /// Clears an analogue timer block; parameters as in setting one.
    ClearAnalogueTimer,
    /// Clears a digital timer block; parameters as in setting one.
    ClearDigitalTimer,
    /// Clears an external-source timer block; parameters as in setting one.
    ClearExtTimer,
    /// Sets an analogue recording timer. Parameters: the timer block, the
    /// recording sequence, and the analogue service description.
    SetAnalogueTimer,
    /// Sets a digital recording timer. Parameters: the timer block, the
    /// recording sequence, and the digital service identification.
    SetDigitalTimer,
    /// Sets a timer for an external source. Parameters: the timer block,
    /// the recording sequence, and the external source specifier.
    SetExtTimer,
    /// Names the program of the timer block just set. Parameters: the
    /// title's bytes.
    SetTimerProgramTitle,
    /// Answers a clear-timer message. One parameter byte: the cleared
    /// status operand.
    TimerClearedStatus,
    /// Answers a set-timer message. Parameters: the timer status data.
    TimerStatus,
    /// Asks a tuner for its status. One parameter byte: the status-request
    /// operand.
    GiveTunerDeviceStatus,
    SelectAnalogueService,
    SelectDigitalService,
    TunerDeviceStatus,
    TunerStepDecrement,
    TunerStepIncrement,
    InitiateArc,
    ReportArcInitiated,
    ReportArcTerminated,
    RequestArcInitiation,
    RequestArcTermination,
    TerminateArc,
    RequestCurrentLatency,
    ReportCurrentLatency,
    /// Carries the capability discovery and control channel.
    CdcMessage,
}

impl CecOpcode {
    /// The wire byte of this value.
    pub open spec fn spec_value(self) -> u8 {
        match self {
            CecOpcode::ActiveSource => 0x82,
            CecOpcode::ImageViewOn => 0x04,
            CecOpcode::TextViewOn => 0x0d,
            CecOpcode::InactiveSource => 0x9d,
            CecOpcode::RequestActiveSource => 0x85,
            CecOpcode::RoutingChange => 0x80,
            CecOpcode::RoutingInformation => 0x81,
            CecOpcode::SetStreamPath => 0x86,
            CecOpcode::Standby => 0x36,
            CecOpcode::CecVersion => 0x9e,
            CecOpcode::GetCecVersion => 0x9f,
            CecOpcode::GivePhysicalAddr => 0x83,
            CecOpcode::GetMenuLanguage => 0x91,
            CecOpcode::ReportPhysicalAddr => 0x84,
            CecOpcode::SetMenuLanguage => 0x32,
            CecOpcode::ReportFeatures => 0xa6,
            CecOpcode::GiveFeatures => 0xa5,
            CecOpcode::DeckControl => 0x42,
            CecOpcode::DeckStatus => 0x1b,
            CecOpcode::GiveDeckStatus => 0x1a,
            CecOpcode::Play => 0x41,
            CecOpcode::DeviceVendorId => 0x87,
            CecOpcode::GiveDeviceVendorId => 0x8c,
            CecOpcode::VendorCommand => 0x89,
            CecOpcode::VendorCommandWithId => 0xa0,
            CecOpcode::VendorRemoteButtonDown => 0x8a,
            CecOpcode::VendorRemoteButtonUp => 0x8b,
            CecOpcode::SetOsdString => 0x64,
            CecOpcode::GiveOsdName => 0x46,
            CecOpcode::SetOsdName => 0x47,
            CecOpcode::MenuRequest => 0x8d,
            CecOpcode::MenuStatus => 0x8e,
            CecOpcode::UserControlPressed => 0x44,
            CecOpcode::UserControlReleased => 0x45,
            CecOpcode::GiveDevicePowerStatus => 0x8f,
            CecOpcode::ReportPowerStatus => 0x90,
            CecOpcode::FeatureAbort => 0x00,
            CecOpcode::Abort => 0xff,
            CecOpcode::GiveAudioStatus => 0x71,
            CecOpcode::GiveSystemAudioModeStatus => 0x7d,
            CecOpcode::ReportAudioStatus => 0x7a,
            CecOpcode::ReportShortAudioDescriptor => 0xa3,
            CecOpcode::RequestShortAudioDescriptor => 0xa4,
            CecOpcode::SetSystemAudioMode => 0x72,
            CecOpcode::SystemAudioModeRequest => 0x70,
            CecOpcode::SystemAudioModeStatus => 0x7e,
            CecOpcode::SetAudioRate => 0x9a,
            CecOpcode::RecordOff => 0x0b,
            CecOpcode::RecordOn => 0x09,
            CecOpcode::RecordStatus => 0x0a,
            CecOpcode::RecordTvScreen => 0x0f,
            CecOpcode::ClearAnalogueTimer => 0x33,
            CecOpcode::ClearDigitalTimer => 0x99,
            CecOpcode::ClearExtTimer => 0xa1,
            CecOpcode::SetAnalogueTimer => 0x34,
            CecOpcode::SetDigitalTimer => 0x97,
            CecOpcode::SetExtTimer => 0xa2,
            CecOpcode::SetTimerProgramTitle => 0x67,
            CecOpcode::TimerClearedStatus => 0x43,
            CecOpcode::TimerStatus => 0x35,
            CecOpcode::GiveTunerDeviceStatus => 0x08,
            CecOpcode::SelectAnalogueService => 0x92,
            CecOpcode::SelectDigitalService => 0x93,
            CecOpcode::TunerDeviceStatus => 0x07,
            CecOpcode::TunerStepDecrement => 0x06,
            CecOpcode::TunerStepIncrement => 0x05,
            CecOpcode::InitiateArc => 0xc0,
            CecOpcode::ReportArcInitiated => 0xc1,
            CecOpcode::ReportArcTerminated => 0xc2,
            CecOpcode::RequestArcInitiation => 0xc3,
            CecOpcode::RequestArcTermination => 0xc4,
            CecOpcode::TerminateArc => 0xc5,
            CecOpcode::RequestCurrentLatency => 0xa7,
            CecOpcode::ReportCurrentLatency => 0xa8,
            CecOpcode::CdcMessage => 0xf8,
        }
    }

    /// The value a wire byte decodes to, if it is in the table.
    pub open spec fn spec_from_byte(b: u8) -> Option<CecOpcode> {
        if b == 0x82 {
            Some(CecOpcode::ActiveSource)
        } else if b == 0x04 {
            Some(CecOpcode::ImageViewOn)
        } else if b == 0x0d {
            Some(CecOpcode::TextViewOn)
        } else if b == 0x9d {
            Some(CecOpcode::InactiveSource)
        } else if b == 0x85 {
            Some(CecOpcode::RequestActiveSource)
        } else if b == 0x80 {
            Some(CecOpcode::RoutingChange)
        } else if b == 0x81 {
            Some(CecOpcode::RoutingInformation)
        } else if b == 0x86 {
            Some(CecOpcode::SetStreamPath)
        } else if b == 0x36 {
            Some(CecOpcode::Standby)
        } else if b == 0x9e {
            Some(CecOpcode::CecVersion)
        } else if b == 0x9f {
            Some(CecOpcode::GetCecVersion)
        } else if b == 0x83 {
            Some(CecOpcode::GivePhysicalAddr)
        } else if b == 0x91 {
            Some(CecOpcode::GetMenuLanguage)
        } else if b == 0x84 {
            Some(CecOpcode::ReportPhysicalAddr)
        } else if b == 0x32 {
            Some(CecOpcode::SetMenuLanguage)
        } else if b == 0xa6 {
            Some(CecOpcode::ReportFeatures)
        } else if b == 0xa5 {
            Some(CecOpcode::GiveFeatures)
        } else if b == 0x42 {
            Some(CecOpcode::DeckControl)
        } else if b == 0x1b {
            Some(CecOpcode::DeckStatus)
        } else if b == 0x1a {
            Some(CecOpcode::GiveDeckStatus)
        } else if b == 0x41 {
            Some(CecOpcode::Play)
        } else if b == 0x87 {
            Some(CecOpcode::DeviceVendorId)
        } else if b == 0x8c {
            Some(CecOpcode::GiveDeviceVendorId)
        } else if b == 0x89 {
            Some(CecOpcode::VendorCommand)
        } else if b == 0xa0 {
            Some(CecOpcode::VendorCommandWithId)
        } else if b == 0x8a {
            Some(CecOpcode::VendorRemoteButtonDown)
        } else if b == 0x8b {
            Some(CecOpcode::VendorRemoteButtonUp)
        } else if b == 0x64 {
            Some(CecOpcode::SetOsdString)
        } else if b == 0x46 {
            Some(CecOpcode::GiveOsdName)
        } else if b == 0x47 {
            Some(CecOpcode::SetOsdName)
        } else if b == 0x8d {
            Some(CecOpcode::MenuRequest)
        } else if b == 0x8e {
            Some(CecOpcode::MenuStatus)
        } else if b == 0x44 {
            Some(CecOpcode::UserControlPressed)
        } else if b == 0x45 {
            Some(CecOpcode::UserControlReleased)
        } else if b == 0x8f {
            Some(CecOpcode::GiveDevicePowerStatus)
        } else if b == 0x90 {
            Some(CecOpcode::ReportPowerStatus)
        } else if b == 0x00 {
            Some(CecOpcode::FeatureAbort)
        } else if b == 0xff {
            Some(CecOpcode::Abort)
        } else if b == 0x71 {
            Some(CecOpcode::GiveAudioStatus)
        } else if b == 0x7d {
            Some(CecOpcode::GiveSystemAudioModeStatus)
        } else if b == 0x7a {
            Some(CecOpcode::ReportAudioStatus)
        } else if b == 0xa3 {
            Some(CecOpcode::ReportShortAudioDescriptor)
        } else if b == 0xa4 {
            Some(CecOpcode::RequestShortAudioDescriptor)
        } else if b == 0x72 {
            Some(CecOpcode::SetSystemAudioMode)
        } else if b == 0x70 {
            Some(CecOpcode::SystemAudioModeRequest)
        } else if b == 0x7e {
            Some(CecOpcode::SystemAudioModeStatus)
        } else if b == 0x9a {
            Some(CecOpcode::SetAudioRate)
        } else if b == 0x0b {
            Some(CecOpcode::RecordOff)
        } else if b == 0x09 {
            Some(CecOpcode::RecordOn)
        } else if b == 0x0a {
            Some(CecOpcode::RecordStatus)
        } else if b == 0x0f {
            Some(CecOpcode::RecordTvScreen)
        } else if b == 0x33 {
            Some(CecOpcode::ClearAnalogueTimer)
        } else if b == 0x99 {
            Some(CecOpcode::ClearDigitalTimer)
        } else if b == 0xa1 {
            Some(CecOpcode::ClearExtTimer)
        } else if b == 0x34 {
            Some(CecOpcode::SetAnalogueTimer)
        } else if b == 0x97 {
            Some(CecOpcode::SetDigitalTimer)
        } else if b == 0xa2 {
            Some(CecOpcode::SetExtTimer)
        } else if b == 0x67 {
            Some(CecOpcode::SetTimerProgramTitle)
        } else if b == 0x43 {
            Some(CecOpcode::TimerClearedStatus)
        } else if b == 0x35 {
            Some(CecOpcode::TimerStatus)
        } else if b == 0x08 {
            Some(CecOpcode::GiveTunerDeviceStatus)
        } else if b == 0x92 {
            Some(CecOpcode::SelectAnalogueService)
        } else if b == 0x93 {
            Some(CecOpcode::SelectDigitalService)
        } else if b == 0x07 {
            Some(CecOpcode::TunerDeviceStatus)
        } else if b == 0x06 {
            Some(CecOpcode::TunerStepDecrement)
        } else if b == 0x05 {
            Some(CecOpcode::TunerStepIncrement)
        } else if b == 0xc0 {
            Some(CecOpcode::InitiateArc)
        } else if b == 0xc1 {
            Some(CecOpcode::ReportArcInitiated)
        } else if b == 0xc2 {
            Some(CecOpcode::ReportArcTerminated)
        } else if b == 0xc3 {
            Some(CecOpcode::RequestArcInitiation)
        } else if b == 0xc4 {
            Some(CecOpcode::RequestArcTermination)
        } else if b == 0xc5 {
            Some(CecOpcode::TerminateArc)
        } else if b == 0xa7 {
            Some(CecOpcode::RequestCurrentLatency)
        } else if b == 0xa8 {
            Some(CecOpcode::ReportCurrentLatency)
        } else if b == 0xf8 {
            Some(CecOpcode::CdcMessage)
        } else {
            None
        }
    }

    /// The wire byte of this value.
    #[verifier::when_used_as_spec(spec_value)]
    pub fn value(self) -> (r: u8)
        ensures
            r == self.spec_value(),
    {
        match self {
            CecOpcode::ActiveSource => 0x82,
            CecOpcode::ImageViewOn => 0x04,
            CecOpcode::TextViewOn => 0x0d,
            CecOpcode::InactiveSource => 0x9d,
            CecOpcode::RequestActiveSource => 0x85,
            CecOpcode::RoutingChange => 0x80,
            CecOpcode::RoutingInformation => 0x81,
            CecOpcode::SetStreamPath => 0x86,
            CecOpcode::Standby => 0x36,
            CecOpcode::CecVersion => 0x9e,
            CecOpcode::GetCecVersion => 0x9f,
            CecOpcode::GivePhysicalAddr => 0x83,
            CecOpcode::GetMenuLanguage => 0x91,
            CecOpcode::ReportPhysicalAddr => 0x84,
            CecOpcode::SetMenuLanguage => 0x32,
            CecOpcode::ReportFeatures => 0xa6,
            CecOpcode::GiveFeatures => 0xa5,
            CecOpcode::DeckControl => 0x42,
            CecOpcode::DeckStatus => 0x1b,
            CecOpcode::GiveDeckStatus => 0x1a,
            CecOpcode::Play => 0x41,
            CecOpcode::DeviceVendorId => 0x87,
            CecOpcode::GiveDeviceVendorId => 0x8c,
            CecOpcode::VendorCommand => 0x89,
            CecOpcode::VendorCommandWithId => 0xa0,
            CecOpcode::VendorRemoteButtonDown => 0x8a,
            CecOpcode::VendorRemoteButtonUp => 0x8b,
            CecOpcode::SetOsdString => 0x64,
            CecOpcode::GiveOsdName => 0x46,
            CecOpcode::SetOsdName => 0x47,
            CecOpcode::MenuRequest => 0x8d,
            CecOpcode::MenuStatus => 0x8e,
            CecOpcode::UserControlPressed => 0x44,
            CecOpcode::UserControlReleased => 0x45,
            CecOpcode::GiveDevicePowerStatus => 0x8f,
            CecOpcode::ReportPowerStatus => 0x90,
            CecOpcode::FeatureAbort => 0x00,
            CecOpcode::Abort => 0xff,
            CecOpcode::GiveAudioStatus => 0x71,
            CecOpcode::GiveSystemAudioModeStatus => 0x7d,
            CecOpcode::ReportAudioStatus => 0x7a,
            CecOpcode::ReportShortAudioDescriptor => 0xa3,
            CecOpcode::RequestShortAudioDescriptor => 0xa4,
            CecOpcode::SetSystemAudioMode => 0x72,
            CecOpcode::SystemAudioModeRequest => 0x70,
            CecOpcode::SystemAudioModeStatus => 0x7e,
            CecOpcode::SetAudioRate => 0x9a,
            CecOpcode::RecordOff => 0x0b,
            CecOpcode::RecordOn => 0x09,
            CecOpcode::RecordStatus => 0x0a,
            CecOpcode::RecordTvScreen => 0x0f,
            CecOpcode::ClearAnalogueTimer => 0x33,
            CecOpcode::ClearDigitalTimer => 0x99,
            CecOpcode::ClearExtTimer => 0xa1,
            CecOpcode::SetAnalogueTimer => 0x34,
            CecOpcode::SetDigitalTimer => 0x97,
            CecOpcode::SetExtTimer => 0xa2,
            CecOpcode::SetTimerProgramTitle => 0x67,
            CecOpcode::TimerClearedStatus => 0x43,
            CecOpcode::TimerStatus => 0x35,
            CecOpcode::GiveTunerDeviceStatus => 0x08,
            CecOpcode::SelectAnalogueService => 0x92,
            CecOpcode::SelectDigitalService => 0x93,
            CecOpcode::TunerDeviceStatus => 0x07,
            CecOpcode::TunerStepDecrement => 0x06,
            CecOpcode::TunerStepIncrement => 0x05,
            CecOpcode::InitiateArc => 0xc0,
            CecOpcode::ReportArcInitiated => 0xc1,
            CecOpcode::ReportArcTerminated => 0xc2,
            CecOpcode::RequestArcInitiation => 0xc3,
            CecOpcode::RequestArcTermination => 0xc4,
            CecOpcode::TerminateArc => 0xc5,
            CecOpcode::RequestCurrentLatency => 0xa7,
            CecOpcode::ReportCurrentLatency => 0xa8,
            CecOpcode::CdcMessage => 0xf8,
        }
    }

    /// Decode a wire byte; `None` when the byte is not in the table.
    pub fn from_byte(b: u8) -> (r: Option<CecOpcode>)
        ensures
            r == CecOpcode::spec_from_byte(b),
    {
        if b == 0x82 {
            Some(CecOpcode::ActiveSource)
        } else if b == 0x04 {
            Some(CecOpcode::ImageViewOn)
        } else if b == 0x0d {
            Some(CecOpcode::TextViewOn)
        } else if b == 0x9d {
            Some(CecOpcode::InactiveSource)
        } else if b == 0x85 {
            Some(CecOpcode::RequestActiveSource)
        } else if b == 0x80 {
            Some(CecOpcode::RoutingChange)
        } else if b == 0x81 {
            Some(CecOpcode::RoutingInformation)
        } else if b == 0x86 {
            Some(CecOpcode::SetStreamPath)
        } else if b == 0x36 {
            Some(CecOpcode::Standby)
        } else if b == 0x9e {
            Some(CecOpcode::CecVersion)
        } else if b == 0x9f {
            Some(CecOpcode::GetCecVersion)
        } else if b == 0x83 {
            Some(CecOpcode::GivePhysicalAddr)
        } else if b == 0x91 {
            Some(CecOpcode::GetMenuLanguage)
        } else if b == 0x84 {
            Some(CecOpcode::ReportPhysicalAddr)
        } else if b == 0x32 {
            Some(CecOpcode::SetMenuLanguage)
        } else if b == 0xa6 {
            Some(CecOpcode::ReportFeatures)
        } else if b == 0xa5 {
            Some(CecOpcode::GiveFeatures)
        } else if b == 0x42 {
            Some(CecOpcode::DeckControl)
        } else if b == 0x1b {
            Some(CecOpcode::DeckStatus)
        } else if b == 0x1a {
            Some(CecOpcode::GiveDeckStatus)
        } else if b == 0x41 {
            Some(CecOpcode::Play)
        } else if b == 0x87 {
            Some(CecOpcode::DeviceVendorId)
        } else if b == 0x8c {
            Some(CecOpcode::GiveDeviceVendorId)
        } else if b == 0x89 {
            Some(CecOpcode::VendorCommand)
        } else if b == 0xa0 {
            Some(CecOpcode::VendorCommandWithId)
        } else if b == 0x8a {
            Some(CecOpcode::VendorRemoteButtonDown)
        } else if b == 0x8b {
            Some(CecOpcode::VendorRemoteButtonUp)
        } else if b == 0x64 {
            Some(CecOpcode::SetOsdString)
        } else if b == 0x46 {
            Some(CecOpcode::GiveOsdName)
        } else if b == 0x47 {
            Some(CecOpcode::SetOsdName)
        } else if b == 0x8d {
            Some(CecOpcode::MenuRequest)
        } else if b == 0x8e {
            Some(CecOpcode::MenuStatus)
        } else if b == 0x44 {
            Some(CecOpcode::UserControlPressed)
        } else if b == 0x45 {
            Some(CecOpcode::UserControlReleased)
        } else if b == 0x8f {
            Some(CecOpcode::GiveDevicePowerStatus)
        } else if b == 0x90 {
            Some(CecOpcode::ReportPowerStatus)
        } else if b == 0x00 {
            Some(CecOpcode::FeatureAbort)
        } else if b == 0xff {
            Some(CecOpcode::Abort)
        } else if b == 0x71 {
            Some(CecOpcode::GiveAudioStatus)
        } else if b == 0x7d {
            Some(CecOpcode::GiveSystemAudioModeStatus)
        } else if b == 0x7a {
            Some(CecOpcode::ReportAudioStatus)
        } else if b == 0xa3 {
            Some(CecOpcode::ReportShortAudioDescriptor)
        } else if b == 0xa4 {
            Some(CecOpcode::RequestShortAudioDescriptor)
        } else if b == 0x72 {
            Some(CecOpcode::SetSystemAudioMode)
        } else if b == 0x70 {
            Some(CecOpcode::SystemAudioModeRequest)
        } else if b == 0x7e {
            Some(CecOpcode::SystemAudioModeStatus)
        } else if b == 0x9a {
            Some(CecOpcode::SetAudioRate)
        } else if b == 0x0b {
            Some(CecOpcode::RecordOff)
        } else if b == 0x09 {
            Some(CecOpcode::RecordOn)
        } else if b == 0x0a {
            Some(CecOpcode::RecordStatus)
        } else if b == 0x0f {
            Some(CecOpcode::RecordTvScreen)
        } else if b == 0x33 {
            Some(CecOpcode::ClearAnalogueTimer)
        } else if b == 0x99 {
            Some(CecOpcode::ClearDigitalTimer)
        } else if b == 0xa1 {
            Some(CecOpcode::ClearExtTimer)
        } else if b == 0x34 {
            Some(CecOpcode::SetAnalogueTimer)
        } else if b == 0x97 {
            Some(CecOpcode::SetDigitalTimer)
        } else if b == 0xa2 {
            Some(CecOpcode::SetExtTimer)
        } else if b == 0x67 {
            Some(CecOpcode::SetTimerProgramTitle)
        } else if b == 0x43 {
            Some(CecOpcode::TimerClearedStatus)
        } else if b == 0x35 {
            Some(CecOpcode::TimerStatus)
        } else if b == 0x08 {
            Some(CecOpcode::GiveTunerDeviceStatus)
        } else if b == 0x92 {
            Some(CecOpcode::SelectAnalogueService)
        } else if b == 0x93 {
            Some(CecOpcode::SelectDigitalService)
        } else if b == 0x07 {
            Some(CecOpcode::TunerDeviceStatus)
        } else if b == 0x06 {
            Some(CecOpcode::TunerStepDecrement)
        } else if b == 0x05 {
            Some(CecOpcode::TunerStepIncrement)
        } else if b == 0xc0 {
            Some(CecOpcode::InitiateArc)
        } else if b == 0xc1 {
            Some(CecOpcode::ReportArcInitiated)
        } else if b == 0xc2 {
            Some(CecOpcode::ReportArcTerminated)
        } else if b == 0xc3 {
            Some(CecOpcode::RequestArcInitiation)
        } else if b == 0xc4 {
            Some(CecOpcode::RequestArcTermination)
        } else if b == 0xc5 {
            Some(CecOpcode::TerminateArc)
        } else if b == 0xa7 {
            Some(CecOpcode::RequestCurrentLatency)
        } else if b == 0xa8 {
            Some(CecOpcode::ReportCurrentLatency)
        } else if b == 0xf8 {
            Some(CecOpcode::CdcMessage)
        } else {
            None
        }
    }
}

/// Every opcode encodes to a byte that decodes back to it.
pub proof fn lemma_opcode_round_trip(op: CecOpcode)
    ensures
        CecOpcode::spec_from_byte(op.spec_value()) == Some(op),
{
}

/// A byte in the table decodes to the one opcode that encodes to it.
pub proof fn lemma_opcode_byte_round_trip(b: u8)
    requires
        CecOpcode::spec_from_byte(b) is Some,
    ensures
        CecOpcode::spec_from_byte(b)->Some_0.spec_value() == b,
{
}

/// No two opcodes share a wire byte: the registry is injective.
pub proof fn lemma_opcode_bytes_distinct(a: CecOpcode, b: CecOpcode)
    requires
        a.spec_value() == b.spec_value(),
    ensures
        a == b,
{
    lemma_opcode_round_trip(a);
    lemma_opcode_round_trip(b);
}

/// One remote-control key, the operand of a user-control keypress message.
#[derive(Debug, Eq, PartialEq, Clone, Copy, Structural)]
pub enum CecUserControlCode {
    Select,
    Up,
    Down,
    Left,
    Right,
    RightUp,
    RightDown,
    LeftUp,
    LeftDown,
    RootMenu,
    SetupMenu,
    ContentsMenu,
    FavoriteMenu,
    Exit,
    TopMenu,
    DvdMenu,
    NumberEntryMode,
    Number11,
    Number12,
    Number0,
    Number1,
    Number2,
    Number3,
    Number4,
    Number5,
    Number6,
    Number7,
    Number8,
    Number9,
    Dot,
    Enter,
    Clear,
    NextFavorite,
    ChannelUp,
    ChannelDown,
    PreviousChannel,
    SoundSelect,
    InputSelect,
    DisplayInformation,
    Help,
    PageUp,
    PageDown,
    Power,
    VolumeUp,
    VolumeDown,
    Mute,
    Play,
    Stop,
    Pause,
    Record,
    Rewind,
    FastForward,
    Eject,
    Forward,
    Backward,
    StopRecord,
    PauseRecord,
    Angle,
    SubPicture,
    VideoOnDemand,
    ElectronicProgramGuide,
    TimerProgramming,
    InitialConfiguration,
    SelectBroadcastType,
    SelectSoundPresentation,
    PlayFunction,
    PausePlayFunction,
    RecordFunction,
    PauseRecordFunction,
    StopFunction,
    MuteFunction,
    RestoreVolumeFunction,
    TuneFunction,
    SelectMediaFunction,
    SelectAvInputFunction,
    SelectAudioInputFunction,
    PowerToggleFunction,
    PowerOffFunction,
    PowerOnFunction,
    F1Blue,
    F2Red,
    F3Green,
    F4Yellow,
    F5,
    Data,
}

impl CecUserControlCode {
    /// The wire byte of this value.
    pub open spec fn spec_value(self) -> u8 {
        match self {
            CecUserControlCode::Select => 0x00,
            CecUserControlCode::Up => 0x01,
            CecUserControlCode::Down => 0x02,
            CecUserControlCode::Left => 0x03,
            CecUserControlCode::Right => 0x04,
            CecUserControlCode::RightUp => 0x05,
            CecUserControlCode::RightDown => 0x06,
            CecUserControlCode::LeftUp => 0x07,
            CecUserControlCode::LeftDown => 0x08,
            CecUserControlCode::RootMenu => 0x09,
            CecUserControlCode::SetupMenu => 0x0a,
            CecUserControlCode::ContentsMenu => 0x0b,
            CecUserControlCode::FavoriteMenu => 0x0c,
            CecUserControlCode::Exit => 0x0d,
            CecUserControlCode::TopMenu => 0x10,
            CecUserControlCode::DvdMenu => 0x11,
            CecUserControlCode::NumberEntryMode => 0x1d,
            CecUserControlCode::Number11 => 0x1e,
            CecUserControlCode::Number12 => 0x1f,
            CecUserControlCode::Number0 => 0x20,
            CecUserControlCode::Number1 => 0x21,
            CecUserControlCode::Number2 => 0x22,
            CecUserControlCode::Number3 => 0x23,
            CecUserControlCode::Number4 => 0x24,
            CecUserControlCode::Number5 => 0x25,
            CecUserControlCode::Number6 => 0x26,
            CecUserControlCode::Number7 => 0x27,
            CecUserControlCode::Number8 => 0x28,
            CecUserControlCode::Number9 => 0x29,
            CecUserControlCode::Dot => 0x2a,
            CecUserControlCode::Enter => 0x2b,
            CecUserControlCode::Clear => 0x2c,
            CecUserControlCode::NextFavorite => 0x2f,
            CecUserControlCode::ChannelUp => 0x30,
            CecUserControlCode::ChannelDown => 0x31,
            CecUserControlCode::PreviousChannel => 0x32,
            CecUserControlCode::SoundSelect => 0x33,
            CecUserControlCode::InputSelect => 0x34,
            CecUserControlCode::DisplayInformation => 0x35,
            CecUserControlCode::Help => 0x36,
            CecUserControlCode::PageUp => 0x37,
            CecUserControlCode::PageDown => 0x38,
            CecUserControlCode::Power => 0x40,
            CecUserControlCode::VolumeUp => 0x41,
            CecUserControlCode::VolumeDown => 0x42,
            CecUserControlCode::Mute => 0x43,
            CecUserControlCode::Play => 0x44,
            CecUserControlCode::Stop => 0x45,
            CecUserControlCode::Pause => 0x46,
            CecUserControlCode::Record => 0x47,
            CecUserControlCode::Rewind => 0x48,
            CecUserControlCode::FastForward => 0x49,
            CecUserControlCode::Eject => 0x4a,
            CecUserControlCode::Forward => 0x4b,
            CecUserControlCode::Backward => 0x4c,
            CecUserControlCode::StopRecord => 0x4d,
            CecUserControlCode::PauseRecord => 0x4e,
            CecUserControlCode::Angle => 0x50,
            CecUserControlCode::SubPicture => 0x51,
            CecUserControlCode::VideoOnDemand => 0x52,
            CecUserControlCode::ElectronicProgramGuide => 0x53,
            CecUserControlCode::TimerProgramming => 0x54,
            CecUserControlCode::InitialConfiguration => 0x55,
            CecUserControlCode::SelectBroadcastType => 0x56,
            CecUserControlCode::SelectSoundPresentation => 0x57,
            CecUserControlCode::PlayFunction => 0x60,
            CecUserControlCode::PausePlayFunction => 0x61,
            CecUserControlCode::RecordFunction => 0x62,
            CecUserControlCode::PauseRecordFunction => 0x63,
            CecUserControlCode::StopFunction => 0x64,
            CecUserControlCode::MuteFunction => 0x65,
            CecUserControlCode::RestoreVolumeFunction => 0x66,
            CecUserControlCode::TuneFunction => 0x67,
            CecUserControlCode::SelectMediaFunction => 0x68,
            CecUserControlCode::SelectAvInputFunction => 0x69,
            CecUserControlCode::SelectAudioInputFunction => 0x6a,
            CecUserControlCode::PowerToggleFunction => 0x6b,
            CecUserControlCode::PowerOffFunction => 0x6c,
            CecUserControlCode::PowerOnFunction => 0x6d,
            CecUserControlCode::F1Blue => 0x71,
            CecUserControlCode::F2Red => 0x72,
            CecUserControlCode::F3Green => 0x73,
            CecUserControlCode::F4Yellow => 0x74,
            CecUserControlCode::F5 => 0x75,
            CecUserControlCode::Data => 0x76,
        }
    }

    /// The value a wire byte decodes to, if it is in the table.
    pub open spec fn spec_from_byte(b: u8) -> Option<CecUserControlCode> {
        if b == 0x00 {
            Some(CecUserControlCode::Select)
        } else if b == 0x01 {
            Some(CecUserControlCode::Up)
        } else if b == 0x02 {
            Some(CecUserControlCode::Down)
        } else if b == 0x03 {
            Some(CecUserControlCode::Left)
        } else if b == 0x04 {
            Some(CecUserControlCode::Right)
        } else if b == 0x05 {
            Some(CecUserControlCode::RightUp)
        } else if b == 0x06 {
            Some(CecUserControlCode::RightDown)
        } else if b == 0x07 {
            Some(CecUserControlCode::LeftUp)
        } else if b == 0x08 {
            Some(CecUserControlCode::LeftDown)
        } else if b == 0x09 {
            Some(CecUserControlCode::RootMenu)
        } else if b == 0x0a {
            Some(CecUserControlCode::SetupMenu)
        } else if b == 0x0b {
            Some(CecUserControlCode::ContentsMenu)
        } else if b == 0x0c {
            Some(CecUserControlCode::FavoriteMenu)
        } else if b == 0x0d {
            Some(CecUserControlCode::Exit)
        } else if b == 0x10 {
            Some(CecUserControlCode::TopMenu)
        } else if b == 0x11 {
            Some(CecUserControlCode::DvdMenu)
        } else if b == 0x1d {
            Some(CecUserControlCode::NumberEntryMode)
        } else if b == 0x1e {
            Some(CecUserControlCode::Number11)
        } else if b == 0x1f {
            Some(CecUserControlCode::Number12)
        } else if b == 0x20 {
            Some(CecUserControlCode::Number0)
        } else if b == 0x21 {
            Some(CecUserControlCode::Number1)
        } else if b == 0x22 {
            Some(CecUserControlCode::Number2)
        } else if b == 0x23 {
            Some(CecUserControlCode::Number3)
        } else if b == 0x24 {
            Some(CecUserControlCode::Number4)
        } else if b == 0x25 {
            Some(CecUserControlCode::Number5)
        } else if b == 0x26 {
            Some(CecUserControlCode::Number6)
        } else if b == 0x27 {
            Some(CecUserControlCode::Number7)
        } else if b == 0x28 {
            Some(CecUserControlCode::Number8)
        } else if b == 0x29 {
            Some(CecUserControlCode::Number9)
        } else if b == 0x2a {
            Some(CecUserControlCode::Dot)
        } else if b == 0x2b {
            Some(CecUserControlCode::Enter)
        } else if b == 0x2c {
            Some(CecUserControlCode::Clear)
        } else if b == 0x2f {
            Some(CecUserControlCode::NextFavorite)
        } else if b == 0x30 {
            Some(CecUserControlCode::ChannelUp)
        } else if b == 0x31 {
            Some(CecUserControlCode::ChannelDown)
        } else if b == 0x32 {
            Some(CecUserControlCode::PreviousChannel)
        } else if b == 0x33 {
            Some(CecUserControlCode::SoundSelect)
        } else if b == 0x34 {
            Some(CecUserControlCode::InputSelect)
        } else if b == 0x35 {
            Some(CecUserControlCode::DisplayInformation)
        } else if b == 0x36 {
            Some(CecUserControlCode::Help)
        } else if b == 0x37 {
            Some(CecUserControlCode::PageUp)
        } else if b == 0x38 {
            Some(CecUserControlCode::PageDown)
        } else if b == 0x40 {
            Some(CecUserControlCode::Power)
        } else if b == 0x41 {
            Some(CecUserControlCode::VolumeUp)
        } else if b == 0x42 {
            Some(CecUserControlCode::VolumeDown)
        } else if b == 0x43 {
            Some(CecUserControlCode::Mute)
        } else if b == 0x44 {
            Some(CecUserControlCode::Play)
        } else if b == 0x45 {
            Some(CecUserControlCode::Stop)
        } else if b == 0x46 {
            Some(CecUserControlCode::Pause)
        } else if b == 0x47 {
            Some(CecUserControlCode::Record)
        } else if b == 0x48 {
            Some(CecUserControlCode::Rewind)
        } else if b == 0x49 {
            Some(CecUserControlCode::FastForward)
        } else if b == 0x4a {
            Some(CecUserControlCode::Eject)
        } else if b == 0x4b {
            Some(CecUserControlCode::Forward)
        } else if b == 0x4c {
            Some(CecUserControlCode::Backward)
        } else if b == 0x4d {
            Some(CecUserControlCode::StopRecord)
        } else if b == 0x4e {
            Some(CecUserControlCode::PauseRecord)
        } else if b == 0x50 {
            Some(CecUserControlCode::Angle)
        } else if b == 0x51 {
            Some(CecUserControlCode::SubPicture)
        } else if b == 0x52 {
            Some(CecUserControlCode::VideoOnDemand)
        } else if b == 0x53 {
            Some(CecUserControlCode::ElectronicProgramGuide)
        } else if b == 0x54 {
            Some(CecUserControlCode::TimerProgramming)
        } else if b == 0x55 {
            Some(CecUserControlCode::InitialConfiguration)
        } else if b == 0x56 {
            Some(CecUserControlCode::SelectBroadcastType)
        } else if b == 0x57 {
            Some(CecUserControlCode::SelectSoundPresentation)
        } else if b == 0x60 {
            Some(CecUserControlCode::PlayFunction)
        } else if b == 0x61 {
            Some(CecUserControlCode::PausePlayFunction)
        } else if b == 0x62 {
            Some(CecUserControlCode::RecordFunction)
        } else if b == 0x63 {
            Some(CecUserControlCode::PauseRecordFunction)
        } else if b == 0x64 {
            Some(CecUserControlCode::StopFunction)
        } else if b == 0x65 {
            Some(CecUserControlCode::MuteFunction)
        } else if b == 0x66 {
            Some(CecUserControlCode::RestoreVolumeFunction)
        } else if b == 0x67 {
            Some(CecUserControlCode::TuneFunction)
        } else if b == 0x68 {
            Some(CecUserControlCode::SelectMediaFunction)
        } else if b == 0x69 {
            Some(CecUserControlCode::SelectAvInputFunction)
        } else if b == 0x6a {
            Some(CecUserControlCode::SelectAudioInputFunction)
        } else if b == 0x6b {
            Some(CecUserControlCode::PowerToggleFunction)
        } else if b == 0x6c {
            Some(CecUserControlCode::PowerOffFunction)
        } else if b == 0x6d {
            Some(CecUserControlCode::PowerOnFunction)
        } else if b == 0x71 {
            Some(CecUserControlCode::F1Blue)
        } else if b == 0x72 {
            Some(CecUserControlCode::F2Red)
        } else if b == 0x73 {
            Some(CecUserControlCode::F3Green)
        } else if b == 0x74 {
            Some(CecUserControlCode::F4Yellow)
        } else if b == 0x75 {
            Some(CecUserControlCode::F5)
        } else if b == 0x76 {
            Some(CecUserControlCode::Data)
        } else {
            None
        }
    }

    /// The wire byte of this value.
    #[verifier::when_used_as_spec(spec_value)]
    pub fn value(self) -> (r: u8)
        ensures
            r == self.spec_value(),
    {
        match self {
            CecUserControlCode::Select => 0x00,
            CecUserControlCode::Up => 0x01,
            CecUserControlCode::Down => 0x02,
            CecUserControlCode::Left => 0x03,
            CecUserControlCode::Right => 0x04,
            CecUserControlCode::RightUp => 0x05,
            CecUserControlCode::RightDown => 0x06,
            CecUserControlCode::LeftUp => 0x07,
            CecUserControlCode::LeftDown => 0x08,
            CecUserControlCode::RootMenu => 0x09,
            CecUserControlCode::SetupMenu => 0x0a,
            CecUserControlCode::ContentsMenu => 0x0b,
            CecUserControlCode::FavoriteMenu => 0x0c,
            CecUserControlCode::Exit => 0x0d,
            CecUserControlCode::TopMenu => 0x10,
            CecUserControlCode::DvdMenu => 0x11,
            CecUserControlCode::NumberEntryMode => 0x1d,
            CecUserControlCode::Number11 => 0x1e,
            CecUserControlCode::Number12 => 0x1f,
            CecUserControlCode::Number0 => 0x20,
            CecUserControlCode::Number1 => 0x21,
            CecUserControlCode::Number2 => 0x22,
            CecUserControlCode::Number3 => 0x23,
            CecUserControlCode::Number4 => 0x24,
            CecUserControlCode::Number5 => 0x25,
            CecUserControlCode::Number6 => 0x26,
            CecUserControlCode::Number7 => 0x27,
            CecUserControlCode::Number8 => 0x28,
            CecUserControlCode::Number9 => 0x29,
            CecUserControlCode::Dot => 0x2a,
            CecUserControlCode::Enter => 0x2b,
            CecUserControlCode::Clear => 0x2c,
            CecUserControlCode::NextFavorite => 0x2f,
            CecUserControlCode::ChannelUp => 0x30,
            CecUserControlCode::ChannelDown => 0x31,
            CecUserControlCode::PreviousChannel => 0x32,
            CecUserControlCode::SoundSelect => 0x33,
            CecUserControlCode::InputSelect => 0x34,
            CecUserControlCode::DisplayInformation => 0x35,
            CecUserControlCode::Help => 0x36,
            CecUserControlCode::PageUp => 0x37,
            CecUserControlCode::PageDown => 0x38,
            CecUserControlCode::Power => 0x40,
            CecUserControlCode::VolumeUp => 0x41,
            CecUserControlCode::VolumeDown => 0x42,
            CecUserControlCode::Mute => 0x43,
            CecUserControlCode::Play => 0x44,
            CecUserControlCode::Stop => 0x45,
            CecUserControlCode::Pause => 0x46,
            CecUserControlCode::Record => 0x47,
            CecUserControlCode::Rewind => 0x48,
            CecUserControlCode::FastForward => 0x49,
            CecUserControlCode::Eject => 0x4a,
            CecUserControlCode::Forward => 0x4b,
            CecUserControlCode::Backward => 0x4c,
            CecUserControlCode::StopRecord => 0x4d,
            CecUserControlCode::PauseRecord => 0x4e,
            CecUserControlCode::Angle => 0x50,
            CecUserControlCode::SubPicture => 0x51,
            CecUserControlCode::VideoOnDemand => 0x52,
            CecUserControlCode::ElectronicProgramGuide => 0x53,
            CecUserControlCode::TimerProgramming => 0x54,
            CecUserControlCode::InitialConfiguration => 0x55,
            CecUserControlCode::SelectBroadcastType => 0x56,
            CecUserControlCode::SelectSoundPresentation => 0x57,
            CecUserControlCode::PlayFunction => 0x60,
            CecUserControlCode::PausePlayFunction => 0x61,
            CecUserControlCode::RecordFunction => 0x62,
            CecUserControlCode::PauseRecordFunction => 0x63,
            CecUserControlCode::StopFunction => 0x64,
            CecUserControlCode::MuteFunction => 0x65,
            CecUserControlCode::RestoreVolumeFunction => 0x66,
            CecUserControlCode::TuneFunction => 0x67,
            CecUserControlCode::SelectMediaFunction => 0x68,
            CecUserControlCode::SelectAvInputFunction => 0x69,
            CecUserControlCode::SelectAudioInputFunction => 0x6a,
            CecUserControlCode::PowerToggleFunction => 0x6b,
            CecUserControlCode::PowerOffFunction => 0x6c,
            CecUserControlCode::PowerOnFunction => 0x6d,
            CecUserControlCode::F1Blue => 0x71,
            CecUserControlCode::F2Red => 0x72,
            CecUserControlCode::F3Green => 0x73,
            CecUserControlCode::F4Yellow => 0x74,
            CecUserControlCode::F5 => 0x75,
            CecUserControlCode::Data => 0x76,
        }
    }

    /// Decode a wire byte; `None` when the byte is not in the table.
    pub fn from_byte(b: u8) -> (r: Option<CecUserControlCode>)
        ensures
            r == CecUserControlCode::spec_from_byte(b),
    {
        if b == 0x00 {
            Some(CecUserControlCode::Select)
        } else if b == 0x01 {
            Some(CecUserControlCode::Up)
        } else if b == 0x02 {
            Some(CecUserControlCode::Down)
        } else if b == 0x03 {
            Some(CecUserControlCode::Left)
        } else if b == 0x04 {
            Some(CecUserControlCode::Right)
        } else if b == 0x05 {
            Some(CecUserControlCode::RightUp)
        } else if b == 0x06 {
            Some(CecUserControlCode::RightDown)
        } else if b == 0x07 {
            Some(CecUserControlCode::LeftUp)
        } else if b == 0x08 {
            Some(CecUserControlCode::LeftDown)
        } else if b == 0x09 {
            Some(CecUserControlCode::RootMenu)
        } else if b == 0x0a {
            Some(CecUserControlCode::SetupMenu)
        } else if b == 0x0b {
            Some(CecUserControlCode::ContentsMenu)
        } else if b == 0x0c {
            Some(CecUserControlCode::FavoriteMenu)
        } else if b == 0x0d {
            Some(CecUserControlCode::Exit)
        } else if b == 0x10 {
            Some(CecUserControlCode::TopMenu)
        } else if b == 0x11 {
            Some(CecUserControlCode::DvdMenu)
        } else if b == 0x1d {
            Some(CecUserControlCode::NumberEntryMode)
        } else if b == 0x1e {
            Some(CecUserControlCode::Number11)
        } else if b == 0x1f {
            Some(CecUserControlCode::Number12)
        } else if b == 0x20 {
            Some(CecUserControlCode::Number0)
        } else if b == 0x21 {
            Some(CecUserControlCode::Number1)
        } else if b == 0x22 {
            Some(CecUserControlCode::Number2)
        } else if b == 0x23 {
            Some(CecUserControlCode::Number3)
        } else if b == 0x24 {
            Some(CecUserControlCode::Number4)
        } else if b == 0x25 {
            Some(CecUserControlCode::Number5)
        } else if b == 0x26 {
            Some(CecUserControlCode::Number6)
        } else if b == 0x27 {
            Some(CecUserControlCode::Number7)
        } else if b == 0x28 {
            Some(CecUserControlCode::Number8)
        } else if b == 0x29 {
            Some(CecUserControlCode::Number9)
        } else if b == 0x2a {
            Some(CecUserControlCode::Dot)
        } else if b == 0x2b {
            Some(CecUserControlCode::Enter)
        } else if b == 0x2c {
            Some(CecUserControlCode::Clear)
        } else if b == 0x2f {
            Some(CecUserControlCode::NextFavorite)
        } else if b == 0x30 {
            Some(CecUserControlCode::ChannelUp)
        } else if b == 0x31 {
            Some(CecUserControlCode::ChannelDown)
        } else if b == 0x32 {
            Some(CecUserControlCode::PreviousChannel)
        } else if b == 0x33 {
            Some(CecUserControlCode::SoundSelect)
        } else if b == 0x34 {
            Some(CecUserControlCode::InputSelect)
        } else if b == 0x35 {
            Some(CecUserControlCode::DisplayInformation)
        } else if b == 0x36 {
            Some(CecUserControlCode::Help)
        } else if b == 0x37 {
            Some(CecUserControlCode::PageUp)
        } else if b == 0x38 {
            Some(CecUserControlCode::PageDown)
        } else if b == 0x40 {
            Some(CecUserControlCode::Power)
        } else if b == 0x41 {
            Some(CecUserControlCode::VolumeUp)
        } else if b == 0x42 {
            Some(CecUserControlCode::VolumeDown)
        } else if b == 0x43 {
            Some(CecUserControlCode::Mute)
        } else if b == 0x44 {
            Some(CecUserControlCode::Play)
        } else if b == 0x45 {
            Some(CecUserControlCode::Stop)
        } else if b == 0x46 {
            Some(CecUserControlCode::Pause)
        } else if b == 0x47 {
            Some(CecUserControlCode::Record)
        } else if b == 0x48 {
            Some(CecUserControlCode::Rewind)
        } else if b == 0x49 {
            Some(CecUserControlCode::FastForward)
        } else if b == 0x4a {
            Some(CecUserControlCode::Eject)
        } else if b == 0x4b {
            Some(CecUserControlCode::Forward)
        } else if b == 0x4c {
            Some(CecUserControlCode::Backward)
        } else if b == 0x4d {
            Some(CecUserControlCode::StopRecord)
        } else if b == 0x4e {
            Some(CecUserControlCode::PauseRecord)
        } else if b == 0x50 {
            Some(CecUserControlCode::Angle)
        } else if b == 0x51 {
            Some(CecUserControlCode::SubPicture)
        } else if b == 0x52 {
            Some(CecUserControlCode::VideoOnDemand)
        } else if b == 0x53 {
            Some(CecUserControlCode::ElectronicProgramGuide)
        } else if b == 0x54 {
            Some(CecUserControlCode::TimerProgramming)
        } else if b == 0x55 {
            Some(CecUserControlCode::InitialConfiguration)
        } else if b == 0x56 {
            Some(CecUserControlCode::SelectBroadcastType)
        } else if b == 0x57 {
            Some(CecUserControlCode::SelectSoundPresentation)
        } else if b == 0x60 {
            Some(CecUserControlCode::PlayFunction)
        } else if b == 0x61 {
            Some(CecUserControlCode::PausePlayFunction)
        } else if b == 0x62 {
            Some(CecUserControlCode::RecordFunction)
        } else if b == 0x63 {
            Some(CecUserControlCode::PauseRecordFunction)
        } else if b == 0x64 {
            Some(CecUserControlCode::StopFunction)
        } else if b == 0x65 {
            Some(CecUserControlCode::MuteFunction)
        } else if b == 0x66 {
            Some(CecUserControlCode::RestoreVolumeFunction)
        } else if b == 0x67 {
            Some(CecUserControlCode::TuneFunction)
        } else if b == 0x68 {
            Some(CecUserControlCode::SelectMediaFunction)
        } else if b == 0x69 {
            Some(CecUserControlCode::SelectAvInputFunction)
        } else if b == 0x6a {
            Some(CecUserControlCode::SelectAudioInputFunction)
        } else if b == 0x6b {
            Some(CecUserControlCode::PowerToggleFunction)
        } else if b == 0x6c {
            Some(CecUserControlCode::PowerOffFunction)
        } else if b == 0x6d {
            Some(CecUserControlCode::PowerOnFunction)
        } else if b == 0x71 {
            Some(CecUserControlCode::F1Blue)
        } else if b == 0x72 {
            Some(CecUserControlCode::F2Red)
        } else if b == 0x73 {
            Some(CecUserControlCode::F3Green)
        } else if b == 0x74 {
            Some(CecUserControlCode::F4Yellow)
        } else if b == 0x75 {
            Some(CecUserControlCode::F5)
        } else if b == 0x76 {
            Some(CecUserControlCode::Data)
        } else {
            None
        }
    }
}

/// The reason operand a feature-abort reply carries.
#[derive(Debug, Eq, PartialEq, Clone, Copy, Structural)]
pub enum CecAbortReason {
    Unrecognized,
    WrongMode,
    NoSource,
    InvalidOp,
    Refused,
    Other,
}

impl CecAbortReason {
    /// The wire byte of this value.
    pub open spec fn spec_value(self) -> u8 {
        match self {
            CecAbortReason::Unrecognized => 0,
            CecAbortReason::WrongMode => 1,
            CecAbortReason::NoSource => 2,
            CecAbortReason::InvalidOp => 3,
            CecAbortReason::Refused => 4,
            CecAbortReason::Other => 5,
        }
    }

    /// The value a wire byte decodes to, if it is in the table.
    pub open spec fn spec_from_byte(b: u8) -> Option<CecAbortReason> {
        if b == 0 {
            Some(CecAbortReason::Unrecognized)
        } else if b == 1 {
            Some(CecAbortReason::WrongMode)
        } else if b == 2 {
            Some(CecAbortReason::NoSource)
        } else if b == 3 {
            Some(CecAbortReason::InvalidOp)
        } else if b == 4 {
            Some(CecAbortReason::Refused)
        } else if b == 5 {
            Some(CecAbortReason::Other)
        } else {
            None
        }
    }

    /// The wire byte of this value.
    #[verifier::when_used_as_spec(spec_value)]
    pub fn value(self) -> (r: u8)
        ensures
            r == self.spec_value(),
    {
        match self {
            CecAbortReason::Unrecognized => 0,
            CecAbortReason::WrongMode => 1,
            CecAbortReason::NoSource => 2,
            CecAbortReason::InvalidOp => 3,
            CecAbortReason::Refused => 4,
            CecAbortReason::Other => 5,
        }
    }

    /// Decode a wire byte; `None` when the byte is not in the table.
    pub fn from_byte(b: u8) -> (r: Option<CecAbortReason>)
        ensures
            r == CecAbortReason::spec_from_byte(b),
    {
        if b == 0 {
            Some(CecAbortReason::Unrecognized)
        } else if b == 1 {
            Some(CecAbortReason::WrongMode)
        } else if b == 2 {
            Some(CecAbortReason::NoSource)
        } else if b == 3 {
            Some(CecAbortReason::InvalidOp)
        } else if b == 4 {
            Some(CecAbortReason::Refused)
        } else if b == 5 {
            Some(CecAbortReason::Other)
        } else {
            None
        }
    }
}

/// The power-state operand of a power-status report.
#[derive(Debug, Eq, PartialEq, Clone, Copy, Structural)]
pub enum CecPowerStatus {
    On,
    Standby,
    InTransitionStandbyToOn,
    InTransitionOnToStandby,
}

impl CecPowerStatus {
    /// The wire byte of this value.
    pub open spec fn spec_value(self) -> u8 {
        match self {
            CecPowerStatus::On => 0,
            CecPowerStatus::Standby => 1,
            CecPowerStatus::InTransitionStandbyToOn => 2,
            CecPowerStatus::InTransitionOnToStandby => 3,
        }
    }

    /// The value a wire byte decodes to, if it is in the table.
    pub open spec fn spec_from_byte(b: u8) -> Option<CecPowerStatus> {
        if b == 0 {
            Some(CecPowerStatus::On)
        } else if b == 1 {
            Some(CecPowerStatus::Standby)
        } else if b == 2 {
            Some(CecPowerStatus::InTransitionStandbyToOn)
        } else if b == 3 {
            Some(CecPowerStatus::InTransitionOnToStandby)
        } else {
            None
        }
    }

    /// The wire byte of this value.
    #[verifier::when_used_as_spec(spec_value)]
    pub fn value(self) -> (r: u8)
        ensures
            r == self.spec_value(),
    {
        match self {
            CecPowerStatus::On => 0,
            CecPowerStatus::Standby => 1,
            CecPowerStatus::InTransitionStandbyToOn => 2,
            CecPowerStatus::InTransitionOnToStandby => 3,
        }
    }

    /// Decode a wire byte; `None` when the byte is not in the table.
    pub fn from_byte(b: u8) -> (r: Option<CecPowerStatus>)
        ensures
            r == CecPowerStatus::spec_from_byte(b),
    {
        if b == 0 {
            Some(CecPowerStatus::On)
        } else if b == 1 {
            Some(CecPowerStatus::Standby)
        } else if b == 2 {
            Some(CecPowerStatus::InTransitionStandbyToOn)
        } else if b == 3 {
            Some(CecPowerStatus::InTransitionOnToStandby)
        } else {
            None
        }
    }
}

/// The operand of a deck-control command.
#[derive(Debug, Eq, PartialEq, Clone, Copy, Structural)]
pub enum DeckControlMode {
    Skip,
    Rewind,
    Stop,
    Eject,
}

impl DeckControlMode {
    /// The wire byte of this value.
    pub open spec fn spec_value(self) -> u8 {
        match self {
            DeckControlMode::Skip => 1,
            DeckControlMode::Rewind => 2,
            DeckControlMode::Stop => 3,
            DeckControlMode::Eject => 4,
        }
    }

    /// The value a wire byte decodes to, if it is in the table.
    pub open spec fn spec_from_byte(b: u8) -> Option<DeckControlMode> {
        if b == 1 {
            Some(DeckControlMode::Skip)
        } else if b == 2 {
            Some(DeckControlMode::Rewind)
        } else if b == 3 {
            Some(DeckControlMode::Stop)
        } else if b == 4 {
            Some(DeckControlMode::Eject)
        } else {
            None
        }
    }

    /// The wire byte of this value.
    #[verifier::when_used_as_spec(spec_value)]
    pub fn value(self) -> (r: u8)
        ensures
            r == self.spec_value(),
    {
        match self {
            DeckControlMode::Skip => 1,
            DeckControlMode::Rewind => 2,
            DeckControlMode::Stop => 3,
            DeckControlMode::Eject => 4,
        }
    }

    /// Decode a wire byte; `None` when the byte is not in the table.
    pub fn from_byte(b: u8) -> (r: Option<DeckControlMode>)
        ensures
            r == DeckControlMode::spec_from_byte(b),
    {
        if b == 1 {
            Some(DeckControlMode::Skip)
        } else if b == 2 {
            Some(DeckControlMode::Rewind)
        } else if b == 3 {
            Some(DeckControlMode::Stop)
        } else if b == 4 {
            Some(DeckControlMode::Eject)
        } else {
            None
        }
    }
}

/// The deck-state operand of a deck-status report.
#[derive(Debug, Eq, PartialEq, Clone, Copy, Structural)]
pub enum DeckInfo {
    Play,
    Record,
    PlayRev,
    Still,
    Slow,
    SlowRev,
    FastFwd,
    FastRev,
    NoMedia,
    Stop,
    SkipFwd,
    SkipRev,
    IndexSearchFwd,
    IndexSearchRev,
    Other,
}

impl DeckInfo {
    /// The wire byte of this value.
    pub open spec fn spec_value(self) -> u8 {
        match self {
            DeckInfo::Play => 0x11,
            DeckInfo::Record => 0x12,
            DeckInfo::PlayRev => 0x13,
            DeckInfo::Still => 0x14,
            DeckInfo::Slow => 0x15,
            DeckInfo::SlowRev => 0x16,
            DeckInfo::FastFwd => 0x17,
            DeckInfo::FastRev => 0x18,
            DeckInfo::NoMedia => 0x19,
            DeckInfo::Stop => 0x1a,
            DeckInfo::SkipFwd => 0x1b,
            DeckInfo::SkipRev => 0x1c,
            DeckInfo::IndexSearchFwd => 0x1d,
            DeckInfo::IndexSearchRev => 0x1e,
            DeckInfo::Other => 0x1f,
        }
    }

    /// The value a wire byte decodes to, if it is in the table.
    pub open spec fn spec_from_byte(b: u8) -> Option<DeckInfo> {
        if b == 0x11 {
            Some(DeckInfo::Play)
        } else if b == 0x12 {
            Some(DeckInfo::Record)
        } else if b == 0x13 {
            Some(DeckInfo::PlayRev)
        } else if b == 0x14 {
            Some(DeckInfo::Still)
        } else if b == 0x15 {
            Some(DeckInfo::Slow)
        } else if b == 0x16 {
            Some(DeckInfo::SlowRev)
        } else if b == 0x17 {
            Some(DeckInfo::FastFwd)
        } else if b == 0x18 {
            Some(DeckInfo::FastRev)
        } else if b == 0x19 {
            Some(DeckInfo::NoMedia)
        } else if b == 0x1a {
            Some(DeckInfo::Stop)
        } else if b == 0x1b {
            Some(DeckInfo::SkipFwd)
        } else if b == 0x1c {
            Some(DeckInfo::SkipRev)
        } else if b == 0x1d {
            Some(DeckInfo::IndexSearchFwd)
        } else if b == 0x1e {
            Some(DeckInfo::IndexSearchRev)
        } else if b == 0x1f {
            Some(DeckInfo::Other)
        } else {
            None
        }
    }

    /// The wire byte of this value.
    #[verifier::when_used_as_spec(spec_value)]
    pub fn value(self) -> (r: u8)
        ensures
            r == self.spec_value(),
    {
        match self {
            DeckInfo::Play => 0x11,
            DeckInfo::Record => 0x12,
            DeckInfo::PlayRev => 0x13,
            DeckInfo::Still => 0x14,
            DeckInfo::Slow => 0x15,
            DeckInfo::SlowRev => 0x16,
            DeckInfo::FastFwd => 0x17,
            DeckInfo::FastRev => 0x18,
            DeckInfo::NoMedia => 0x19,
            DeckInfo::Stop => 0x1a,
            DeckInfo::SkipFwd => 0x1b,
            DeckInfo::SkipRev => 0x1c,
            DeckInfo::IndexSearchFwd => 0x1d,
            DeckInfo::IndexSearchRev => 0x1e,
            DeckInfo::Other => 0x1f,
        }
    }

    /// Decode a wire byte; `None` when the byte is not in the table.
    pub fn from_byte(b: u8) -> (r: Option<DeckInfo>)
        ensures
            r == DeckInfo::spec_from_byte(b),
    {
        if b == 0x11 {
            Some(DeckInfo::Play)
        } else if b == 0x12 {
            Some(DeckInfo::Record)
        } else if b == 0x13 {
            Some(DeckInfo::PlayRev)
        } else if b == 0x14 {
            Some(DeckInfo::Still)
        } else if b == 0x15 {
            Some(DeckInfo::Slow)
        } else if b == 0x16 {
            Some(DeckInfo::SlowRev)
        } else if b == 0x17 {
            Some(DeckInfo::FastFwd)
        } else if b == 0x18 {
            Some(DeckInfo::FastRev)
        } else if b == 0x19 {
            Some(DeckInfo::NoMedia)
        } else if b == 0x1a {
            Some(DeckInfo::Stop)
        } else if b == 0x1b {
            Some(DeckInfo::SkipFwd)
        } else if b == 0x1c {
            Some(DeckInfo::SkipRev)
        } else if b == 0x1d {
            Some(DeckInfo::IndexSearchFwd)
        } else if b == 0x1e {
            Some(DeckInfo::IndexSearchRev)
        } else if b == 0x1f {
            Some(DeckInfo::Other)
        } else {
            None
        }
    }
}

/// The display-timing operand of an on-screen-display string.
#[derive(Debug, Eq, PartialEq, Clone, Copy, Structural)]
pub enum DisplayControl {
    Default,
    UntilCleared,
    Clear,
}

impl DisplayControl {
    /// The wire byte of this value.
    pub open spec fn spec_value(self) -> u8 {
        match self {
            DisplayControl::Default => 0x00,
            DisplayControl::UntilCleared => 0x40,
            DisplayControl::Clear => 0x80,
        }
    }

    /// The value a wire byte decodes to, if it is in the table.
    pub open spec fn spec_from_byte(b: u8) -> Option<DisplayControl> {
        if b == 0x00 {
            Some(DisplayControl::Default)
        } else if b == 0x40 {
            Some(DisplayControl::UntilCleared)
        } else if b == 0x80 {
            Some(DisplayControl::Clear)
        } else {
            None
        }
    }

    /// The wire byte of this value.
    #[verifier::when_used_as_spec(spec_value)]
    pub fn value(self) -> (r: u8)
        ensures
            r == self.spec_value(),
    {
        match self {
            DisplayControl::Default => 0x00,
            DisplayControl::UntilCleared => 0x40,
            DisplayControl::Clear => 0x80,
        }
    }

    /// Decode a wire byte; `None` when the byte is not in the table.
    pub fn from_byte(b: u8) -> (r: Option<DisplayControl>)
        ensures
            r == DisplayControl::spec_from_byte(b),
    {
        if b == 0x00 {
            Some(DisplayControl::Default)
        } else if b == 0x40 {
            Some(DisplayControl::UntilCleared)
        } else if b == 0x80 {
            Some(DisplayControl::Clear)
        } else {
            None
        }
    }
}

/// The operand of a menu request.
#[derive(Debug, Eq, PartialEq, Clone, Copy, Structural)]
pub enum MenuRequestType {
    Activate,
    Deactivate,
    Query,
}

impl MenuRequestType {
    /// The wire byte of this value.
    pub open spec fn spec_value(self) -> u8 {
        match self {
            MenuRequestType::Activate => 0x00,
            MenuRequestType::Deactivate => 0x01,
            MenuRequestType::Query => 0x02,
        }
    }

    /// The value a wire byte decodes to, if it is in the table.
    pub open spec fn spec_from_byte(b: u8) -> Option<MenuRequestType> {
        if b == 0x00 {
            Some(MenuRequestType::Activate)
        } else if b == 0x01 {
            Some(MenuRequestType::Deactivate)
        } else if b == 0x02 {
            Some(MenuRequestType::Query)
        } else {
            None
        }
    }

    /// The wire byte of this value.
    #[verifier::when_used_as_spec(spec_value)]
    pub fn value(self) -> (r: u8)
        ensures
            r == self.spec_value(),
    {
        match self {
            MenuRequestType::Activate => 0x00,
            MenuRequestType::Deactivate => 0x01,
            MenuRequestType::Query => 0x02,
        }
    }

    /// Decode a wire byte; `None` when the byte is not in the table.
    pub fn from_byte(b: u8) -> (r: Option<MenuRequestType>)
        ensures
            r == MenuRequestType::spec_from_byte(b),
    {
        if b == 0x00 {
            Some(MenuRequestType::Activate)
        } else if b == 0x01 {
            Some(MenuRequestType::Deactivate)
        } else if b == 0x02 {
            Some(MenuRequestType::Query)
        } else {
            None
        }
    }
}

/// The playback-behaviour operand of a play command.
#[derive(Debug, Eq, PartialEq, Clone, Copy, Structural)]
pub enum PlayMode {
    Fwd,
    Rev,
    Still,
    FastFwdMin,
    FastFwdMed,
    FastFwdMax,
    FastRevMin,
    FastRevMed,
    FastRevMax,
    SlowFwdMin,
    SlowFwdMed,
    SlowFwdMax,
    SlowRevMin,
    SlowRevMed,
    SlowRevMax,
}

impl PlayMode {
    /// The wire byte of this value.
    pub open spec fn spec_value(self) -> u8 {
        match self {
            PlayMode::Fwd => 0x24,
            PlayMode::Rev => 0x20,
            PlayMode::Still => 0x25,
            PlayMode::FastFwdMin => 0x05,
            PlayMode::FastFwdMed => 0x06,
            PlayMode::FastFwdMax => 0x07,
            PlayMode::FastRevMin => 0x09,
            PlayMode::FastRevMed => 0x0a,
            PlayMode::FastRevMax => 0x0b,
            PlayMode::SlowFwdMin => 0x15,
            PlayMode::SlowFwdMed => 0x16,
            PlayMode::SlowFwdMax => 0x17,
            PlayMode::SlowRevMin => 0x19,
            PlayMode::SlowRevMed => 0x1a,
            PlayMode::SlowRevMax => 0x1b,
        }
    }

    /// The value a wire byte decodes to, if it is in the table.
    pub open spec fn spec_from_byte(b: u8) -> Option<PlayMode> {
        if b == 0x24 {
            Some(PlayMode::Fwd)
        } else if b == 0x20 {
            Some(PlayMode::Rev)
        } else if b == 0x25 {
            Some(PlayMode::Still)
        } else if b == 0x05 {
            Some(PlayMode::FastFwdMin)
        } else if b == 0x06 {
            Some(PlayMode::FastFwdMed)
        } else if b == 0x07 {
            Some(PlayMode::FastFwdMax)
        } else if b == 0x09 {
            Some(PlayMode::FastRevMin)
        } else if b == 0x0a {
            Some(PlayMode::FastRevMed)
        } else if b == 0x0b {
            Some(PlayMode::FastRevMax)
        } else if b == 0x15 {
            Some(PlayMode::SlowFwdMin)
        } else if b == 0x16 {
            Some(PlayMode::SlowFwdMed)
        } else if b == 0x17 {
            Some(PlayMode::SlowFwdMax)
        } else if b == 0x19 {
            Some(PlayMode::SlowRevMin)
        } else if b == 0x1a {
            Some(PlayMode::SlowRevMed)
        } else if b == 0x1b {
            Some(PlayMode::SlowRevMax)
        } else {
            None
        }
    }

    /// The wire byte of this value.
    #[verifier::when_used_as_spec(spec_value)]
    pub fn value(self) -> (r: u8)
        ensures
            r == self.spec_value(),
    {
        match self {
            PlayMode::Fwd => 0x24,
            PlayMode::Rev => 0x20,
            PlayMode::Still => 0x25,
            PlayMode::FastFwdMin => 0x05,
            PlayMode::FastFwdMed => 0x06,
            PlayMode::FastFwdMax => 0x07,
            PlayMode::FastRevMin => 0x09,
            PlayMode::FastRevMed => 0x0a,
            PlayMode::FastRevMax => 0x0b,
            PlayMode::SlowFwdMin => 0x15,
            PlayMode::SlowFwdMed => 0x16,
            PlayMode::SlowFwdMax => 0x17,
            PlayMode::SlowRevMin => 0x19,
            PlayMode::SlowRevMed => 0x1a,
            PlayMode::SlowRevMax => 0x1b,
        }
    }

    /// Decode a wire byte; `None` when the byte is not in the table.
    pub fn from_byte(b: u8) -> (r: Option<PlayMode>)
        ensures
            r == PlayMode::spec_from_byte(b),
    {
        if b == 0x24 {
            Some(PlayMode::Fwd)
        } else if b == 0x20 {
            Some(PlayMode::Rev)
        } else if b == 0x25 {
            Some(PlayMode::Still)
        } else if b == 0x05 {
            Some(PlayMode::FastFwdMin)
        } else if b == 0x06 {
            Some(PlayMode::FastFwdMed)
        } else if b == 0x07 {
            Some(PlayMode::FastFwdMax)
        } else if b == 0x09 {
            Some(PlayMode::FastRevMin)
        } else if b == 0x0a {
            Some(PlayMode::FastRevMed)
        } else if b == 0x0b {
            Some(PlayMode::FastRevMax)
        } else if b == 0x15 {
            Some(PlayMode::SlowFwdMin)
        } else if b == 0x16 {
            Some(PlayMode::SlowFwdMed)
        } else if b == 0x17 {
            Some(PlayMode::SlowFwdMax)
        } else if b == 0x19 {
            Some(PlayMode::SlowRevMin)
        } else if b == 0x1a {
            Some(PlayMode::SlowRevMed)
        } else if b == 0x1b {
            Some(PlayMode::SlowRevMax)
        } else {
            None
        }
    }
}

/// The operand of a deck- or tuner-status request.
#[derive(Debug, Eq, PartialEq, Clone, Copy, Structural)]
pub enum StatusRequest {
    On,
    Off,
    Once,
}

impl StatusRequest {
    /// The wire byte of this value.
    pub open spec fn spec_value(self) -> u8 {
        match self {
            StatusRequest::On => 1,
            StatusRequest::Off => 2,
            StatusRequest::Once => 3,
        }
    }

    /// The value a wire byte decodes to, if it is in the table.
    pub open spec fn spec_from_byte(b: u8) -> Option<StatusRequest> {
        if b == 1 {
            Some(StatusRequest::On)
        } else if b == 2 {
            Some(StatusRequest::Off)
        } else if b == 3 {
            Some(StatusRequest::Once)
        } else {
            None
        }
    }

    /// The wire byte of this value.
    #[verifier::when_used_as_spec(spec_value)]
    pub fn value(self) -> (r: u8)
        ensures
            r == self.spec_value(),
    {
        match self {
            StatusRequest::On => 1,
            StatusRequest::Off => 2,
            StatusRequest::Once => 3,
        }
    }

    /// Decode a wire byte; `None` when the byte is not in the table.
    pub fn from_byte(b: u8) -> (r: Option<StatusRequest>)
        ensures
            r == StatusRequest::spec_from_byte(b),
    {
        if b == 1 {
            Some(StatusRequest::On)
        } else if b == 2 {
            Some(StatusRequest::Off)
        } else if b == 3 {
            Some(StatusRequest::Once)
        } else {
            None
        }
    }
}

} // verus!
