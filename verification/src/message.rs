//! Message encoding, decoding and handling

use vstd::prelude::*;

use crate::address::{AddressingType, PhysicalAddress, VendorId};
use crate::cdc;
use crate::codec::{
    decoded_code, emit, ends, need, parse, parse_wire, read, sound, tail, too_short, whole, width,
    wire, Coded, OperandEncodable,
};
use crate::error::{outcome, Error, ErrorView, Range, RangeView};
use crate::operand::{
    AbortReason, AllDeviceTypes, AnalogueServiceId, AudioFormatIdAndCode, AudioRate, AudioStatus,
    AudioVolumeLevel, BoundedBufferOperand, BufferOperand, DayOfMonth, DeckControlMode, DeckInfo,
    Delay, DeviceFeatures, DigitalServiceId, DisplayControl, Duration, ExternalSource, LatencyFlags,
    MenuRequestType, MenuState, MonthOfYear, PlayMode, PowerStatus, PrimaryDeviceType, RcProfile,
    RecordSource, RecordStatusInfo, RecordingSequence, ShortAudioDescriptor, StatusRequest, Time,
    TimerClearedStatusData, TimerStatusData, TunerDeviceInfo, UiCommand, Version,
};

pub use crate::cdc::{Message as CdcMessage, Opcode as CdcOpcode};

verus! {

/// A message on the bus.
#[derive(Debug, Copy, Clone, PartialEq, Eq, Hash)]
#[allow(inconsistent_fields)]
pub enum Message {
    ActiveSource {
        address: PhysicalAddress,
    },
    ImageViewOn,
    TextViewOn,
    InactiveSource {
        address: PhysicalAddress,
    },
    RequestActiveSource,
    RoutingChange {
        original_address: PhysicalAddress,
        new_address: PhysicalAddress,
    },
    RoutingInformation {
        address: PhysicalAddress,
    },
    SetStreamPath {
        address: PhysicalAddress,
    },
    Standby,
    RecordOff,
    RecordOn {
        source: RecordSource,
    },
    RecordStatus {
        status: RecordStatusInfo,
    },
    RecordTvScreen,
    ClearAnalogueTimer {
        day_of_month: DayOfMonth,
        month_of_year: MonthOfYear,
        start_time: Time,
        duration: Duration,
        recording_sequence: RecordingSequence,
        service_id: AnalogueServiceId,
    },
    ClearDigitalTimer {
        day_of_month: DayOfMonth,
        month_of_year: MonthOfYear,
        start_time: Time,
        duration: Duration,
        recording_sequence: RecordingSequence,
        service_id: DigitalServiceId,
    },
    ClearExtTimer {
        day_of_month: DayOfMonth,
        month_of_year: MonthOfYear,
        start_time: Time,
        duration: Duration,
        recording_sequence: RecordingSequence,
        external_source: ExternalSource,
    },
    SetAnalogueTimer {
        day_of_month: DayOfMonth,
        month_of_year: MonthOfYear,
        start_time: Time,
        duration: Duration,
        recording_sequence: RecordingSequence,
        service_id: AnalogueServiceId,
    },
    SetDigitalTimer {
        day_of_month: DayOfMonth,
        month_of_year: MonthOfYear,
        start_time: Time,
        duration: Duration,
        recording_sequence: RecordingSequence,
        service_id: DigitalServiceId,
    },
    SetExtTimer {
        day_of_month: DayOfMonth,
        month_of_year: MonthOfYear,
        start_time: Time,
        duration: Duration,
        recording_sequence: RecordingSequence,
        external_source: ExternalSource,
    },
    SetTimerProgramTitle {
        title: BufferOperand,
    },
    TimerClearedStatus {
        status: TimerClearedStatusData,
    },
    TimerStatus {
        status: TimerStatusData,
    },
    CecVersion {
        version: Version,
    },
    GetCecVersion,
    GivePhysicalAddr,
    GetMenuLanguage,
    ReportPhysicalAddr {
        physical_address: PhysicalAddress,
        device_type: PrimaryDeviceType,
    },
    SetMenuLanguage {
        language: [u8; 3],
    },
    DeckControl {
        mode: DeckControlMode,
    },
    DeckStatus {
        info: DeckInfo,
    },
    GiveDeckStatus {
        request: StatusRequest,
    },
    Play {
        mode: PlayMode,
    },
    GiveTunerDeviceStatus {
        request: StatusRequest,
    },
    SelectAnalogueService {
        service_id: AnalogueServiceId,
    },
    SelectDigitalService {
        service_id: DigitalServiceId,
    },
    TunerDeviceStatus {
        info: TunerDeviceInfo,
    },
    TunerStepDecrement,
    TunerStepIncrement,
    DeviceVendorId {
        vendor_id: VendorId,
    },
    GiveDeviceVendorId,
    VendorCommand {
        command: BufferOperand,
    },
    VendorCommandWithId {
        vendor_id: VendorId,
        vendor_specific_data: BoundedBufferOperand<11, u8>,
    },
    VendorRemoteButtonDown {
        rc_code: BufferOperand,
    },
    VendorRemoteButtonUp,
    SetOsdString {
        display_control: DisplayControl,
        osd_string: BoundedBufferOperand<13, u8>,
    },
    GiveOsdName,
    SetOsdName {
        name: BufferOperand,
    },
    MenuRequest {
        request_type: MenuRequestType,
    },
    MenuStatus {
        state: MenuState,
    },
    UserControlPressed {
        ui_command: UiCommand,
    },
    UserControlReleased,
    GiveDevicePowerStatus,
    ReportPowerStatus {
        status: PowerStatus,
    },
    FeatureAbort {
        opcode: u8,
        abort_reason: AbortReason,
    },
    Abort,
    GiveAudioStatus,
    GiveSystemAudioModeStatus,
    ReportAudioStatus {
        status: AudioStatus,
    },
    ReportShortAudioDescriptor {
        descriptors: BoundedBufferOperand<4, ShortAudioDescriptor>,
    },
    RequestShortAudioDescriptor {
        descriptors: BoundedBufferOperand<4, AudioFormatIdAndCode>,
    },
    SetSystemAudioMode {
        status: bool,
    },
    SystemAudioModeRequest {
        physical_address: PhysicalAddress,
    },
    SystemAudioModeStatus {
        status: bool,
    },
    SetAudioRate {
        audio_rate: AudioRate,
    },
    InitiateArc,
    ReportArcInitiated,
    ReportArcTerminated,
    RequestArcInitiation,
    RequestArcTermination,
    TerminateArc,
    CdcMessage {
        initiator: PhysicalAddress,
        message: cdc::Message,
    },
    ReportFeatures {
        version: Version,
        device_types: AllDeviceTypes,
        rc_profile: RcProfile,
        device_features: DeviceFeatures,
    },
    GiveFeatures,
    RequestCurrentLatency {
        physical_address: PhysicalAddress,
    },
    ReportCurrentLatency {
        physical_address: PhysicalAddress,
        video_latency: Delay,
        flags: LatencyFlags,
        audio_output_delay: Option<Delay>,
    },
    SetAudioVolumeLevel {
        volume_level: AudioVolumeLevel,
    },
}

/// The kind of a message.
#[derive(Debug, Copy, Clone, PartialEq, Eq, Hash, Structural)]
pub enum Opcode {
    ActiveSource,
    ImageViewOn,
    TextViewOn,
    InactiveSource,
    RequestActiveSource,
    RoutingChange,
    RoutingInformation,
    SetStreamPath,
    Standby,
    RecordOff,
    RecordOn,
    RecordStatus,
    RecordTvScreen,
    ClearAnalogueTimer,
    ClearDigitalTimer,
    ClearExtTimer,
    SetAnalogueTimer,
    SetDigitalTimer,
    SetExtTimer,
    SetTimerProgramTitle,
    TimerClearedStatus,
    TimerStatus,
    CecVersion,
    GetCecVersion,
    GivePhysicalAddr,
    GetMenuLanguage,
    ReportPhysicalAddr,
    SetMenuLanguage,
    DeckControl,
    DeckStatus,
    GiveDeckStatus,
    Play,
    GiveTunerDeviceStatus,
    SelectAnalogueService,
    SelectDigitalService,
    TunerDeviceStatus,
    TunerStepDecrement,
    TunerStepIncrement,
    DeviceVendorId,
    GiveDeviceVendorId,
    VendorCommand,
    VendorCommandWithId,
    VendorRemoteButtonDown,
    VendorRemoteButtonUp,
    SetOsdString,
    GiveOsdName,
    SetOsdName,
    MenuRequest,
    MenuStatus,
    UserControlPressed,
    UserControlReleased,
    GiveDevicePowerStatus,
    ReportPowerStatus,
    FeatureAbort,
    Abort,
    GiveAudioStatus,
    GiveSystemAudioModeStatus,
    ReportAudioStatus,
    ReportShortAudioDescriptor,
    RequestShortAudioDescriptor,
    SetSystemAudioMode,
    SystemAudioModeRequest,
    SystemAudioModeStatus,
    SetAudioRate,
    InitiateArc,
    ReportArcInitiated,
    ReportArcTerminated,
    RequestArcInitiation,
    RequestArcTermination,
    TerminateArc,
    CdcMessage,
    ReportFeatures,
    GiveFeatures,
    RequestCurrentLatency,
    ReportCurrentLatency,
    SetAudioVolumeLevel,
}

impl Coded for Opcode {
    open spec fn code(&self) -> u8 {
        match self {
            Opcode::ActiveSource => 0x82,
            Opcode::ImageViewOn => 0x04,
            Opcode::TextViewOn => 0x0d,
            Opcode::InactiveSource => 0x9d,
            Opcode::RequestActiveSource => 0x85,
            Opcode::RoutingChange => 0x80,
            Opcode::RoutingInformation => 0x81,
            Opcode::SetStreamPath => 0x86,
            Opcode::Standby => 0x36,
            Opcode::RecordOff => 0x0b,
            Opcode::RecordOn => 0x09,
            Opcode::RecordStatus => 0x0a,
            Opcode::RecordTvScreen => 0x0f,
            Opcode::ClearAnalogueTimer => 0x33,
            Opcode::ClearDigitalTimer => 0x99,
            Opcode::ClearExtTimer => 0xa1,
            Opcode::SetAnalogueTimer => 0x34,
            Opcode::SetDigitalTimer => 0x97,
            Opcode::SetExtTimer => 0xa2,
            Opcode::SetTimerProgramTitle => 0x67,
            Opcode::TimerClearedStatus => 0x43,
            Opcode::TimerStatus => 0x35,
            Opcode::CecVersion => 0x9e,
            Opcode::GetCecVersion => 0x9f,
            Opcode::GivePhysicalAddr => 0x83,
            Opcode::GetMenuLanguage => 0x91,
            Opcode::ReportPhysicalAddr => 0x84,
            Opcode::SetMenuLanguage => 0x32,
            Opcode::DeckControl => 0x42,
            Opcode::DeckStatus => 0x1b,
            Opcode::GiveDeckStatus => 0x1a,
            Opcode::Play => 0x41,
            Opcode::GiveTunerDeviceStatus => 0x08,
            Opcode::SelectAnalogueService => 0x92,
            Opcode::SelectDigitalService => 0x93,
            Opcode::TunerDeviceStatus => 0x07,
            Opcode::TunerStepDecrement => 0x06,
            Opcode::TunerStepIncrement => 0x05,
            Opcode::DeviceVendorId => 0x87,
            Opcode::GiveDeviceVendorId => 0x8c,
            Opcode::VendorCommand => 0x89,
            Opcode::VendorCommandWithId => 0xa0,
            Opcode::VendorRemoteButtonDown => 0x8a,
            Opcode::VendorRemoteButtonUp => 0x8b,
            Opcode::SetOsdString => 0x64,
            Opcode::GiveOsdName => 0x46,
            Opcode::SetOsdName => 0x47,
            Opcode::MenuRequest => 0x8d,
            Opcode::MenuStatus => 0x8e,
            Opcode::UserControlPressed => 0x44,
            Opcode::UserControlReleased => 0x45,
            Opcode::GiveDevicePowerStatus => 0x8f,
            Opcode::ReportPowerStatus => 0x90,
            Opcode::FeatureAbort => 0x00,
            Opcode::Abort => 0xff,
            Opcode::GiveAudioStatus => 0x71,
            Opcode::GiveSystemAudioModeStatus => 0x7d,
            Opcode::ReportAudioStatus => 0x7a,
            Opcode::ReportShortAudioDescriptor => 0xa3,
            Opcode::RequestShortAudioDescriptor => 0xa4,
            Opcode::SetSystemAudioMode => 0x72,
            Opcode::SystemAudioModeRequest => 0x70,
            Opcode::SystemAudioModeStatus => 0x7e,
            Opcode::SetAudioRate => 0x9a,
            Opcode::InitiateArc => 0xc0,
            Opcode::ReportArcInitiated => 0xc1,
            Opcode::ReportArcTerminated => 0xc2,
            Opcode::RequestArcInitiation => 0xc3,
            Opcode::RequestArcTermination => 0xc4,
            Opcode::TerminateArc => 0xc5,
            Opcode::CdcMessage => 0xf8,
            Opcode::ReportFeatures => 0xa6,
            Opcode::GiveFeatures => 0xa5,
            Opcode::RequestCurrentLatency => 0xa7,
            Opcode::ReportCurrentLatency => 0xa8,
            Opcode::SetAudioVolumeLevel => 0x73,
        }
    }

    open spec fn with_code(code: u8) -> Option<Self> {
        match code {
            0x82 => Some(Opcode::ActiveSource),
            0x04 => Some(Opcode::ImageViewOn),
            0x0d => Some(Opcode::TextViewOn),
            0x9d => Some(Opcode::InactiveSource),
            0x85 => Some(Opcode::RequestActiveSource),
            0x80 => Some(Opcode::RoutingChange),
            0x81 => Some(Opcode::RoutingInformation),
            0x86 => Some(Opcode::SetStreamPath),
            0x36 => Some(Opcode::Standby),
            0x0b => Some(Opcode::RecordOff),
            0x09 => Some(Opcode::RecordOn),
            0x0a => Some(Opcode::RecordStatus),
            0x0f => Some(Opcode::RecordTvScreen),
            0x33 => Some(Opcode::ClearAnalogueTimer),
            0x99 => Some(Opcode::ClearDigitalTimer),
            0xa1 => Some(Opcode::ClearExtTimer),
            0x34 => Some(Opcode::SetAnalogueTimer),
            0x97 => Some(Opcode::SetDigitalTimer),
            0xa2 => Some(Opcode::SetExtTimer),
            0x67 => Some(Opcode::SetTimerProgramTitle),
            0x43 => Some(Opcode::TimerClearedStatus),
            0x35 => Some(Opcode::TimerStatus),
            0x9e => Some(Opcode::CecVersion),
            0x9f => Some(Opcode::GetCecVersion),
            0x83 => Some(Opcode::GivePhysicalAddr),
            0x91 => Some(Opcode::GetMenuLanguage),
            0x84 => Some(Opcode::ReportPhysicalAddr),
            0x32 => Some(Opcode::SetMenuLanguage),
            0x42 => Some(Opcode::DeckControl),
            0x1b => Some(Opcode::DeckStatus),
            0x1a => Some(Opcode::GiveDeckStatus),
            0x41 => Some(Opcode::Play),
            0x08 => Some(Opcode::GiveTunerDeviceStatus),
            0x92 => Some(Opcode::SelectAnalogueService),
            0x93 => Some(Opcode::SelectDigitalService),
            0x07 => Some(Opcode::TunerDeviceStatus),
            0x06 => Some(Opcode::TunerStepDecrement),
            0x05 => Some(Opcode::TunerStepIncrement),
            0x87 => Some(Opcode::DeviceVendorId),
            0x8c => Some(Opcode::GiveDeviceVendorId),
            0x89 => Some(Opcode::VendorCommand),
            0xa0 => Some(Opcode::VendorCommandWithId),
            0x8a => Some(Opcode::VendorRemoteButtonDown),
            0x8b => Some(Opcode::VendorRemoteButtonUp),
            0x64 => Some(Opcode::SetOsdString),
            0x46 => Some(Opcode::GiveOsdName),
            0x47 => Some(Opcode::SetOsdName),
            0x8d => Some(Opcode::MenuRequest),
            0x8e => Some(Opcode::MenuStatus),
            0x44 => Some(Opcode::UserControlPressed),
            0x45 => Some(Opcode::UserControlReleased),
            0x8f => Some(Opcode::GiveDevicePowerStatus),
            0x90 => Some(Opcode::ReportPowerStatus),
            0x00 => Some(Opcode::FeatureAbort),
            0xff => Some(Opcode::Abort),
            0x71 => Some(Opcode::GiveAudioStatus),
            0x7d => Some(Opcode::GiveSystemAudioModeStatus),
            0x7a => Some(Opcode::ReportAudioStatus),
            0xa3 => Some(Opcode::ReportShortAudioDescriptor),
            0xa4 => Some(Opcode::RequestShortAudioDescriptor),
            0x72 => Some(Opcode::SetSystemAudioMode),
            0x70 => Some(Opcode::SystemAudioModeRequest),
            0x7e => Some(Opcode::SystemAudioModeStatus),
            0x9a => Some(Opcode::SetAudioRate),
            0xc0 => Some(Opcode::InitiateArc),
            0xc1 => Some(Opcode::ReportArcInitiated),
            0xc2 => Some(Opcode::ReportArcTerminated),
            0xc3 => Some(Opcode::RequestArcInitiation),
            0xc4 => Some(Opcode::RequestArcTermination),
            0xc5 => Some(Opcode::TerminateArc),
            0xf8 => Some(Opcode::CdcMessage),
            0xa6 => Some(Opcode::ReportFeatures),
            0xa5 => Some(Opcode::GiveFeatures),
            0xa7 => Some(Opcode::RequestCurrentLatency),
            0xa8 => Some(Opcode::ReportCurrentLatency),
            0x73 => Some(Opcode::SetAudioVolumeLevel),
            _ => None,
        }
    }

    open spec fn label() -> Seq<char> {
        "Opcode"@
    }

    fn to_primitive(&self) -> (code: u8) {
        match self {
            Opcode::ActiveSource => 0x82,
            Opcode::ImageViewOn => 0x04,
            Opcode::TextViewOn => 0x0d,
            Opcode::InactiveSource => 0x9d,
            Opcode::RequestActiveSource => 0x85,
            Opcode::RoutingChange => 0x80,
            Opcode::RoutingInformation => 0x81,
            Opcode::SetStreamPath => 0x86,
            Opcode::Standby => 0x36,
            Opcode::RecordOff => 0x0b,
            Opcode::RecordOn => 0x09,
            Opcode::RecordStatus => 0x0a,
            Opcode::RecordTvScreen => 0x0f,
            Opcode::ClearAnalogueTimer => 0x33,
            Opcode::ClearDigitalTimer => 0x99,
            Opcode::ClearExtTimer => 0xa1,
            Opcode::SetAnalogueTimer => 0x34,
            Opcode::SetDigitalTimer => 0x97,
            Opcode::SetExtTimer => 0xa2,
            Opcode::SetTimerProgramTitle => 0x67,
            Opcode::TimerClearedStatus => 0x43,
            Opcode::TimerStatus => 0x35,
            Opcode::CecVersion => 0x9e,
            Opcode::GetCecVersion => 0x9f,
            Opcode::GivePhysicalAddr => 0x83,
            Opcode::GetMenuLanguage => 0x91,
            Opcode::ReportPhysicalAddr => 0x84,
            Opcode::SetMenuLanguage => 0x32,
            Opcode::DeckControl => 0x42,
            Opcode::DeckStatus => 0x1b,
            Opcode::GiveDeckStatus => 0x1a,
            Opcode::Play => 0x41,
            Opcode::GiveTunerDeviceStatus => 0x08,
            Opcode::SelectAnalogueService => 0x92,
            Opcode::SelectDigitalService => 0x93,
            Opcode::TunerDeviceStatus => 0x07,
            Opcode::TunerStepDecrement => 0x06,
            Opcode::TunerStepIncrement => 0x05,
            Opcode::DeviceVendorId => 0x87,
            Opcode::GiveDeviceVendorId => 0x8c,
            Opcode::VendorCommand => 0x89,
            Opcode::VendorCommandWithId => 0xa0,
            Opcode::VendorRemoteButtonDown => 0x8a,
            Opcode::VendorRemoteButtonUp => 0x8b,
            Opcode::SetOsdString => 0x64,
            Opcode::GiveOsdName => 0x46,
            Opcode::SetOsdName => 0x47,
            Opcode::MenuRequest => 0x8d,
            Opcode::MenuStatus => 0x8e,
            Opcode::UserControlPressed => 0x44,
            Opcode::UserControlReleased => 0x45,
            Opcode::GiveDevicePowerStatus => 0x8f,
            Opcode::ReportPowerStatus => 0x90,
            Opcode::FeatureAbort => 0x00,
            Opcode::Abort => 0xff,
            Opcode::GiveAudioStatus => 0x71,
            Opcode::GiveSystemAudioModeStatus => 0x7d,
            Opcode::ReportAudioStatus => 0x7a,
            Opcode::ReportShortAudioDescriptor => 0xa3,
            Opcode::RequestShortAudioDescriptor => 0xa4,
            Opcode::SetSystemAudioMode => 0x72,
            Opcode::SystemAudioModeRequest => 0x70,
            Opcode::SystemAudioModeStatus => 0x7e,
            Opcode::SetAudioRate => 0x9a,
            Opcode::InitiateArc => 0xc0,
            Opcode::ReportArcInitiated => 0xc1,
            Opcode::ReportArcTerminated => 0xc2,
            Opcode::RequestArcInitiation => 0xc3,
            Opcode::RequestArcTermination => 0xc4,
            Opcode::TerminateArc => 0xc5,
            Opcode::CdcMessage => 0xf8,
            Opcode::ReportFeatures => 0xa6,
            Opcode::GiveFeatures => 0xa5,
            Opcode::RequestCurrentLatency => 0xa7,
            Opcode::ReportCurrentLatency => 0xa8,
            Opcode::SetAudioVolumeLevel => 0x73,
        }
    }

    fn from_primitive(code: u8) -> (r: Option<Self>) {
        match code {
            0x82 => Some(Opcode::ActiveSource),
            0x04 => Some(Opcode::ImageViewOn),
            0x0d => Some(Opcode::TextViewOn),
            0x9d => Some(Opcode::InactiveSource),
            0x85 => Some(Opcode::RequestActiveSource),
            0x80 => Some(Opcode::RoutingChange),
            0x81 => Some(Opcode::RoutingInformation),
            0x86 => Some(Opcode::SetStreamPath),
            0x36 => Some(Opcode::Standby),
            0x0b => Some(Opcode::RecordOff),
            0x09 => Some(Opcode::RecordOn),
            0x0a => Some(Opcode::RecordStatus),
            0x0f => Some(Opcode::RecordTvScreen),
            0x33 => Some(Opcode::ClearAnalogueTimer),
            0x99 => Some(Opcode::ClearDigitalTimer),
            0xa1 => Some(Opcode::ClearExtTimer),
            0x34 => Some(Opcode::SetAnalogueTimer),
            0x97 => Some(Opcode::SetDigitalTimer),
            0xa2 => Some(Opcode::SetExtTimer),
            0x67 => Some(Opcode::SetTimerProgramTitle),
            0x43 => Some(Opcode::TimerClearedStatus),
            0x35 => Some(Opcode::TimerStatus),
            0x9e => Some(Opcode::CecVersion),
            0x9f => Some(Opcode::GetCecVersion),
            0x83 => Some(Opcode::GivePhysicalAddr),
            0x91 => Some(Opcode::GetMenuLanguage),
            0x84 => Some(Opcode::ReportPhysicalAddr),
            0x32 => Some(Opcode::SetMenuLanguage),
            0x42 => Some(Opcode::DeckControl),
            0x1b => Some(Opcode::DeckStatus),
            0x1a => Some(Opcode::GiveDeckStatus),
            0x41 => Some(Opcode::Play),
            0x08 => Some(Opcode::GiveTunerDeviceStatus),
            0x92 => Some(Opcode::SelectAnalogueService),
            0x93 => Some(Opcode::SelectDigitalService),
            0x07 => Some(Opcode::TunerDeviceStatus),
            0x06 => Some(Opcode::TunerStepDecrement),
            0x05 => Some(Opcode::TunerStepIncrement),
            0x87 => Some(Opcode::DeviceVendorId),
            0x8c => Some(Opcode::GiveDeviceVendorId),
            0x89 => Some(Opcode::VendorCommand),
            0xa0 => Some(Opcode::VendorCommandWithId),
            0x8a => Some(Opcode::VendorRemoteButtonDown),
            0x8b => Some(Opcode::VendorRemoteButtonUp),
            0x64 => Some(Opcode::SetOsdString),
            0x46 => Some(Opcode::GiveOsdName),
            0x47 => Some(Opcode::SetOsdName),
            0x8d => Some(Opcode::MenuRequest),
            0x8e => Some(Opcode::MenuStatus),
            0x44 => Some(Opcode::UserControlPressed),
            0x45 => Some(Opcode::UserControlReleased),
            0x8f => Some(Opcode::GiveDevicePowerStatus),
            0x90 => Some(Opcode::ReportPowerStatus),
            0x00 => Some(Opcode::FeatureAbort),
            0xff => Some(Opcode::Abort),
            0x71 => Some(Opcode::GiveAudioStatus),
            0x7d => Some(Opcode::GiveSystemAudioModeStatus),
            0x7a => Some(Opcode::ReportAudioStatus),
            0xa3 => Some(Opcode::ReportShortAudioDescriptor),
            0xa4 => Some(Opcode::RequestShortAudioDescriptor),
            0x72 => Some(Opcode::SetSystemAudioMode),
            0x70 => Some(Opcode::SystemAudioModeRequest),
            0x7e => Some(Opcode::SystemAudioModeStatus),
            0x9a => Some(Opcode::SetAudioRate),
            0xc0 => Some(Opcode::InitiateArc),
            0xc1 => Some(Opcode::ReportArcInitiated),
            0xc2 => Some(Opcode::ReportArcTerminated),
            0xc3 => Some(Opcode::RequestArcInitiation),
            0xc4 => Some(Opcode::RequestArcTermination),
            0xc5 => Some(Opcode::TerminateArc),
            0xf8 => Some(Opcode::CdcMessage),
            0xa6 => Some(Opcode::ReportFeatures),
            0xa5 => Some(Opcode::GiveFeatures),
            0xa7 => Some(Opcode::RequestCurrentLatency),
            0xa8 => Some(Opcode::ReportCurrentLatency),
            0x73 => Some(Opcode::SetAudioVolumeLevel),
            _ => None,
        }
    }

    fn type_label() -> (r: &'static str) {
        "Opcode"
    }

    proof fn one_to_one() {
    }
}

impl Message {
    /// The kind of the message.
    pub open spec fn kind(self) -> Opcode {
        match self {
            Message::ActiveSource { .. } => Opcode::ActiveSource,
            Message::ImageViewOn => Opcode::ImageViewOn,
            Message::TextViewOn => Opcode::TextViewOn,
            Message::InactiveSource { .. } => Opcode::InactiveSource,
            Message::RequestActiveSource => Opcode::RequestActiveSource,
            Message::RoutingChange { .. } => Opcode::RoutingChange,
            Message::RoutingInformation { .. } => Opcode::RoutingInformation,
            Message::SetStreamPath { .. } => Opcode::SetStreamPath,
            Message::Standby => Opcode::Standby,
            Message::RecordOff => Opcode::RecordOff,
            Message::RecordOn { .. } => Opcode::RecordOn,
            Message::RecordStatus { .. } => Opcode::RecordStatus,
            Message::RecordTvScreen => Opcode::RecordTvScreen,
            Message::ClearAnalogueTimer { .. } => Opcode::ClearAnalogueTimer,
            Message::ClearDigitalTimer { .. } => Opcode::ClearDigitalTimer,
            Message::ClearExtTimer { .. } => Opcode::ClearExtTimer,
            Message::SetAnalogueTimer { .. } => Opcode::SetAnalogueTimer,
            Message::SetDigitalTimer { .. } => Opcode::SetDigitalTimer,
            Message::SetExtTimer { .. } => Opcode::SetExtTimer,
            Message::SetTimerProgramTitle { .. } => Opcode::SetTimerProgramTitle,
            Message::TimerClearedStatus { .. } => Opcode::TimerClearedStatus,
            Message::TimerStatus { .. } => Opcode::TimerStatus,
            Message::CecVersion { .. } => Opcode::CecVersion,
            Message::GetCecVersion => Opcode::GetCecVersion,
            Message::GivePhysicalAddr => Opcode::GivePhysicalAddr,
            Message::GetMenuLanguage => Opcode::GetMenuLanguage,
            Message::ReportPhysicalAddr { .. } => Opcode::ReportPhysicalAddr,
            Message::SetMenuLanguage { .. } => Opcode::SetMenuLanguage,
            Message::DeckControl { .. } => Opcode::DeckControl,
            Message::DeckStatus { .. } => Opcode::DeckStatus,
            Message::GiveDeckStatus { .. } => Opcode::GiveDeckStatus,
            Message::Play { .. } => Opcode::Play,
            Message::GiveTunerDeviceStatus { .. } => Opcode::GiveTunerDeviceStatus,
            Message::SelectAnalogueService { .. } => Opcode::SelectAnalogueService,
            Message::SelectDigitalService { .. } => Opcode::SelectDigitalService,
            Message::TunerDeviceStatus { .. } => Opcode::TunerDeviceStatus,
            Message::TunerStepDecrement => Opcode::TunerStepDecrement,
            Message::TunerStepIncrement => Opcode::TunerStepIncrement,
            Message::DeviceVendorId { .. } => Opcode::DeviceVendorId,
            Message::GiveDeviceVendorId => Opcode::GiveDeviceVendorId,
            Message::VendorCommand { .. } => Opcode::VendorCommand,
            Message::VendorCommandWithId { .. } => Opcode::VendorCommandWithId,
            Message::VendorRemoteButtonDown { .. } => Opcode::VendorRemoteButtonDown,
            Message::VendorRemoteButtonUp => Opcode::VendorRemoteButtonUp,
            Message::SetOsdString { .. } => Opcode::SetOsdString,
            Message::GiveOsdName => Opcode::GiveOsdName,
            Message::SetOsdName { .. } => Opcode::SetOsdName,
            Message::MenuRequest { .. } => Opcode::MenuRequest,
            Message::MenuStatus { .. } => Opcode::MenuStatus,
            Message::UserControlPressed { .. } => Opcode::UserControlPressed,
            Message::UserControlReleased => Opcode::UserControlReleased,
            Message::GiveDevicePowerStatus => Opcode::GiveDevicePowerStatus,
            Message::ReportPowerStatus { .. } => Opcode::ReportPowerStatus,
            Message::FeatureAbort { .. } => Opcode::FeatureAbort,
            Message::Abort => Opcode::Abort,
            Message::GiveAudioStatus => Opcode::GiveAudioStatus,
            Message::GiveSystemAudioModeStatus => Opcode::GiveSystemAudioModeStatus,
            Message::ReportAudioStatus { .. } => Opcode::ReportAudioStatus,
            Message::ReportShortAudioDescriptor { .. } => Opcode::ReportShortAudioDescriptor,
            Message::RequestShortAudioDescriptor { .. } => Opcode::RequestShortAudioDescriptor,
            Message::SetSystemAudioMode { .. } => Opcode::SetSystemAudioMode,
            Message::SystemAudioModeRequest { .. } => Opcode::SystemAudioModeRequest,
            Message::SystemAudioModeStatus { .. } => Opcode::SystemAudioModeStatus,
            Message::SetAudioRate { .. } => Opcode::SetAudioRate,
            Message::InitiateArc => Opcode::InitiateArc,
            Message::ReportArcInitiated => Opcode::ReportArcInitiated,
            Message::ReportArcTerminated => Opcode::ReportArcTerminated,
            Message::RequestArcInitiation => Opcode::RequestArcInitiation,
            Message::RequestArcTermination => Opcode::RequestArcTermination,
            Message::TerminateArc => Opcode::TerminateArc,
            Message::CdcMessage { .. } => Opcode::CdcMessage,
            Message::ReportFeatures { .. } => Opcode::ReportFeatures,
            Message::GiveFeatures => Opcode::GiveFeatures,
            Message::RequestCurrentLatency { .. } => Opcode::RequestCurrentLatency,
            Message::ReportCurrentLatency { .. } => Opcode::ReportCurrentLatency,
            Message::SetAudioVolumeLevel { .. } => Opcode::SetAudioVolumeLevel,
        }
    }

    /// The bytes behind the opcode.
    pub open spec fn operands(self) -> Seq<u8> {
        match self {
            Message::ActiveSource { address } => wire(address),
            Message::InactiveSource { address } => wire(address),
            Message::RoutingChange {
                original_address,
                new_address,
            } => wire((original_address, new_address)),
            Message::RoutingInformation { address } => wire(address),
            Message::SetStreamPath { address } => wire(address),
            Message::RecordOn { source } => wire(source),
            Message::RecordStatus { status } => wire(status),
            Message::ClearAnalogueTimer {
                day_of_month,
                month_of_year,
                start_time,
                duration,
                recording_sequence,
                service_id,
            } => wire(
                (
                    day_of_month,
                    (month_of_year, (start_time, (duration, (recording_sequence, service_id)))),
                ),
            ),
            Message::ClearDigitalTimer {
                day_of_month,
                month_of_year,
                start_time,
                duration,
                recording_sequence,
                service_id,
            } => wire(
                (
                    day_of_month,
                    (month_of_year, (start_time, (duration, (recording_sequence, service_id)))),
                ),
            ),
            Message::ClearExtTimer {
                day_of_month,
                month_of_year,
                start_time,
                duration,
                recording_sequence,
                external_source,
            } => wire(
                (
                    day_of_month,
                    (
                        month_of_year,
                        (start_time, (duration, (recording_sequence, external_source))),
                    ),
                ),
            ),
            Message::SetAnalogueTimer {
                day_of_month,
                month_of_year,
                start_time,
                duration,
                recording_sequence,
                service_id,
            } => wire(
                (
                    day_of_month,
                    (month_of_year, (start_time, (duration, (recording_sequence, service_id)))),
                ),
            ),
            Message::SetDigitalTimer {
                day_of_month,
                month_of_year,
                start_time,
                duration,
                recording_sequence,
                service_id,
            } => wire(
                (
                    day_of_month,
                    (month_of_year, (start_time, (duration, (recording_sequence, service_id)))),
                ),
            ),
            Message::SetExtTimer {
                day_of_month,
                month_of_year,
                start_time,
                duration,
                recording_sequence,
                external_source,
            } => wire(
                (
                    day_of_month,
                    (
                        month_of_year,
                        (start_time, (duration, (recording_sequence, external_source))),
                    ),
                ),
            ),
            Message::SetTimerProgramTitle { title } => wire(title),
            Message::TimerClearedStatus { status } => wire(status),
            Message::TimerStatus { status } => wire(status),
            Message::CecVersion { version } => wire(version),
            Message::ReportPhysicalAddr {
                physical_address,
                device_type,
            } => wire((physical_address, device_type)),
            Message::SetMenuLanguage { language } => wire(language),
            Message::DeckControl { mode } => wire(mode),
            Message::DeckStatus { info } => wire(info),
            Message::GiveDeckStatus { request } => wire(request),
            Message::Play { mode } => wire(mode),
            Message::GiveTunerDeviceStatus { request } => wire(request),
            Message::SelectAnalogueService { service_id } => wire(service_id),
            Message::SelectDigitalService { service_id } => wire(service_id),
            Message::TunerDeviceStatus { info } => wire(info),
            Message::DeviceVendorId { vendor_id } => wire(vendor_id),
            Message::VendorCommand { command } => wire(command),
            Message::VendorCommandWithId {
                vendor_id,
                vendor_specific_data,
            } => wire((vendor_id, vendor_specific_data)),
            Message::VendorRemoteButtonDown { rc_code } => wire(rc_code),
            Message::SetOsdString {
                display_control,
                osd_string,
            } => wire((display_control, osd_string)),
            Message::SetOsdName { name } => wire(name),
            Message::MenuRequest { request_type } => wire(request_type),
            Message::MenuStatus { state } => wire(state),
            Message::UserControlPressed { ui_command } => wire(ui_command),
            Message::ReportPowerStatus { status } => wire(status),
            Message::FeatureAbort { opcode, abort_reason } => wire((opcode, abort_reason)),
            Message::ReportAudioStatus { status } => wire(status),
            Message::ReportShortAudioDescriptor { descriptors } => wire(descriptors),
            Message::RequestShortAudioDescriptor { descriptors } => wire(descriptors),
            Message::SetSystemAudioMode { status } => wire(status),
            Message::SystemAudioModeRequest { physical_address } => wire(physical_address),
            Message::SystemAudioModeStatus { status } => wire(status),
            Message::SetAudioRate { audio_rate } => wire(audio_rate),
            Message::CdcMessage { initiator, message } => wire((initiator, message)),
            Message::ReportFeatures { version, device_types, rc_profile, device_features } => wire(
                (version, (device_types, (rc_profile, device_features))),
            ),
            Message::RequestCurrentLatency { physical_address } => wire(physical_address),
            Message::ReportCurrentLatency {
                physical_address,
                video_latency,
                flags,
                audio_output_delay,
            } => wire((physical_address, (video_latency, (flags, audio_output_delay)))),
            Message::SetAudioVolumeLevel { volume_level } => wire(volume_level),
            _ => Seq::empty(),
        }
    }

    /// What bytes behind an opcode stand for.
    pub open spec fn of_operands(kind: Opcode, bytes: Seq<u8>) -> Result<Message, ErrorView> {
        match kind {
            Opcode::ActiveSource => match parse::<PhysicalAddress>(bytes) {
                Ok(address) => Ok(Message::ActiveSource { address }),
                Err(e) => Err(e.shifted(1)),
            },
            Opcode::ImageViewOn => Ok(Message::ImageViewOn),
            Opcode::TextViewOn => Ok(Message::TextViewOn),
            Opcode::InactiveSource => match parse::<PhysicalAddress>(bytes) {
                Ok(address) => Ok(Message::InactiveSource { address }),
                Err(e) => Err(e.shifted(1)),
            },
            Opcode::RequestActiveSource => Ok(Message::RequestActiveSource),
            Opcode::RoutingChange => match parse::<(PhysicalAddress, PhysicalAddress)>(bytes) {
                Ok((original_address, new_address)) => Ok(
                    Message::RoutingChange { original_address, new_address },
                ),
                Err(e) => Err(e.shifted(1)),
            },
            Opcode::RoutingInformation => match parse::<PhysicalAddress>(bytes) {
                Ok(address) => Ok(Message::RoutingInformation { address }),
                Err(e) => Err(e.shifted(1)),
            },
            Opcode::SetStreamPath => match parse::<PhysicalAddress>(bytes) {
                Ok(address) => Ok(Message::SetStreamPath { address }),
                Err(e) => Err(e.shifted(1)),
            },
            Opcode::Standby => Ok(Message::Standby),
            Opcode::RecordOff => Ok(Message::RecordOff),
            Opcode::RecordOn => match parse::<RecordSource>(bytes) {
                Ok(source) => Ok(Message::RecordOn { source }),
                Err(e) => Err(e.shifted(1)),
            },
            Opcode::RecordStatus => match parse::<RecordStatusInfo>(bytes) {
                Ok(status) => Ok(Message::RecordStatus { status }),
                Err(e) => Err(e.shifted(1)),
            },
            Opcode::RecordTvScreen => Ok(Message::RecordTvScreen),
            Opcode::ClearAnalogueTimer => match parse::<(
                DayOfMonth,
                (MonthOfYear, (Time, (Duration, (RecordingSequence, AnalogueServiceId)))),
            )>(bytes) {
                Ok(
                    (
                        day_of_month,
                        (month_of_year, (start_time, (duration, (recording_sequence, service_id)))),
                    ),
                ) => Ok(
                    Message::ClearAnalogueTimer {
                        day_of_month,
                        month_of_year,
                        start_time,
                        duration,
                        recording_sequence,
                        service_id,
                    },
                ),
                Err(e) => Err(e.shifted(1)),
            },
            Opcode::ClearDigitalTimer => match parse::<(
                DayOfMonth,
                (MonthOfYear, (Time, (Duration, (RecordingSequence, DigitalServiceId)))),
            )>(bytes) {
                Ok(
                    (
                        day_of_month,
                        (month_of_year, (start_time, (duration, (recording_sequence, service_id)))),
                    ),
                ) => Ok(
                    Message::ClearDigitalTimer {
                        day_of_month,
                        month_of_year,
                        start_time,
                        duration,
                        recording_sequence,
                        service_id,
                    },
                ),
                Err(e) => Err(e.shifted(1)),
            },
            Opcode::ClearExtTimer => match parse::<(
                DayOfMonth,
                (MonthOfYear, (Time, (Duration, (RecordingSequence, ExternalSource)))),
            )>(bytes) {
                Ok(
                    (
                        day_of_month,
                        (
                            month_of_year,
                            (start_time, (duration, (recording_sequence, external_source))),
                        ),
                    ),
                ) => Ok(
                    Message::ClearExtTimer {
                        day_of_month,
                        month_of_year,
                        start_time,
                        duration,
                        recording_sequence,
                        external_source,
                    },
                ),
                Err(e) => Err(e.shifted(1)),
            },
            Opcode::SetAnalogueTimer => match parse::<(
                DayOfMonth,
                (MonthOfYear, (Time, (Duration, (RecordingSequence, AnalogueServiceId)))),
            )>(bytes) {
                Ok(
                    (
                        day_of_month,
                        (month_of_year, (start_time, (duration, (recording_sequence, service_id)))),
                    ),
                ) => Ok(
                    Message::SetAnalogueTimer {
                        day_of_month,
                        month_of_year,
                        start_time,
                        duration,
                        recording_sequence,
                        service_id,
                    },
                ),
                Err(e) => Err(e.shifted(1)),
            },
            Opcode::SetDigitalTimer => match parse::<(
                DayOfMonth,
                (MonthOfYear, (Time, (Duration, (RecordingSequence, DigitalServiceId)))),
            )>(bytes) {
                Ok(
                    (
                        day_of_month,
                        (month_of_year, (start_time, (duration, (recording_sequence, service_id)))),
                    ),
                ) => Ok(
                    Message::SetDigitalTimer {
                        day_of_month,
                        month_of_year,
                        start_time,
                        duration,
                        recording_sequence,
                        service_id,
                    },
                ),
                Err(e) => Err(e.shifted(1)),
            },
            Opcode::SetExtTimer => match parse::<(
                DayOfMonth,
                (MonthOfYear, (Time, (Duration, (RecordingSequence, ExternalSource)))),
            )>(bytes) {
                Ok(
                    (
                        day_of_month,
                        (
                            month_of_year,
                            (start_time, (duration, (recording_sequence, external_source))),
                        ),
                    ),
                ) => Ok(
                    Message::SetExtTimer {
                        day_of_month,
                        month_of_year,
                        start_time,
                        duration,
                        recording_sequence,
                        external_source,
                    },
                ),
                Err(e) => Err(e.shifted(1)),
            },
            Opcode::SetTimerProgramTitle => match parse::<BufferOperand>(bytes) {
                Ok(title) => Ok(Message::SetTimerProgramTitle { title }),
                Err(e) => Err(e.shifted(1)),
            },
            Opcode::TimerClearedStatus => match parse::<TimerClearedStatusData>(bytes) {
                Ok(status) => Ok(Message::TimerClearedStatus { status }),
                Err(e) => Err(e.shifted(1)),
            },
            Opcode::TimerStatus => match parse::<TimerStatusData>(bytes) {
                Ok(status) => Ok(Message::TimerStatus { status }),
                Err(e) => Err(e.shifted(1)),
            },
            Opcode::CecVersion => match parse::<Version>(bytes) {
                Ok(version) => Ok(Message::CecVersion { version }),
                Err(e) => Err(e.shifted(1)),
            },
            Opcode::GetCecVersion => Ok(Message::GetCecVersion),
            Opcode::GivePhysicalAddr => Ok(Message::GivePhysicalAddr),
            Opcode::GetMenuLanguage => Ok(Message::GetMenuLanguage),
            Opcode::ReportPhysicalAddr => match parse::<(
                PhysicalAddress,
                PrimaryDeviceType,
            )>(bytes) {
                Ok((physical_address, device_type)) => Ok(
                    Message::ReportPhysicalAddr { physical_address, device_type },
                ),
                Err(e) => Err(e.shifted(1)),
            },
            Opcode::SetMenuLanguage => match parse::<[u8; 3]>(bytes) {
                Ok(language) => Ok(Message::SetMenuLanguage { language }),
                Err(e) => Err(e.shifted(1)),
            },
            Opcode::DeckControl => match parse::<DeckControlMode>(bytes) {
                Ok(mode) => Ok(Message::DeckControl { mode }),
                Err(e) => Err(e.shifted(1)),
            },
            Opcode::DeckStatus => match parse::<DeckInfo>(bytes) {
                Ok(info) => Ok(Message::DeckStatus { info }),
                Err(e) => Err(e.shifted(1)),
            },
            Opcode::GiveDeckStatus => match parse::<StatusRequest>(bytes) {
                Ok(request) => Ok(Message::GiveDeckStatus { request }),
                Err(e) => Err(e.shifted(1)),
            },
            Opcode::Play => match parse::<PlayMode>(bytes) {
                Ok(mode) => Ok(Message::Play { mode }),
                Err(e) => Err(e.shifted(1)),
            },
            Opcode::GiveTunerDeviceStatus => match parse::<StatusRequest>(bytes) {
                Ok(request) => Ok(Message::GiveTunerDeviceStatus { request }),
                Err(e) => Err(e.shifted(1)),
            },
            Opcode::SelectAnalogueService => match parse::<AnalogueServiceId>(bytes) {
                Ok(service_id) => Ok(Message::SelectAnalogueService { service_id }),
                Err(e) => Err(e.shifted(1)),
            },
            Opcode::SelectDigitalService => match parse::<DigitalServiceId>(bytes) {
                Ok(service_id) => Ok(Message::SelectDigitalService { service_id }),
                Err(e) => Err(e.shifted(1)),
            },
            Opcode::TunerDeviceStatus => match parse::<TunerDeviceInfo>(bytes) {
                Ok(info) => Ok(Message::TunerDeviceStatus { info }),
                Err(e) => Err(e.shifted(1)),
            },
            Opcode::TunerStepDecrement => Ok(Message::TunerStepDecrement),
            Opcode::TunerStepIncrement => Ok(Message::TunerStepIncrement),
            Opcode::DeviceVendorId => match parse::<VendorId>(bytes) {
                Ok(vendor_id) => Ok(Message::DeviceVendorId { vendor_id }),
                Err(e) => Err(e.shifted(1)),
            },
            Opcode::GiveDeviceVendorId => Ok(Message::GiveDeviceVendorId),
            Opcode::VendorCommand => match parse::<BufferOperand>(bytes) {
                Ok(command) => Ok(Message::VendorCommand { command }),
                Err(e) => Err(e.shifted(1)),
            },
            Opcode::VendorCommandWithId => match parse::<(
                VendorId,
                BoundedBufferOperand<11, u8>,
            )>(bytes) {
                Ok((vendor_id, vendor_specific_data)) => Ok(
                    Message::VendorCommandWithId { vendor_id, vendor_specific_data },
                ),
                Err(e) => Err(e.shifted(1)),
            },
            Opcode::VendorRemoteButtonDown => match parse::<BufferOperand>(bytes) {
                Ok(rc_code) => Ok(Message::VendorRemoteButtonDown { rc_code }),
                Err(e) => Err(e.shifted(1)),
            },
            Opcode::VendorRemoteButtonUp => Ok(Message::VendorRemoteButtonUp),
            Opcode::SetOsdString => match parse::<(
                DisplayControl,
                BoundedBufferOperand<13, u8>,
            )>(bytes) {
                Ok((display_control, osd_string)) => Ok(
                    Message::SetOsdString { display_control, osd_string },
                ),
                Err(e) => Err(e.shifted(1)),
            },
            Opcode::GiveOsdName => Ok(Message::GiveOsdName),
            Opcode::SetOsdName => match parse::<BufferOperand>(bytes) {
                Ok(name) => Ok(Message::SetOsdName { name }),
                Err(e) => Err(e.shifted(1)),
            },
            Opcode::MenuRequest => match parse::<MenuRequestType>(bytes) {
                Ok(request_type) => Ok(Message::MenuRequest { request_type }),
                Err(e) => Err(e.shifted(1)),
            },
            Opcode::MenuStatus => match parse::<MenuState>(bytes) {
                Ok(state) => Ok(Message::MenuStatus { state }),
                Err(e) => Err(e.shifted(1)),
            },
            Opcode::UserControlPressed => match parse::<UiCommand>(bytes) {
                Ok(ui_command) => Ok(Message::UserControlPressed { ui_command }),
                Err(e) => Err(e.shifted(1)),
            },
            Opcode::UserControlReleased => Ok(Message::UserControlReleased),
            Opcode::GiveDevicePowerStatus => Ok(Message::GiveDevicePowerStatus),
            Opcode::ReportPowerStatus => match parse::<PowerStatus>(bytes) {
                Ok(status) => Ok(Message::ReportPowerStatus { status }),
                Err(e) => Err(e.shifted(1)),
            },
            Opcode::FeatureAbort => match parse::<(u8, AbortReason)>(bytes) {
                Ok((opcode, abort_reason)) => Ok(Message::FeatureAbort { opcode, abort_reason }),
                Err(e) => Err(e.shifted(1)),
            },
            Opcode::Abort => Ok(Message::Abort),
            Opcode::GiveAudioStatus => Ok(Message::GiveAudioStatus),
            Opcode::GiveSystemAudioModeStatus => Ok(Message::GiveSystemAudioModeStatus),
            Opcode::ReportAudioStatus => match parse::<AudioStatus>(bytes) {
                Ok(status) => Ok(Message::ReportAudioStatus { status }),
                Err(e) => Err(e.shifted(1)),
            },
            Opcode::ReportShortAudioDescriptor => match parse::<BoundedBufferOperand<4, ShortAudioDescriptor>>(
                bytes,
            ) {
                Ok(descriptors) => Ok(Message::ReportShortAudioDescriptor { descriptors }),
                Err(e) => Err(e.shifted(1)),
            },
            Opcode::RequestShortAudioDescriptor => match parse::<BoundedBufferOperand<4, AudioFormatIdAndCode>>(
                bytes,
            ) {
                Ok(descriptors) => Ok(Message::RequestShortAudioDescriptor { descriptors }),
                Err(e) => Err(e.shifted(1)),
            },
            Opcode::SetSystemAudioMode => match parse::<bool>(bytes) {
                Ok(status) => Ok(Message::SetSystemAudioMode { status }),
                Err(e) => Err(e.shifted(1)),
            },
            Opcode::SystemAudioModeRequest => match parse::<PhysicalAddress>(bytes) {
                Ok(physical_address) => Ok(Message::SystemAudioModeRequest { physical_address }),
                Err(e) => Err(e.shifted(1)),
            },
            Opcode::SystemAudioModeStatus => match parse::<bool>(bytes) {
                Ok(status) => Ok(Message::SystemAudioModeStatus { status }),
                Err(e) => Err(e.shifted(1)),
            },
            Opcode::SetAudioRate => match parse::<AudioRate>(bytes) {
                Ok(audio_rate) => Ok(Message::SetAudioRate { audio_rate }),
                Err(e) => Err(e.shifted(1)),
            },
            Opcode::InitiateArc => Ok(Message::InitiateArc),
            Opcode::ReportArcInitiated => Ok(Message::ReportArcInitiated),
            Opcode::ReportArcTerminated => Ok(Message::ReportArcTerminated),
            Opcode::RequestArcInitiation => Ok(Message::RequestArcInitiation),
            Opcode::RequestArcTermination => Ok(Message::RequestArcTermination),
            Opcode::TerminateArc => Ok(Message::TerminateArc),
            Opcode::CdcMessage => match parse::<(PhysicalAddress, cdc::Message)>(bytes) {
                Ok((initiator, message)) => Ok(Message::CdcMessage { initiator, message }),
                Err(e) => Err(e.shifted(1)),
            },
            Opcode::ReportFeatures => match parse::<(
                Version,
                (AllDeviceTypes, (RcProfile, DeviceFeatures)),
            )>(bytes) {
                Ok((version, (device_types, (rc_profile, device_features)))) => Ok(
                    Message::ReportFeatures { version, device_types, rc_profile, device_features },
                ),
                Err(e) => Err(e.shifted(1)),
            },
            Opcode::GiveFeatures => Ok(Message::GiveFeatures),
            Opcode::RequestCurrentLatency => match parse::<PhysicalAddress>(bytes) {
                Ok(physical_address) => Ok(Message::RequestCurrentLatency { physical_address }),
                Err(e) => Err(e.shifted(1)),
            },
            Opcode::ReportCurrentLatency => match parse::<(
                PhysicalAddress,
                (Delay, (LatencyFlags, Option<Delay>)),
            )>(bytes) {
                Ok((physical_address, (video_latency, (flags, audio_output_delay)))) => Ok(
                    Message::ReportCurrentLatency {
                        physical_address,
                        video_latency,
                        flags,
                        audio_output_delay,
                    },
                ),
                Err(e) => Err(e.shifted(1)),
            },
            Opcode::SetAudioVolumeLevel => match parse::<AudioVolumeLevel>(bytes) {
                Ok(volume_level) => Ok(Message::SetAudioVolumeLevel { volume_level }),
                Err(e) => Err(e.shifted(1)),
            },
        }
    }

    fn emit_operands_routing(&self, buf: &mut Vec<u8>)
        requires
            self is ActiveSource
                || self is InactiveSource
                || self is RoutingChange
                || self is RoutingInformation
                || self is SetStreamPath
                || self is RecordOn
                || self is RecordStatus,
        ensures
            final(buf)@ == old(buf)@ + self.operands(),
            self.valid(),
    {
        match self {
            Message::ActiveSource { address } => emit(&*address, buf),
            Message::InactiveSource { address } => emit(&*address, buf),
            Message::RoutingChange { original_address, new_address } => emit(
                &(*original_address, *new_address),
                buf,
            ),
            Message::RoutingInformation { address } => emit(&*address, buf),
            Message::SetStreamPath { address } => emit(&*address, buf),
            Message::RecordOn { source } => emit(&*source, buf),
            Message::RecordStatus { status } => emit(&*status, buf),
            _ => {},
        }
    }

    fn operands_width_routing(&self) -> (n: usize)
        requires
            self.operands().len() < usize::MAX,
            self is ActiveSource
                || self is InactiveSource
                || self is RoutingChange
                || self is RoutingInformation
                || self is SetStreamPath
                || self is RecordOn
                || self is RecordStatus,
        ensures
            n == self.operands().len(),
    {
        match self {
            Message::ActiveSource { address } => width(&*address),
            Message::InactiveSource { address } => width(&*address),
            Message::RoutingChange { original_address, new_address } => width(
                &(*original_address, *new_address),
            ),
            Message::RoutingInformation { address } => width(&*address),
            Message::SetStreamPath { address } => width(&*address),
            Message::RecordOn { source } => width(&*source),
            Message::RecordStatus { status } => width(&*status),
            _ => 0,
        }
    }

    fn read_operands_routing(kind: Opcode, bytes: &[u8]) -> (r: Result<Message, Error>)
        requires
            kind is ActiveSource
                || kind is InactiveSource
                || kind is RoutingChange
                || kind is RoutingInformation
                || kind is SetStreamPath
                || kind is RecordOn
                || kind is RecordStatus,
        ensures
            outcome(r) == Self::of_operands(kind, bytes@),
            r matches Ok(m) ==> m.valid() && m.kind() == kind && m.operands().len() <= bytes@.len(),
    {
        match kind {
            Opcode::ActiveSource => match read::<PhysicalAddress>(bytes) {
                Ok(address) => Ok(Message::ActiveSource { address }),
                Err(e) => Err(e.shift(1)),
            },
            Opcode::InactiveSource => match read::<PhysicalAddress>(bytes) {
                Ok(address) => Ok(Message::InactiveSource { address }),
                Err(e) => Err(e.shift(1)),
            },
            Opcode::RoutingChange => match read::<(PhysicalAddress, PhysicalAddress)>(bytes) {
                Ok((original_address, new_address)) => Ok(
                    Message::RoutingChange { original_address, new_address },
                ),
                Err(e) => Err(e.shift(1)),
            },
            Opcode::RoutingInformation => match read::<PhysicalAddress>(bytes) {
                Ok(address) => Ok(Message::RoutingInformation { address }),
                Err(e) => Err(e.shift(1)),
            },
            Opcode::SetStreamPath => match read::<PhysicalAddress>(bytes) {
                Ok(address) => Ok(Message::SetStreamPath { address }),
                Err(e) => Err(e.shift(1)),
            },
            Opcode::RecordOn => match read::<RecordSource>(bytes) {
                Ok(source) => Ok(Message::RecordOn { source }),
                Err(e) => Err(e.shift(1)),
            },
            Opcode::RecordStatus => match read::<RecordStatusInfo>(bytes) {
                Ok(status) => Ok(Message::RecordStatus { status }),
                Err(e) => Err(e.shift(1)),
            },
            _ => Err(Error::InvalidData),
        }
    }

    fn emit_operands_timer(&self, buf: &mut Vec<u8>)
        requires
            self is ClearAnalogueTimer
                || self is ClearDigitalTimer
                || self is ClearExtTimer
                || self is SetAnalogueTimer
                || self is SetDigitalTimer
                || self is SetExtTimer
                || self is SetTimerProgramTitle
                || self is TimerClearedStatus
                || self is TimerStatus,
        ensures
            final(buf)@ == old(buf)@ + self.operands(),
            self.valid(),
    {
        match self {
            Message::ClearAnalogueTimer {
                day_of_month,
                month_of_year,
                start_time,
                duration,
                recording_sequence,
                service_id,
            } => emit(
                &(
                    *day_of_month,
                    (
                        *month_of_year,
                        (*start_time, (*duration, (*recording_sequence, *service_id))),
                    ),
                ),
                buf,
            ),
            Message::ClearDigitalTimer {
                day_of_month,
                month_of_year,
                start_time,
                duration,
                recording_sequence,
                service_id,
            } => emit(
                &(
                    *day_of_month,
                    (
                        *month_of_year,
                        (*start_time, (*duration, (*recording_sequence, *service_id))),
                    ),
                ),
                buf,
            ),
            Message::ClearExtTimer {
                day_of_month,
                month_of_year,
                start_time,
                duration,
                recording_sequence,
                external_source,
            } => emit(
                &(
                    *day_of_month,
                    (
                        *month_of_year,
                        (*start_time, (*duration, (*recording_sequence, *external_source))),
                    ),
                ),
                buf,
            ),
            Message::SetAnalogueTimer {
                day_of_month,
                month_of_year,
                start_time,
                duration,
                recording_sequence,
                service_id,
            } => emit(
                &(
                    *day_of_month,
                    (
                        *month_of_year,
                        (*start_time, (*duration, (*recording_sequence, *service_id))),
                    ),
                ),
                buf,
            ),
            Message::SetDigitalTimer {
                day_of_month,
                month_of_year,
                start_time,
                duration,
                recording_sequence,
                service_id,
            } => emit(
                &(
                    *day_of_month,
                    (
                        *month_of_year,
                        (*start_time, (*duration, (*recording_sequence, *service_id))),
                    ),
                ),
                buf,
            ),
            Message::SetExtTimer {
                day_of_month,
                month_of_year,
                start_time,
                duration,
                recording_sequence,
                external_source,
            } => emit(
                &(
                    *day_of_month,
                    (
                        *month_of_year,
                        (*start_time, (*duration, (*recording_sequence, *external_source))),
                    ),
                ),
                buf,
            ),
            Message::SetTimerProgramTitle { title } => emit(&*title, buf),
            Message::TimerClearedStatus { status } => emit(&*status, buf),
            Message::TimerStatus { status } => emit(&*status, buf),
            _ => {},
        }
    }

    fn operands_width_timer(&self) -> (n: usize)
        requires
            self.operands().len() < usize::MAX,
            self is ClearAnalogueTimer
                || self is ClearDigitalTimer
                || self is ClearExtTimer
                || self is SetAnalogueTimer
                || self is SetDigitalTimer
                || self is SetExtTimer
                || self is SetTimerProgramTitle
                || self is TimerClearedStatus
                || self is TimerStatus,
        ensures
            n == self.operands().len(),
    {
        match self {
            Message::ClearAnalogueTimer {
                day_of_month,
                month_of_year,
                start_time,
                duration,
                recording_sequence,
                service_id,
            } => width(
                &(
                    *day_of_month,
                    (
                        *month_of_year,
                        (*start_time, (*duration, (*recording_sequence, *service_id))),
                    ),
                ),
            ),
            Message::ClearDigitalTimer {
                day_of_month,
                month_of_year,
                start_time,
                duration,
                recording_sequence,
                service_id,
            } => width(
                &(
                    *day_of_month,
                    (
                        *month_of_year,
                        (*start_time, (*duration, (*recording_sequence, *service_id))),
                    ),
                ),
            ),
            Message::ClearExtTimer {
                day_of_month,
                month_of_year,
                start_time,
                duration,
                recording_sequence,
                external_source,
            } => width(
                &(
                    *day_of_month,
                    (
                        *month_of_year,
                        (*start_time, (*duration, (*recording_sequence, *external_source))),
                    ),
                ),
            ),
            Message::SetAnalogueTimer {
                day_of_month,
                month_of_year,
                start_time,
                duration,
                recording_sequence,
                service_id,
            } => width(
                &(
                    *day_of_month,
                    (
                        *month_of_year,
                        (*start_time, (*duration, (*recording_sequence, *service_id))),
                    ),
                ),
            ),
            Message::SetDigitalTimer {
                day_of_month,
                month_of_year,
                start_time,
                duration,
                recording_sequence,
                service_id,
            } => width(
                &(
                    *day_of_month,
                    (
                        *month_of_year,
                        (*start_time, (*duration, (*recording_sequence, *service_id))),
                    ),
                ),
            ),
            Message::SetExtTimer {
                day_of_month,
                month_of_year,
                start_time,
                duration,
                recording_sequence,
                external_source,
            } => width(
                &(
                    *day_of_month,
                    (
                        *month_of_year,
                        (*start_time, (*duration, (*recording_sequence, *external_source))),
                    ),
                ),
            ),
            Message::SetTimerProgramTitle { title } => width(&*title),
            Message::TimerClearedStatus { status } => width(&*status),
            Message::TimerStatus { status } => width(&*status),
            _ => 0,
        }
    }

    fn read_operands_timer(kind: Opcode, bytes: &[u8]) -> (r: Result<Message, Error>)
        requires
            kind is ClearAnalogueTimer
                || kind is ClearDigitalTimer
                || kind is ClearExtTimer
                || kind is SetAnalogueTimer
                || kind is SetDigitalTimer
                || kind is SetExtTimer
                || kind is SetTimerProgramTitle
                || kind is TimerClearedStatus
                || kind is TimerStatus,
        ensures
            outcome(r) == Self::of_operands(kind, bytes@),
            r matches Ok(m) ==> m.valid() && m.kind() == kind && m.operands().len() <= bytes@.len(),
    {
        match kind {
            Opcode::ClearAnalogueTimer => match read::<(
                DayOfMonth,
                (MonthOfYear, (Time, (Duration, (RecordingSequence, AnalogueServiceId)))),
            )>(bytes) {
                Ok(
                    (
                        day_of_month,
                        (month_of_year, (start_time, (duration, (recording_sequence, service_id)))),
                    ),
                ) => Ok(
                    Message::ClearAnalogueTimer {
                        day_of_month,
                        month_of_year,
                        start_time,
                        duration,
                        recording_sequence,
                        service_id,
                    },
                ),
                Err(e) => Err(e.shift(1)),
            },
            Opcode::ClearDigitalTimer => match read::<(
                DayOfMonth,
                (MonthOfYear, (Time, (Duration, (RecordingSequence, DigitalServiceId)))),
            )>(bytes) {
                Ok(
                    (
                        day_of_month,
                        (month_of_year, (start_time, (duration, (recording_sequence, service_id)))),
                    ),
                ) => Ok(
                    Message::ClearDigitalTimer {
                        day_of_month,
                        month_of_year,
                        start_time,
                        duration,
                        recording_sequence,
                        service_id,
                    },
                ),
                Err(e) => Err(e.shift(1)),
            },
            Opcode::ClearExtTimer => match read::<(
                DayOfMonth,
                (MonthOfYear, (Time, (Duration, (RecordingSequence, ExternalSource)))),
            )>(bytes) {
                Ok(
                    (
                        day_of_month,
                        (
                            month_of_year,
                            (start_time, (duration, (recording_sequence, external_source))),
                        ),
                    ),
                ) => Ok(
                    Message::ClearExtTimer {
                        day_of_month,
                        month_of_year,
                        start_time,
                        duration,
                        recording_sequence,
                        external_source,
                    },
                ),
                Err(e) => Err(e.shift(1)),
            },
            Opcode::SetAnalogueTimer => match read::<(
                DayOfMonth,
                (MonthOfYear, (Time, (Duration, (RecordingSequence, AnalogueServiceId)))),
            )>(bytes) {
                Ok(
                    (
                        day_of_month,
                        (month_of_year, (start_time, (duration, (recording_sequence, service_id)))),
                    ),
                ) => Ok(
                    Message::SetAnalogueTimer {
                        day_of_month,
                        month_of_year,
                        start_time,
                        duration,
                        recording_sequence,
                        service_id,
                    },
                ),
                Err(e) => Err(e.shift(1)),
            },
            Opcode::SetDigitalTimer => match read::<(
                DayOfMonth,
                (MonthOfYear, (Time, (Duration, (RecordingSequence, DigitalServiceId)))),
            )>(bytes) {
                Ok(
                    (
                        day_of_month,
                        (month_of_year, (start_time, (duration, (recording_sequence, service_id)))),
                    ),
                ) => Ok(
                    Message::SetDigitalTimer {
                        day_of_month,
                        month_of_year,
                        start_time,
                        duration,
                        recording_sequence,
                        service_id,
                    },
                ),
                Err(e) => Err(e.shift(1)),
            },
            Opcode::SetExtTimer => match read::<(
                DayOfMonth,
                (MonthOfYear, (Time, (Duration, (RecordingSequence, ExternalSource)))),
            )>(bytes) {
                Ok(
                    (
                        day_of_month,
                        (
                            month_of_year,
                            (start_time, (duration, (recording_sequence, external_source))),
                        ),
                    ),
                ) => Ok(
                    Message::SetExtTimer {
                        day_of_month,
                        month_of_year,
                        start_time,
                        duration,
                        recording_sequence,
                        external_source,
                    },
                ),
                Err(e) => Err(e.shift(1)),
            },
            Opcode::SetTimerProgramTitle => match read::<BufferOperand>(bytes) {
                Ok(title) => Ok(Message::SetTimerProgramTitle { title }),
                Err(e) => Err(e.shift(1)),
            },
            Opcode::TimerClearedStatus => match read::<TimerClearedStatusData>(bytes) {
                Ok(status) => Ok(Message::TimerClearedStatus { status }),
                Err(e) => Err(e.shift(1)),
            },
            Opcode::TimerStatus => match read::<TimerStatusData>(bytes) {
                Ok(status) => Ok(Message::TimerStatus { status }),
                Err(e) => Err(e.shift(1)),
            },
            _ => Err(Error::InvalidData),
        }
    }

    fn emit_operands_deck(&self, buf: &mut Vec<u8>)
        requires
            self is CecVersion
                || self is ReportPhysicalAddr
                || self is SetMenuLanguage
                || self is DeckControl
                || self is DeckStatus
                || self is GiveDeckStatus
                || self is Play
                || self is GiveTunerDeviceStatus
                || self is SelectAnalogueService
                || self is SelectDigitalService
                || self is TunerDeviceStatus,
        ensures
            final(buf)@ == old(buf)@ + self.operands(),
            self.valid(),
    {
        match self {
            Message::CecVersion { version } => emit(&*version, buf),
            Message::ReportPhysicalAddr { physical_address, device_type } => emit(
                &(*physical_address, *device_type),
                buf,
            ),
            Message::SetMenuLanguage { language } => emit(&*language, buf),
            Message::DeckControl { mode } => emit(&*mode, buf),
            Message::DeckStatus { info } => emit(&*info, buf),
            Message::GiveDeckStatus { request } => emit(&*request, buf),
            Message::Play { mode } => emit(&*mode, buf),
            Message::GiveTunerDeviceStatus { request } => emit(&*request, buf),
            Message::SelectAnalogueService { service_id } => emit(&*service_id, buf),
            Message::SelectDigitalService { service_id } => emit(&*service_id, buf),
            Message::TunerDeviceStatus { info } => emit(&*info, buf),
            _ => {},
        }
    }

    fn operands_width_deck(&self) -> (n: usize)
        requires
            self.operands().len() < usize::MAX,
            self is CecVersion
                || self is ReportPhysicalAddr
                || self is SetMenuLanguage
                || self is DeckControl
                || self is DeckStatus
                || self is GiveDeckStatus
                || self is Play
                || self is GiveTunerDeviceStatus
                || self is SelectAnalogueService
                || self is SelectDigitalService
                || self is TunerDeviceStatus,
        ensures
            n == self.operands().len(),
    {
        match self {
            Message::CecVersion { version } => width(&*version),
            Message::ReportPhysicalAddr { physical_address, device_type } => width(
                &(*physical_address, *device_type),
            ),
            Message::SetMenuLanguage { language } => width(&*language),
            Message::DeckControl { mode } => width(&*mode),
            Message::DeckStatus { info } => width(&*info),
            Message::GiveDeckStatus { request } => width(&*request),
            Message::Play { mode } => width(&*mode),
            Message::GiveTunerDeviceStatus { request } => width(&*request),
            Message::SelectAnalogueService { service_id } => width(&*service_id),
            Message::SelectDigitalService { service_id } => width(&*service_id),
            Message::TunerDeviceStatus { info } => width(&*info),
            _ => 0,
        }
    }

    fn read_operands_deck(kind: Opcode, bytes: &[u8]) -> (r: Result<Message, Error>)
        requires
            kind is CecVersion
                || kind is ReportPhysicalAddr
                || kind is SetMenuLanguage
                || kind is DeckControl
                || kind is DeckStatus
                || kind is GiveDeckStatus
                || kind is Play
                || kind is GiveTunerDeviceStatus
                || kind is SelectAnalogueService
                || kind is SelectDigitalService
                || kind is TunerDeviceStatus,
        ensures
            outcome(r) == Self::of_operands(kind, bytes@),
            r matches Ok(m) ==> m.valid() && m.kind() == kind && m.operands().len() <= bytes@.len(),
    {
        match kind {
            Opcode::CecVersion => match read::<Version>(bytes) {
                Ok(version) => Ok(Message::CecVersion { version }),
                Err(e) => Err(e.shift(1)),
            },
            Opcode::ReportPhysicalAddr => match read::<(
                PhysicalAddress,
                PrimaryDeviceType,
            )>(bytes) {
                Ok((physical_address, device_type)) => Ok(
                    Message::ReportPhysicalAddr { physical_address, device_type },
                ),
                Err(e) => Err(e.shift(1)),
            },
            Opcode::SetMenuLanguage => match read::<[u8; 3]>(bytes) {
                Ok(language) => Ok(Message::SetMenuLanguage { language }),
                Err(e) => Err(e.shift(1)),
            },
            Opcode::DeckControl => match read::<DeckControlMode>(bytes) {
                Ok(mode) => Ok(Message::DeckControl { mode }),
                Err(e) => Err(e.shift(1)),
            },
            Opcode::DeckStatus => match read::<DeckInfo>(bytes) {
                Ok(info) => Ok(Message::DeckStatus { info }),
                Err(e) => Err(e.shift(1)),
            },
            Opcode::GiveDeckStatus => match read::<StatusRequest>(bytes) {
                Ok(request) => Ok(Message::GiveDeckStatus { request }),
                Err(e) => Err(e.shift(1)),
            },
            Opcode::Play => match read::<PlayMode>(bytes) {
                Ok(mode) => Ok(Message::Play { mode }),
                Err(e) => Err(e.shift(1)),
            },
            Opcode::GiveTunerDeviceStatus => match read::<StatusRequest>(bytes) {
                Ok(request) => Ok(Message::GiveTunerDeviceStatus { request }),
                Err(e) => Err(e.shift(1)),
            },
            Opcode::SelectAnalogueService => match read::<AnalogueServiceId>(bytes) {
                Ok(service_id) => Ok(Message::SelectAnalogueService { service_id }),
                Err(e) => Err(e.shift(1)),
            },
            Opcode::SelectDigitalService => match read::<DigitalServiceId>(bytes) {
                Ok(service_id) => Ok(Message::SelectDigitalService { service_id }),
                Err(e) => Err(e.shift(1)),
            },
            Opcode::TunerDeviceStatus => match read::<TunerDeviceInfo>(bytes) {
                Ok(info) => Ok(Message::TunerDeviceStatus { info }),
                Err(e) => Err(e.shift(1)),
            },
            _ => Err(Error::InvalidData),
        }
    }

    fn emit_operands_vendor(&self, buf: &mut Vec<u8>)
        requires
            self is DeviceVendorId
                || self is VendorCommand
                || self is VendorCommandWithId
                || self is VendorRemoteButtonDown
                || self is SetOsdString
                || self is SetOsdName
                || self is MenuRequest
                || self is MenuStatus
                || self is UserControlPressed
                || self is ReportPowerStatus,
        ensures
            final(buf)@ == old(buf)@ + self.operands(),
            self.valid(),
    {
        match self {
            Message::DeviceVendorId { vendor_id } => emit(&*vendor_id, buf),
            Message::VendorCommand { command } => emit(&*command, buf),
            Message::VendorCommandWithId { vendor_id, vendor_specific_data } => emit(
                &(*vendor_id, *vendor_specific_data),
                buf,
            ),
            Message::VendorRemoteButtonDown { rc_code } => emit(&*rc_code, buf),
            Message::SetOsdString { display_control, osd_string } => emit(
                &(*display_control, *osd_string),
                buf,
            ),
            Message::SetOsdName { name } => emit(&*name, buf),
            Message::MenuRequest { request_type } => emit(&*request_type, buf),
            Message::MenuStatus { state } => emit(&*state, buf),
            Message::UserControlPressed { ui_command } => emit(&*ui_command, buf),
            Message::ReportPowerStatus { status } => emit(&*status, buf),
            _ => {},
        }
    }

    fn operands_width_vendor(&self) -> (n: usize)
        requires
            self.operands().len() < usize::MAX,
            self is DeviceVendorId
                || self is VendorCommand
                || self is VendorCommandWithId
                || self is VendorRemoteButtonDown
                || self is SetOsdString
                || self is SetOsdName
                || self is MenuRequest
                || self is MenuStatus
                || self is UserControlPressed
                || self is ReportPowerStatus,
        ensures
            n == self.operands().len(),
    {
        match self {
            Message::DeviceVendorId { vendor_id } => width(&*vendor_id),
            Message::VendorCommand { command } => width(&*command),
            Message::VendorCommandWithId { vendor_id, vendor_specific_data } => width(
                &(*vendor_id, *vendor_specific_data),
            ),
            Message::VendorRemoteButtonDown { rc_code } => width(&*rc_code),
            Message::SetOsdString { display_control, osd_string } => width(
                &(*display_control, *osd_string),
            ),
            Message::SetOsdName { name } => width(&*name),
            Message::MenuRequest { request_type } => width(&*request_type),
            Message::MenuStatus { state } => width(&*state),
            Message::UserControlPressed { ui_command } => width(&*ui_command),
            Message::ReportPowerStatus { status } => width(&*status),
            _ => 0,
        }
    }

    fn read_operands_vendor(kind: Opcode, bytes: &[u8]) -> (r: Result<Message, Error>)
        requires
            kind is DeviceVendorId
                || kind is VendorCommand
                || kind is VendorCommandWithId
                || kind is VendorRemoteButtonDown
                || kind is SetOsdString
                || kind is SetOsdName
                || kind is MenuRequest
                || kind is MenuStatus
                || kind is UserControlPressed
                || kind is ReportPowerStatus,
        ensures
            outcome(r) == Self::of_operands(kind, bytes@),
            r matches Ok(m) ==> m.valid() && m.kind() == kind && m.operands().len() <= bytes@.len(),
    {
        match kind {
            Opcode::DeviceVendorId => match read::<VendorId>(bytes) {
                Ok(vendor_id) => Ok(Message::DeviceVendorId { vendor_id }),
                Err(e) => Err(e.shift(1)),
            },
            Opcode::VendorCommand => match read::<BufferOperand>(bytes) {
                Ok(command) => Ok(Message::VendorCommand { command }),
                Err(e) => Err(e.shift(1)),
            },
            Opcode::VendorCommandWithId => match read::<(
                VendorId,
                BoundedBufferOperand<11, u8>,
            )>(bytes) {
                Ok((vendor_id, vendor_specific_data)) => Ok(
                    Message::VendorCommandWithId { vendor_id, vendor_specific_data },
                ),
                Err(e) => Err(e.shift(1)),
            },
            Opcode::VendorRemoteButtonDown => match read::<BufferOperand>(bytes) {
                Ok(rc_code) => Ok(Message::VendorRemoteButtonDown { rc_code }),
                Err(e) => Err(e.shift(1)),
            },
            Opcode::SetOsdString => match read::<(
                DisplayControl,
                BoundedBufferOperand<13, u8>,
            )>(bytes) {
                Ok((display_control, osd_string)) => Ok(
                    Message::SetOsdString { display_control, osd_string },
                ),
                Err(e) => Err(e.shift(1)),
            },
            Opcode::SetOsdName => match read::<BufferOperand>(bytes) {
                Ok(name) => Ok(Message::SetOsdName { name }),
                Err(e) => Err(e.shift(1)),
            },
            Opcode::MenuRequest => match read::<MenuRequestType>(bytes) {
                Ok(request_type) => Ok(Message::MenuRequest { request_type }),
                Err(e) => Err(e.shift(1)),
            },
            Opcode::MenuStatus => match read::<MenuState>(bytes) {
                Ok(state) => Ok(Message::MenuStatus { state }),
                Err(e) => Err(e.shift(1)),
            },
            Opcode::UserControlPressed => match read::<UiCommand>(bytes) {
                Ok(ui_command) => Ok(Message::UserControlPressed { ui_command }),
                Err(e) => Err(e.shift(1)),
            },
            Opcode::ReportPowerStatus => match read::<PowerStatus>(bytes) {
                Ok(status) => Ok(Message::ReportPowerStatus { status }),
                Err(e) => Err(e.shift(1)),
            },
            _ => Err(Error::InvalidData),
        }
    }

    fn emit_operands_audio(&self, buf: &mut Vec<u8>)
        requires
            self is FeatureAbort
                || self is ReportAudioStatus
                || self is ReportShortAudioDescriptor
                || self is RequestShortAudioDescriptor
                || self is SetSystemAudioMode
                || self is SystemAudioModeRequest
                || self is SystemAudioModeStatus
                || self is SetAudioRate
                || self is CdcMessage
                || self is ReportFeatures
                || self is RequestCurrentLatency
                || self is ReportCurrentLatency
                || self is SetAudioVolumeLevel,
        ensures
            final(buf)@ == old(buf)@ + self.operands(),
            self.valid(),
    {
        match self {
            Message::FeatureAbort { opcode, abort_reason } => emit(&(*opcode, *abort_reason), buf),
            Message::ReportAudioStatus { status } => emit(&*status, buf),
            Message::ReportShortAudioDescriptor { descriptors } => emit(&*descriptors, buf),
            Message::RequestShortAudioDescriptor { descriptors } => emit(&*descriptors, buf),
            Message::SetSystemAudioMode { status } => emit(&*status, buf),
            Message::SystemAudioModeRequest { physical_address } => emit(&*physical_address, buf),
            Message::SystemAudioModeStatus { status } => emit(&*status, buf),
            Message::SetAudioRate { audio_rate } => emit(&*audio_rate, buf),
            Message::CdcMessage { initiator, message } => emit(&(*initiator, *message), buf),
            Message::ReportFeatures { version, device_types, rc_profile, device_features } => emit(
                &(*version, (*device_types, (*rc_profile, *device_features))),
                buf,
            ),
            Message::RequestCurrentLatency { physical_address } => emit(&*physical_address, buf),
            Message::ReportCurrentLatency {
                physical_address,
                video_latency,
                flags,
                audio_output_delay,
            } => emit(&(*physical_address, (*video_latency, (*flags, *audio_output_delay))), buf),
            Message::SetAudioVolumeLevel { volume_level } => emit(&*volume_level, buf),
            _ => {},
        }
    }

    fn operands_width_audio(&self) -> (n: usize)
        requires
            self.operands().len() < usize::MAX,
            self is FeatureAbort
                || self is ReportAudioStatus
                || self is ReportShortAudioDescriptor
                || self is RequestShortAudioDescriptor
                || self is SetSystemAudioMode
                || self is SystemAudioModeRequest
                || self is SystemAudioModeStatus
                || self is SetAudioRate
                || self is CdcMessage
                || self is ReportFeatures
                || self is RequestCurrentLatency
                || self is ReportCurrentLatency
                || self is SetAudioVolumeLevel,
        ensures
            n == self.operands().len(),
    {
        match self {
            Message::FeatureAbort { opcode, abort_reason } => width(&(*opcode, *abort_reason)),
            Message::ReportAudioStatus { status } => width(&*status),
            Message::ReportShortAudioDescriptor { descriptors } => width(&*descriptors),
            Message::RequestShortAudioDescriptor { descriptors } => width(&*descriptors),
            Message::SetSystemAudioMode { status } => width(&*status),
            Message::SystemAudioModeRequest { physical_address } => width(&*physical_address),
            Message::SystemAudioModeStatus { status } => width(&*status),
            Message::SetAudioRate { audio_rate } => width(&*audio_rate),
            Message::CdcMessage { initiator, message } => width(&(*initiator, *message)),
            Message::ReportFeatures { version, device_types, rc_profile, device_features } => width(
                &(*version, (*device_types, (*rc_profile, *device_features))),
            ),
            Message::RequestCurrentLatency { physical_address } => width(&*physical_address),
            Message::ReportCurrentLatency {
                physical_address,
                video_latency,
                flags,
                audio_output_delay,
            } => width(&(*physical_address, (*video_latency, (*flags, *audio_output_delay)))),
            Message::SetAudioVolumeLevel { volume_level } => width(&*volume_level),
            _ => 0,
        }
    }

    fn read_operands_audio(kind: Opcode, bytes: &[u8]) -> (r: Result<Message, Error>)
        requires
            kind is FeatureAbort
                || kind is ReportAudioStatus
                || kind is ReportShortAudioDescriptor
                || kind is RequestShortAudioDescriptor
                || kind is SetSystemAudioMode
                || kind is SystemAudioModeRequest
                || kind is SystemAudioModeStatus
                || kind is SetAudioRate
                || kind is CdcMessage
                || kind is ReportFeatures
                || kind is RequestCurrentLatency
                || kind is ReportCurrentLatency
                || kind is SetAudioVolumeLevel,
        ensures
            outcome(r) == Self::of_operands(kind, bytes@),
            r matches Ok(m) ==> m.valid() && m.kind() == kind && m.operands().len() <= bytes@.len(),
    {
        match kind {
            Opcode::FeatureAbort => match read::<(u8, AbortReason)>(bytes) {
                Ok((opcode, abort_reason)) => Ok(Message::FeatureAbort { opcode, abort_reason }),
                Err(e) => Err(e.shift(1)),
            },
            Opcode::ReportAudioStatus => match read::<AudioStatus>(bytes) {
                Ok(status) => Ok(Message::ReportAudioStatus { status }),
                Err(e) => Err(e.shift(1)),
            },
            Opcode::ReportShortAudioDescriptor => match read::<BoundedBufferOperand<4, ShortAudioDescriptor>>(
                bytes,
            ) {
                Ok(descriptors) => Ok(Message::ReportShortAudioDescriptor { descriptors }),
                Err(e) => Err(e.shift(1)),
            },
            Opcode::RequestShortAudioDescriptor => match read::<BoundedBufferOperand<4, AudioFormatIdAndCode>>(
                bytes,
            ) {
                Ok(descriptors) => Ok(Message::RequestShortAudioDescriptor { descriptors }),
                Err(e) => Err(e.shift(1)),
            },
            Opcode::SetSystemAudioMode => match read::<bool>(bytes) {
                Ok(status) => Ok(Message::SetSystemAudioMode { status }),
                Err(e) => Err(e.shift(1)),
            },
            Opcode::SystemAudioModeRequest => match read::<PhysicalAddress>(bytes) {
                Ok(physical_address) => Ok(Message::SystemAudioModeRequest { physical_address }),
                Err(e) => Err(e.shift(1)),
            },
            Opcode::SystemAudioModeStatus => match read::<bool>(bytes) {
                Ok(status) => Ok(Message::SystemAudioModeStatus { status }),
                Err(e) => Err(e.shift(1)),
            },
            Opcode::SetAudioRate => match read::<AudioRate>(bytes) {
                Ok(audio_rate) => Ok(Message::SetAudioRate { audio_rate }),
                Err(e) => Err(e.shift(1)),
            },
            Opcode::CdcMessage => match read::<(PhysicalAddress, cdc::Message)>(bytes) {
                Ok((initiator, message)) => Ok(Message::CdcMessage { initiator, message }),
                Err(e) => Err(e.shift(1)),
            },
            Opcode::ReportFeatures => match read::<(
                Version,
                (AllDeviceTypes, (RcProfile, DeviceFeatures)),
            )>(bytes) {
                Ok((version, (device_types, (rc_profile, device_features)))) => Ok(
                    Message::ReportFeatures { version, device_types, rc_profile, device_features },
                ),
                Err(e) => Err(e.shift(1)),
            },
            Opcode::RequestCurrentLatency => match read::<PhysicalAddress>(bytes) {
                Ok(physical_address) => Ok(Message::RequestCurrentLatency { physical_address }),
                Err(e) => Err(e.shift(1)),
            },
            Opcode::ReportCurrentLatency => match read::<(
                PhysicalAddress,
                (Delay, (LatencyFlags, Option<Delay>)),
            )>(bytes) {
                Ok((physical_address, (video_latency, (flags, audio_output_delay)))) => Ok(
                    Message::ReportCurrentLatency {
                        physical_address,
                        video_latency,
                        flags,
                        audio_output_delay,
                    },
                ),
                Err(e) => Err(e.shift(1)),
            },
            Opcode::SetAudioVolumeLevel => match read::<AudioVolumeLevel>(bytes) {
                Ok(volume_level) => Ok(Message::SetAudioVolumeLevel { volume_level }),
                Err(e) => Err(e.shift(1)),
            },
            _ => Err(Error::InvalidData),
        }
    }

    proof fn operands_back_routing(self, rest: Seq<u8>)
        requires
            self is ActiveSource
                || self is InactiveSource
                || self is RoutingChange
                || self is RoutingInformation
                || self is SetStreamPath
                || self is RecordOn
                || self is RecordStatus,
            self.valid(),
            self.faithful(),
            self.delimited() || rest.len() == 0,
        ensures
            Self::of_operands(
                self.kind(),
                self.operands() + rest,
            ) == Ok::<Message, ErrorView>(self),
    {
        match self {
            Message::ActiveSource { address } => parse_wire(address, rest),
            Message::InactiveSource { address } => parse_wire(address, rest),
            Message::RoutingChange { original_address, new_address } => parse_wire(
                (original_address, new_address),
                rest,
            ),
            Message::RoutingInformation { address } => parse_wire(address, rest),
            Message::SetStreamPath { address } => parse_wire(address, rest),
            Message::RecordOn { source } => parse_wire(source, rest),
            Message::RecordStatus { status } => parse_wire(status, rest),
            _ => {},
        }
    }

    proof fn operands_back_timer(self, rest: Seq<u8>)
        requires
            self is ClearAnalogueTimer
                || self is ClearDigitalTimer
                || self is ClearExtTimer
                || self is SetAnalogueTimer
                || self is SetDigitalTimer
                || self is SetExtTimer
                || self is SetTimerProgramTitle
                || self is TimerClearedStatus
                || self is TimerStatus,
            self.valid(),
            self.faithful(),
            self.delimited() || rest.len() == 0,
        ensures
            Self::of_operands(
                self.kind(),
                self.operands() + rest,
            ) == Ok::<Message, ErrorView>(self),
    {
        match self {
            Message::ClearAnalogueTimer {
                day_of_month,
                month_of_year,
                start_time,
                duration,
                recording_sequence,
                service_id,
            } => parse_wire(
                (
                    day_of_month,
                    (month_of_year, (start_time, (duration, (recording_sequence, service_id)))),
                ),
                rest,
            ),
            Message::ClearDigitalTimer {
                day_of_month,
                month_of_year,
                start_time,
                duration,
                recording_sequence,
                service_id,
            } => parse_wire(
                (
                    day_of_month,
                    (month_of_year, (start_time, (duration, (recording_sequence, service_id)))),
                ),
                rest,
            ),
            Message::ClearExtTimer {
                day_of_month,
                month_of_year,
                start_time,
                duration,
                recording_sequence,
                external_source,
            } => parse_wire(
                (
                    day_of_month,
                    (
                        month_of_year,
                        (start_time, (duration, (recording_sequence, external_source))),
                    ),
                ),
                rest,
            ),
            Message::SetAnalogueTimer {
                day_of_month,
                month_of_year,
                start_time,
                duration,
                recording_sequence,
                service_id,
            } => parse_wire(
                (
                    day_of_month,
                    (month_of_year, (start_time, (duration, (recording_sequence, service_id)))),
                ),
                rest,
            ),
            Message::SetDigitalTimer {
                day_of_month,
                month_of_year,
                start_time,
                duration,
                recording_sequence,
                service_id,
            } => parse_wire(
                (
                    day_of_month,
                    (month_of_year, (start_time, (duration, (recording_sequence, service_id)))),
                ),
                rest,
            ),
            Message::SetExtTimer {
                day_of_month,
                month_of_year,
                start_time,
                duration,
                recording_sequence,
                external_source,
            } => parse_wire(
                (
                    day_of_month,
                    (
                        month_of_year,
                        (start_time, (duration, (recording_sequence, external_source))),
                    ),
                ),
                rest,
            ),
            Message::SetTimerProgramTitle { title } => parse_wire(title, rest),
            Message::TimerClearedStatus { status } => parse_wire(status, rest),
            Message::TimerStatus { status } => parse_wire(status, rest),
            _ => {},
        }
    }

    proof fn operands_back_deck(self, rest: Seq<u8>)
        requires
            self is CecVersion
                || self is ReportPhysicalAddr
                || self is SetMenuLanguage
                || self is DeckControl
                || self is DeckStatus
                || self is GiveDeckStatus
                || self is Play
                || self is GiveTunerDeviceStatus
                || self is SelectAnalogueService
                || self is SelectDigitalService
                || self is TunerDeviceStatus,
            self.valid(),
            self.faithful(),
            self.delimited() || rest.len() == 0,
        ensures
            Self::of_operands(
                self.kind(),
                self.operands() + rest,
            ) == Ok::<Message, ErrorView>(self),
    {
        match self {
            Message::CecVersion { version } => parse_wire(version, rest),
            Message::ReportPhysicalAddr { physical_address, device_type } => parse_wire(
                (physical_address, device_type),
                rest,
            ),
            Message::SetMenuLanguage { language } => parse_wire(language, rest),
            Message::DeckControl { mode } => parse_wire(mode, rest),
            Message::DeckStatus { info } => parse_wire(info, rest),
            Message::GiveDeckStatus { request } => parse_wire(request, rest),
            Message::Play { mode } => parse_wire(mode, rest),
            Message::GiveTunerDeviceStatus { request } => parse_wire(request, rest),
            Message::SelectAnalogueService { service_id } => parse_wire(service_id, rest),
            Message::SelectDigitalService { service_id } => parse_wire(service_id, rest),
            Message::TunerDeviceStatus { info } => parse_wire(info, rest),
            _ => {},
        }
    }

    proof fn operands_back_vendor(self, rest: Seq<u8>)
        requires
            self is DeviceVendorId
                || self is VendorCommand
                || self is VendorCommandWithId
                || self is VendorRemoteButtonDown
                || self is SetOsdString
                || self is SetOsdName
                || self is MenuRequest
                || self is MenuStatus
                || self is UserControlPressed
                || self is ReportPowerStatus,
            self.valid(),
            self.faithful(),
            self.delimited() || rest.len() == 0,
        ensures
            Self::of_operands(
                self.kind(),
                self.operands() + rest,
            ) == Ok::<Message, ErrorView>(self),
    {
        match self {
            Message::DeviceVendorId { vendor_id } => parse_wire(vendor_id, rest),
            Message::VendorCommand { command } => parse_wire(command, rest),
            Message::VendorCommandWithId { vendor_id, vendor_specific_data } => parse_wire(
                (vendor_id, vendor_specific_data),
                rest,
            ),
            Message::VendorRemoteButtonDown { rc_code } => parse_wire(rc_code, rest),
            Message::SetOsdString { display_control, osd_string } => parse_wire(
                (display_control, osd_string),
                rest,
            ),
            Message::SetOsdName { name } => parse_wire(name, rest),
            Message::MenuRequest { request_type } => parse_wire(request_type, rest),
            Message::MenuStatus { state } => parse_wire(state, rest),
            Message::UserControlPressed { ui_command } => parse_wire(ui_command, rest),
            Message::ReportPowerStatus { status } => parse_wire(status, rest),
            _ => {},
        }
    }

    proof fn operands_back_audio(self, rest: Seq<u8>)
        requires
            self is FeatureAbort
                || self is ReportAudioStatus
                || self is ReportShortAudioDescriptor
                || self is RequestShortAudioDescriptor
                || self is SetSystemAudioMode
                || self is SystemAudioModeRequest
                || self is SystemAudioModeStatus
                || self is SetAudioRate
                || self is CdcMessage
                || self is ReportFeatures
                || self is RequestCurrentLatency
                || self is ReportCurrentLatency
                || self is SetAudioVolumeLevel,
            self.valid(),
            self.faithful(),
            self.delimited() || rest.len() == 0,
        ensures
            Self::of_operands(
                self.kind(),
                self.operands() + rest,
            ) == Ok::<Message, ErrorView>(self),
    {
        match self {
            Message::FeatureAbort { opcode, abort_reason } => parse_wire(
                (opcode, abort_reason),
                rest,
            ),
            Message::ReportAudioStatus { status } => parse_wire(status, rest),
            Message::ReportShortAudioDescriptor { descriptors } => parse_wire(descriptors, rest),
            Message::RequestShortAudioDescriptor { descriptors } => parse_wire(descriptors, rest),
            Message::SetSystemAudioMode { status } => parse_wire(status, rest),
            Message::SystemAudioModeRequest { physical_address } => parse_wire(
                physical_address,
                rest,
            ),
            Message::SystemAudioModeStatus { status } => parse_wire(status, rest),
            Message::SetAudioRate { audio_rate } => parse_wire(audio_rate, rest),
            Message::CdcMessage { initiator, message } => parse_wire((initiator, message), rest),
            Message::ReportFeatures {
                version,
                device_types,
                rc_profile,
                device_features,
            } => parse_wire((version, (device_types, (rc_profile, device_features))), rest),
            Message::RequestCurrentLatency { physical_address } => parse_wire(
                physical_address,
                rest,
            ),
            Message::ReportCurrentLatency {
                physical_address,
                video_latency,
                flags,
                audio_output_delay,
            } => parse_wire((physical_address, (video_latency, (flags, audio_output_delay))), rest),
            Message::SetAudioVolumeLevel { volume_level } => parse_wire(volume_level, rest),
            _ => {},
        }
    }

    proof fn holds_all_routing(self)
        requires
            self is ActiveSource
                || self is InactiveSource
                || self is RoutingChange
                || self is RoutingInformation
                || self is SetStreamPath
                || self is RecordOn
                || self is RecordStatus,
            self.valid(),
        ensures
            self.faithful(),
    {
        reveal(whole);
        reveal(sound);
    }

    proof fn holds_all_timer(self)
        requires
            self is ClearAnalogueTimer
                || self is ClearDigitalTimer
                || self is ClearExtTimer
                || self is SetAnalogueTimer
                || self is SetDigitalTimer
                || self is SetExtTimer
                || self is SetTimerProgramTitle
                || self is TimerClearedStatus
                || self is TimerStatus,
            self.valid(),
        ensures
            self.faithful(),
    {
        reveal(whole);
        reveal(sound);
    }

    proof fn holds_all_deck(self)
        requires
            self is CecVersion
                || self is ReportPhysicalAddr
                || self is SetMenuLanguage
                || self is DeckControl
                || self is DeckStatus
                || self is GiveDeckStatus
                || self is Play
                || self is GiveTunerDeviceStatus
                || self is SelectAnalogueService
                || self is SelectDigitalService
                || self is TunerDeviceStatus,
            self.valid(),
        ensures
            self.faithful(),
    {
        reveal(whole);
        reveal(sound);
    }

    proof fn holds_all_vendor(self)
        requires
            self is DeviceVendorId
                || self is VendorCommand
                || self is VendorCommandWithId
                || self is VendorRemoteButtonDown
                || self is SetOsdString
                || self is SetOsdName
                || self is MenuRequest
                || self is MenuStatus
                || self is UserControlPressed
                || self is ReportPowerStatus,
            self.valid(),
        ensures
            self.faithful(),
    {
        reveal(whole);
        reveal(sound);
    }

    proof fn holds_all_audio(self)
        requires
            self is FeatureAbort
                || self is ReportAudioStatus
                || self is ReportShortAudioDescriptor
                || self is RequestShortAudioDescriptor
                || self is SetSystemAudioMode
                || self is SystemAudioModeRequest
                || self is SystemAudioModeStatus
                || self is SetAudioRate
                || self is CdcMessage
                || self is RequestCurrentLatency
                || self is ReportCurrentLatency
                || self is SetAudioVolumeLevel,
            self.valid(),
        ensures
            self.faithful(),
    {
        reveal(whole);
        reveal(sound);
        if let Message::CdcMessage { initiator: _, message } = self {
            message.holds_all();
        }
    }

    /// The bytes of a message hold all of it. Only a report of features may have parts, set by hand,
    /// that take more bits than are sent.
    pub proof fn holds_all(self)
        requires
            self.valid(),
            !(self is ReportFeatures),
        ensures
            self.faithful(),
    {
        match self {
            Message::ActiveSource { .. }
            | Message::InactiveSource { .. }
            | Message::RoutingChange { .. }
            | Message::RoutingInformation { .. }
            | Message::SetStreamPath { .. }
            | Message::RecordOn { .. }
            | Message::RecordStatus { .. } => self.holds_all_routing(),
            Message::ClearAnalogueTimer { .. }
            | Message::ClearDigitalTimer { .. }
            | Message::ClearExtTimer { .. }
            | Message::SetAnalogueTimer { .. }
            | Message::SetDigitalTimer { .. }
            | Message::SetExtTimer { .. }
            | Message::SetTimerProgramTitle { .. }
            | Message::TimerClearedStatus { .. }
            | Message::TimerStatus { .. } => self.holds_all_timer(),
            Message::CecVersion { .. }
            | Message::ReportPhysicalAddr { .. }
            | Message::SetMenuLanguage { .. }
            | Message::DeckControl { .. }
            | Message::DeckStatus { .. }
            | Message::GiveDeckStatus { .. }
            | Message::Play { .. }
            | Message::GiveTunerDeviceStatus { .. }
            | Message::SelectAnalogueService { .. }
            | Message::SelectDigitalService { .. }
            | Message::TunerDeviceStatus { .. } => self.holds_all_deck(),
            Message::DeviceVendorId { .. }
            | Message::VendorCommand { .. }
            | Message::VendorCommandWithId { .. }
            | Message::VendorRemoteButtonDown { .. }
            | Message::SetOsdString { .. }
            | Message::SetOsdName { .. }
            | Message::MenuRequest { .. }
            | Message::MenuStatus { .. }
            | Message::UserControlPressed { .. }
            | Message::ReportPowerStatus { .. } => self.holds_all_vendor(),
            Message::FeatureAbort { .. }
            | Message::ReportAudioStatus { .. }
            | Message::ReportShortAudioDescriptor { .. }
            | Message::RequestShortAudioDescriptor { .. }
            | Message::SetSystemAudioMode { .. }
            | Message::SystemAudioModeRequest { .. }
            | Message::SystemAudioModeStatus { .. }
            | Message::SetAudioRate { .. }
            | Message::CdcMessage { .. }
            | Message::RequestCurrentLatency { .. }
            | Message::ReportCurrentLatency { .. }
            | Message::SetAudioVolumeLevel { .. } => self.holds_all_audio(),
            _ => {},
        }
    }

    proof fn operands_back(self, rest: Seq<u8>)
        requires
            self.valid(),
            self.faithful(),
            self.delimited() || rest.len() == 0,
        ensures
            Self::of_operands(
                self.kind(),
                self.operands() + rest,
            ) == Ok::<Message, ErrorView>(self),
    {
        match self {
            Message::ActiveSource { .. }
            | Message::InactiveSource { .. }
            | Message::RoutingChange { .. }
            | Message::RoutingInformation { .. }
            | Message::SetStreamPath { .. }
            | Message::RecordOn { .. }
            | Message::RecordStatus { .. } => self.operands_back_routing(rest),
            Message::ClearAnalogueTimer { .. }
            | Message::ClearDigitalTimer { .. }
            | Message::ClearExtTimer { .. }
            | Message::SetAnalogueTimer { .. }
            | Message::SetDigitalTimer { .. }
            | Message::SetExtTimer { .. }
            | Message::SetTimerProgramTitle { .. }
            | Message::TimerClearedStatus { .. }
            | Message::TimerStatus { .. } => self.operands_back_timer(rest),
            Message::CecVersion { .. }
            | Message::ReportPhysicalAddr { .. }
            | Message::SetMenuLanguage { .. }
            | Message::DeckControl { .. }
            | Message::DeckStatus { .. }
            | Message::GiveDeckStatus { .. }
            | Message::Play { .. }
            | Message::GiveTunerDeviceStatus { .. }
            | Message::SelectAnalogueService { .. }
            | Message::SelectDigitalService { .. }
            | Message::TunerDeviceStatus { .. } => self.operands_back_deck(rest),
            Message::DeviceVendorId { .. }
            | Message::VendorCommand { .. }
            | Message::VendorCommandWithId { .. }
            | Message::VendorRemoteButtonDown { .. }
            | Message::SetOsdString { .. }
            | Message::SetOsdName { .. }
            | Message::MenuRequest { .. }
            | Message::MenuStatus { .. }
            | Message::UserControlPressed { .. }
            | Message::ReportPowerStatus { .. } => self.operands_back_vendor(rest),
            Message::FeatureAbort { .. }
            | Message::ReportAudioStatus { .. }
            | Message::ReportShortAudioDescriptor { .. }
            | Message::RequestShortAudioDescriptor { .. }
            | Message::SetSystemAudioMode { .. }
            | Message::SystemAudioModeRequest { .. }
            | Message::SystemAudioModeStatus { .. }
            | Message::SetAudioRate { .. }
            | Message::CdcMessage { .. }
            | Message::ReportFeatures { .. }
            | Message::RequestCurrentLatency { .. }
            | Message::ReportCurrentLatency { .. }
            | Message::SetAudioVolumeLevel { .. } => self.operands_back_audio(rest),
            _ => {},
        }
    }

    fn emit_operands(&self, buf: &mut Vec<u8>)
        ensures
            final(buf)@ == old(buf)@ + self.operands(),
            self.valid(),
    {
        match self {
            Message::ActiveSource { .. }
            | Message::InactiveSource { .. }
            | Message::RoutingChange { .. }
            | Message::RoutingInformation { .. }
            | Message::SetStreamPath { .. }
            | Message::RecordOn { .. }
            | Message::RecordStatus { .. } => self.emit_operands_routing(buf),
            Message::ClearAnalogueTimer { .. }
            | Message::ClearDigitalTimer { .. }
            | Message::ClearExtTimer { .. }
            | Message::SetAnalogueTimer { .. }
            | Message::SetDigitalTimer { .. }
            | Message::SetExtTimer { .. }
            | Message::SetTimerProgramTitle { .. }
            | Message::TimerClearedStatus { .. }
            | Message::TimerStatus { .. } => self.emit_operands_timer(buf),
            Message::CecVersion { .. }
            | Message::ReportPhysicalAddr { .. }
            | Message::SetMenuLanguage { .. }
            | Message::DeckControl { .. }
            | Message::DeckStatus { .. }
            | Message::GiveDeckStatus { .. }
            | Message::Play { .. }
            | Message::GiveTunerDeviceStatus { .. }
            | Message::SelectAnalogueService { .. }
            | Message::SelectDigitalService { .. }
            | Message::TunerDeviceStatus { .. } => self.emit_operands_deck(buf),
            Message::DeviceVendorId { .. }
            | Message::VendorCommand { .. }
            | Message::VendorCommandWithId { .. }
            | Message::VendorRemoteButtonDown { .. }
            | Message::SetOsdString { .. }
            | Message::SetOsdName { .. }
            | Message::MenuRequest { .. }
            | Message::MenuStatus { .. }
            | Message::UserControlPressed { .. }
            | Message::ReportPowerStatus { .. } => self.emit_operands_vendor(buf),
            Message::FeatureAbort { .. }
            | Message::ReportAudioStatus { .. }
            | Message::ReportShortAudioDescriptor { .. }
            | Message::RequestShortAudioDescriptor { .. }
            | Message::SetSystemAudioMode { .. }
            | Message::SystemAudioModeRequest { .. }
            | Message::SystemAudioModeStatus { .. }
            | Message::SetAudioRate { .. }
            | Message::CdcMessage { .. }
            | Message::ReportFeatures { .. }
            | Message::RequestCurrentLatency { .. }
            | Message::ReportCurrentLatency { .. }
            | Message::SetAudioVolumeLevel { .. } => self.emit_operands_audio(buf),
            _ => {},
        }
    }

    fn operands_width(&self) -> (n: usize)
        requires
            self.operands().len() < usize::MAX,
        ensures
            n == self.operands().len(),
    {
        match self {
            Message::ActiveSource { .. }
            | Message::InactiveSource { .. }
            | Message::RoutingChange { .. }
            | Message::RoutingInformation { .. }
            | Message::SetStreamPath { .. }
            | Message::RecordOn { .. }
            | Message::RecordStatus { .. } => self.operands_width_routing(),
            Message::ClearAnalogueTimer { .. }
            | Message::ClearDigitalTimer { .. }
            | Message::ClearExtTimer { .. }
            | Message::SetAnalogueTimer { .. }
            | Message::SetDigitalTimer { .. }
            | Message::SetExtTimer { .. }
            | Message::SetTimerProgramTitle { .. }
            | Message::TimerClearedStatus { .. }
            | Message::TimerStatus { .. } => self.operands_width_timer(),
            Message::CecVersion { .. }
            | Message::ReportPhysicalAddr { .. }
            | Message::SetMenuLanguage { .. }
            | Message::DeckControl { .. }
            | Message::DeckStatus { .. }
            | Message::GiveDeckStatus { .. }
            | Message::Play { .. }
            | Message::GiveTunerDeviceStatus { .. }
            | Message::SelectAnalogueService { .. }
            | Message::SelectDigitalService { .. }
            | Message::TunerDeviceStatus { .. } => self.operands_width_deck(),
            Message::DeviceVendorId { .. }
            | Message::VendorCommand { .. }
            | Message::VendorCommandWithId { .. }
            | Message::VendorRemoteButtonDown { .. }
            | Message::SetOsdString { .. }
            | Message::SetOsdName { .. }
            | Message::MenuRequest { .. }
            | Message::MenuStatus { .. }
            | Message::UserControlPressed { .. }
            | Message::ReportPowerStatus { .. } => self.operands_width_vendor(),
            Message::FeatureAbort { .. }
            | Message::ReportAudioStatus { .. }
            | Message::ReportShortAudioDescriptor { .. }
            | Message::RequestShortAudioDescriptor { .. }
            | Message::SetSystemAudioMode { .. }
            | Message::SystemAudioModeRequest { .. }
            | Message::SystemAudioModeStatus { .. }
            | Message::SetAudioRate { .. }
            | Message::CdcMessage { .. }
            | Message::ReportFeatures { .. }
            | Message::RequestCurrentLatency { .. }
            | Message::ReportCurrentLatency { .. }
            | Message::SetAudioVolumeLevel { .. } => self.operands_width_audio(),
            _ => 0,
        }
    }

    fn read_operands(kind: Opcode, bytes: &[u8]) -> (r: Result<Message, Error>)
        ensures
            outcome(r) == Self::of_operands(kind, bytes@),
            r matches Ok(m) ==> m.valid() && m.kind() == kind && m.operands().len() <= bytes@.len(),
    {
        match kind {
            Opcode::ActiveSource
            | Opcode::InactiveSource
            | Opcode::RoutingChange
            | Opcode::RoutingInformation
            | Opcode::SetStreamPath
            | Opcode::RecordOn
            | Opcode::RecordStatus => Message::read_operands_routing(kind, bytes),
            Opcode::ClearAnalogueTimer
            | Opcode::ClearDigitalTimer
            | Opcode::ClearExtTimer
            | Opcode::SetAnalogueTimer
            | Opcode::SetDigitalTimer
            | Opcode::SetExtTimer
            | Opcode::SetTimerProgramTitle
            | Opcode::TimerClearedStatus
            | Opcode::TimerStatus => Message::read_operands_timer(kind, bytes),
            Opcode::CecVersion
            | Opcode::ReportPhysicalAddr
            | Opcode::SetMenuLanguage
            | Opcode::DeckControl
            | Opcode::DeckStatus
            | Opcode::GiveDeckStatus
            | Opcode::Play
            | Opcode::GiveTunerDeviceStatus
            | Opcode::SelectAnalogueService
            | Opcode::SelectDigitalService
            | Opcode::TunerDeviceStatus => Message::read_operands_deck(kind, bytes),
            Opcode::DeviceVendorId
            | Opcode::VendorCommand
            | Opcode::VendorCommandWithId
            | Opcode::VendorRemoteButtonDown
            | Opcode::SetOsdString
            | Opcode::SetOsdName
            | Opcode::MenuRequest
            | Opcode::MenuStatus
            | Opcode::UserControlPressed
            | Opcode::ReportPowerStatus => Message::read_operands_vendor(kind, bytes),
            Opcode::FeatureAbort
            | Opcode::ReportAudioStatus
            | Opcode::ReportShortAudioDescriptor
            | Opcode::RequestShortAudioDescriptor
            | Opcode::SetSystemAudioMode
            | Opcode::SystemAudioModeRequest
            | Opcode::SystemAudioModeStatus
            | Opcode::SetAudioRate
            | Opcode::CdcMessage
            | Opcode::ReportFeatures
            | Opcode::RequestCurrentLatency
            | Opcode::ReportCurrentLatency
            | Opcode::SetAudioVolumeLevel => Message::read_operands_audio(kind, bytes),
            Opcode::ImageViewOn => Ok(Message::ImageViewOn),
            Opcode::TextViewOn => Ok(Message::TextViewOn),
            Opcode::RequestActiveSource => Ok(Message::RequestActiveSource),
            Opcode::Standby => Ok(Message::Standby),
            Opcode::RecordOff => Ok(Message::RecordOff),
            Opcode::RecordTvScreen => Ok(Message::RecordTvScreen),
            Opcode::GetCecVersion => Ok(Message::GetCecVersion),
            Opcode::GivePhysicalAddr => Ok(Message::GivePhysicalAddr),
            Opcode::GetMenuLanguage => Ok(Message::GetMenuLanguage),
            Opcode::TunerStepDecrement => Ok(Message::TunerStepDecrement),
            Opcode::TunerStepIncrement => Ok(Message::TunerStepIncrement),
            Opcode::GiveDeviceVendorId => Ok(Message::GiveDeviceVendorId),
            Opcode::VendorRemoteButtonUp => Ok(Message::VendorRemoteButtonUp),
            Opcode::GiveOsdName => Ok(Message::GiveOsdName),
            Opcode::UserControlReleased => Ok(Message::UserControlReleased),
            Opcode::GiveDevicePowerStatus => Ok(Message::GiveDevicePowerStatus),
            Opcode::Abort => Ok(Message::Abort),
            Opcode::GiveAudioStatus => Ok(Message::GiveAudioStatus),
            Opcode::GiveSystemAudioModeStatus => Ok(Message::GiveSystemAudioModeStatus),
            Opcode::InitiateArc => Ok(Message::InitiateArc),
            Opcode::ReportArcInitiated => Ok(Message::ReportArcInitiated),
            Opcode::ReportArcTerminated => Ok(Message::ReportArcTerminated),
            Opcode::RequestArcInitiation => Ok(Message::RequestArcInitiation),
            Opcode::RequestArcTermination => Ok(Message::RequestArcTermination),
            Opcode::TerminateArc => Ok(Message::TerminateArc),
            Opcode::GiveFeatures => Ok(Message::GiveFeatures),
        }
    }

    /// The kind of the message.
    pub fn opcode(&self) -> (r: Opcode)
        ensures
            r == self.kind(),
    {
        match self {
            Message::ActiveSource { .. } => Opcode::ActiveSource,
            Message::ImageViewOn => Opcode::ImageViewOn,
            Message::TextViewOn => Opcode::TextViewOn,
            Message::InactiveSource { .. } => Opcode::InactiveSource,
            Message::RequestActiveSource => Opcode::RequestActiveSource,
            Message::RoutingChange { .. } => Opcode::RoutingChange,
            Message::RoutingInformation { .. } => Opcode::RoutingInformation,
            Message::SetStreamPath { .. } => Opcode::SetStreamPath,
            Message::Standby => Opcode::Standby,
            Message::RecordOff => Opcode::RecordOff,
            Message::RecordOn { .. } => Opcode::RecordOn,
            Message::RecordStatus { .. } => Opcode::RecordStatus,
            Message::RecordTvScreen => Opcode::RecordTvScreen,
            Message::ClearAnalogueTimer { .. } => Opcode::ClearAnalogueTimer,
            Message::ClearDigitalTimer { .. } => Opcode::ClearDigitalTimer,
            Message::ClearExtTimer { .. } => Opcode::ClearExtTimer,
            Message::SetAnalogueTimer { .. } => Opcode::SetAnalogueTimer,
            Message::SetDigitalTimer { .. } => Opcode::SetDigitalTimer,
            Message::SetExtTimer { .. } => Opcode::SetExtTimer,
            Message::SetTimerProgramTitle { .. } => Opcode::SetTimerProgramTitle,
            Message::TimerClearedStatus { .. } => Opcode::TimerClearedStatus,
            Message::TimerStatus { .. } => Opcode::TimerStatus,
            Message::CecVersion { .. } => Opcode::CecVersion,
            Message::GetCecVersion => Opcode::GetCecVersion,
            Message::GivePhysicalAddr => Opcode::GivePhysicalAddr,
            Message::GetMenuLanguage => Opcode::GetMenuLanguage,
            Message::ReportPhysicalAddr { .. } => Opcode::ReportPhysicalAddr,
            Message::SetMenuLanguage { .. } => Opcode::SetMenuLanguage,
            Message::DeckControl { .. } => Opcode::DeckControl,
            Message::DeckStatus { .. } => Opcode::DeckStatus,
            Message::GiveDeckStatus { .. } => Opcode::GiveDeckStatus,
            Message::Play { .. } => Opcode::Play,
            Message::GiveTunerDeviceStatus { .. } => Opcode::GiveTunerDeviceStatus,
            Message::SelectAnalogueService { .. } => Opcode::SelectAnalogueService,
            Message::SelectDigitalService { .. } => Opcode::SelectDigitalService,
            Message::TunerDeviceStatus { .. } => Opcode::TunerDeviceStatus,
            Message::TunerStepDecrement => Opcode::TunerStepDecrement,
            Message::TunerStepIncrement => Opcode::TunerStepIncrement,
            Message::DeviceVendorId { .. } => Opcode::DeviceVendorId,
            Message::GiveDeviceVendorId => Opcode::GiveDeviceVendorId,
            Message::VendorCommand { .. } => Opcode::VendorCommand,
            Message::VendorCommandWithId { .. } => Opcode::VendorCommandWithId,
            Message::VendorRemoteButtonDown { .. } => Opcode::VendorRemoteButtonDown,
            Message::VendorRemoteButtonUp => Opcode::VendorRemoteButtonUp,
            Message::SetOsdString { .. } => Opcode::SetOsdString,
            Message::GiveOsdName => Opcode::GiveOsdName,
            Message::SetOsdName { .. } => Opcode::SetOsdName,
            Message::MenuRequest { .. } => Opcode::MenuRequest,
            Message::MenuStatus { .. } => Opcode::MenuStatus,
            Message::UserControlPressed { .. } => Opcode::UserControlPressed,
            Message::UserControlReleased => Opcode::UserControlReleased,
            Message::GiveDevicePowerStatus => Opcode::GiveDevicePowerStatus,
            Message::ReportPowerStatus { .. } => Opcode::ReportPowerStatus,
            Message::FeatureAbort { .. } => Opcode::FeatureAbort,
            Message::Abort => Opcode::Abort,
            Message::GiveAudioStatus => Opcode::GiveAudioStatus,
            Message::GiveSystemAudioModeStatus => Opcode::GiveSystemAudioModeStatus,
            Message::ReportAudioStatus { .. } => Opcode::ReportAudioStatus,
            Message::ReportShortAudioDescriptor { .. } => Opcode::ReportShortAudioDescriptor,
            Message::RequestShortAudioDescriptor { .. } => Opcode::RequestShortAudioDescriptor,
            Message::SetSystemAudioMode { .. } => Opcode::SetSystemAudioMode,
            Message::SystemAudioModeRequest { .. } => Opcode::SystemAudioModeRequest,
            Message::SystemAudioModeStatus { .. } => Opcode::SystemAudioModeStatus,
            Message::SetAudioRate { .. } => Opcode::SetAudioRate,
            Message::InitiateArc => Opcode::InitiateArc,
            Message::ReportArcInitiated => Opcode::ReportArcInitiated,
            Message::ReportArcTerminated => Opcode::ReportArcTerminated,
            Message::RequestArcInitiation => Opcode::RequestArcInitiation,
            Message::RequestArcTermination => Opcode::RequestArcTermination,
            Message::TerminateArc => Opcode::TerminateArc,
            Message::CdcMessage { .. } => Opcode::CdcMessage,
            Message::ReportFeatures { .. } => Opcode::ReportFeatures,
            Message::GiveFeatures => Opcode::GiveFeatures,
            Message::RequestCurrentLatency { .. } => Opcode::RequestCurrentLatency,
            Message::ReportCurrentLatency { .. } => Opcode::ReportCurrentLatency,
            Message::SetAudioVolumeLevel { .. } => Opcode::SetAudioVolumeLevel,
        }
    }
}

impl OperandEncodable for Message {
    open spec fn valid(&self) -> bool {
        match self {
            Message::ActiveSource { address } => sound(*address),
            Message::InactiveSource { address } => sound(*address),
            Message::RoutingChange { original_address, new_address } => sound(
                (*original_address, *new_address),
            ),
            Message::RoutingInformation { address } => sound(*address),
            Message::SetStreamPath { address } => sound(*address),
            Message::RecordOn { source } => sound(*source),
            Message::RecordStatus { status } => sound(*status),
            Message::ClearAnalogueTimer {
                day_of_month,
                month_of_year,
                start_time,
                duration,
                recording_sequence,
                service_id,
            } => sound(
                (
                    *day_of_month,
                    (
                        *month_of_year,
                        (*start_time, (*duration, (*recording_sequence, *service_id))),
                    ),
                ),
            ),
            Message::ClearDigitalTimer {
                day_of_month,
                month_of_year,
                start_time,
                duration,
                recording_sequence,
                service_id,
            } => sound(
                (
                    *day_of_month,
                    (
                        *month_of_year,
                        (*start_time, (*duration, (*recording_sequence, *service_id))),
                    ),
                ),
            ),
            Message::ClearExtTimer {
                day_of_month,
                month_of_year,
                start_time,
                duration,
                recording_sequence,
                external_source,
            } => sound(
                (
                    *day_of_month,
                    (
                        *month_of_year,
                        (*start_time, (*duration, (*recording_sequence, *external_source))),
                    ),
                ),
            ),
            Message::SetAnalogueTimer {
                day_of_month,
                month_of_year,
                start_time,
                duration,
                recording_sequence,
                service_id,
            } => sound(
                (
                    *day_of_month,
                    (
                        *month_of_year,
                        (*start_time, (*duration, (*recording_sequence, *service_id))),
                    ),
                ),
            ),
            Message::SetDigitalTimer {
                day_of_month,
                month_of_year,
                start_time,
                duration,
                recording_sequence,
                service_id,
            } => sound(
                (
                    *day_of_month,
                    (
                        *month_of_year,
                        (*start_time, (*duration, (*recording_sequence, *service_id))),
                    ),
                ),
            ),
            Message::SetExtTimer {
                day_of_month,
                month_of_year,
                start_time,
                duration,
                recording_sequence,
                external_source,
            } => sound(
                (
                    *day_of_month,
                    (
                        *month_of_year,
                        (*start_time, (*duration, (*recording_sequence, *external_source))),
                    ),
                ),
            ),
            Message::SetTimerProgramTitle { title } => sound(*title),
            Message::TimerClearedStatus { status } => sound(*status),
            Message::TimerStatus { status } => sound(*status),
            Message::CecVersion { version } => sound(*version),
            Message::ReportPhysicalAddr { physical_address, device_type } => sound(
                (*physical_address, *device_type),
            ),
            Message::SetMenuLanguage { language } => sound(*language),
            Message::DeckControl { mode } => sound(*mode),
            Message::DeckStatus { info } => sound(*info),
            Message::GiveDeckStatus { request } => sound(*request),
            Message::Play { mode } => sound(*mode),
            Message::GiveTunerDeviceStatus { request } => sound(*request),
            Message::SelectAnalogueService { service_id } => sound(*service_id),
            Message::SelectDigitalService { service_id } => sound(*service_id),
            Message::TunerDeviceStatus { info } => sound(*info),
            Message::DeviceVendorId { vendor_id } => sound(*vendor_id),
            Message::VendorCommand { command } => sound(*command),
            Message::VendorCommandWithId { vendor_id, vendor_specific_data } => sound(
                (*vendor_id, *vendor_specific_data),
            ),
            Message::VendorRemoteButtonDown { rc_code } => sound(*rc_code),
            Message::SetOsdString { display_control, osd_string } => sound(
                (*display_control, *osd_string),
            ),
            Message::SetOsdName { name } => sound(*name),
            Message::MenuRequest { request_type } => sound(*request_type),
            Message::MenuStatus { state } => sound(*state),
            Message::UserControlPressed { ui_command } => sound(*ui_command),
            Message::ReportPowerStatus { status } => sound(*status),
            Message::FeatureAbort { opcode, abort_reason } => sound((*opcode, *abort_reason)),
            Message::ReportAudioStatus { status } => sound(*status),
            Message::ReportShortAudioDescriptor { descriptors } => sound(*descriptors),
            Message::RequestShortAudioDescriptor { descriptors } => sound(*descriptors),
            Message::SetSystemAudioMode { status } => sound(*status),
            Message::SystemAudioModeRequest { physical_address } => sound(*physical_address),
            Message::SystemAudioModeStatus { status } => sound(*status),
            Message::SetAudioRate { audio_rate } => sound(*audio_rate),
            Message::CdcMessage { initiator, message } => sound((*initiator, *message)),
            Message::ReportFeatures { version, device_types, rc_profile, device_features } => sound(
                (*version, (*device_types, (*rc_profile, *device_features))),
            ),
            Message::RequestCurrentLatency { physical_address } => sound(*physical_address),
            Message::ReportCurrentLatency {
                physical_address,
                video_latency,
                flags,
                audio_output_delay,
            } => sound((*physical_address, (*video_latency, (*flags, *audio_output_delay)))),
            Message::SetAudioVolumeLevel { volume_level } => sound(*volume_level),
            _ => true,
        }
    }

    open spec fn encoded(&self) -> Seq<u8> {
        seq![self.kind().code()] + self.operands()
    }

    open spec fn lengths() -> RangeView {
        RangeView::AtLeast(1)
    }

    open spec fn decoded(bytes: Seq<u8>) -> Result<Self, ErrorView> {
        if bytes.len() < 1 {
            Err(too_short(1, bytes))
        } else {
            match decoded_code::<Opcode>(bytes[0]) {
                Err(e) => Err(e),
                Ok(kind) => Message::of_operands(kind, bytes.skip(1)),
            }
        }
    }

    open spec fn delimited(&self) -> bool {
        match self {
            Message::ActiveSource { address } => ends(*address),
            Message::InactiveSource { address } => ends(*address),
            Message::RoutingChange { original_address, new_address } => ends(
                (*original_address, *new_address),
            ),
            Message::RoutingInformation { address } => ends(*address),
            Message::SetStreamPath { address } => ends(*address),
            Message::RecordOn { source } => ends(*source),
            Message::RecordStatus { status } => ends(*status),
            Message::ClearAnalogueTimer {
                day_of_month,
                month_of_year,
                start_time,
                duration,
                recording_sequence,
                service_id,
            } => ends(
                (
                    *day_of_month,
                    (
                        *month_of_year,
                        (*start_time, (*duration, (*recording_sequence, *service_id))),
                    ),
                ),
            ),
            Message::ClearDigitalTimer {
                day_of_month,
                month_of_year,
                start_time,
                duration,
                recording_sequence,
                service_id,
            } => ends(
                (
                    *day_of_month,
                    (
                        *month_of_year,
                        (*start_time, (*duration, (*recording_sequence, *service_id))),
                    ),
                ),
            ),
            Message::ClearExtTimer {
                day_of_month,
                month_of_year,
                start_time,
                duration,
                recording_sequence,
                external_source,
            } => ends(
                (
                    *day_of_month,
                    (
                        *month_of_year,
                        (*start_time, (*duration, (*recording_sequence, *external_source))),
                    ),
                ),
            ),
            Message::SetAnalogueTimer {
                day_of_month,
                month_of_year,
                start_time,
                duration,
                recording_sequence,
                service_id,
            } => ends(
                (
                    *day_of_month,
                    (
                        *month_of_year,
                        (*start_time, (*duration, (*recording_sequence, *service_id))),
                    ),
                ),
            ),
            Message::SetDigitalTimer {
                day_of_month,
                month_of_year,
                start_time,
                duration,
                recording_sequence,
                service_id,
            } => ends(
                (
                    *day_of_month,
                    (
                        *month_of_year,
                        (*start_time, (*duration, (*recording_sequence, *service_id))),
                    ),
                ),
            ),
            Message::SetExtTimer {
                day_of_month,
                month_of_year,
                start_time,
                duration,
                recording_sequence,
                external_source,
            } => ends(
                (
                    *day_of_month,
                    (
                        *month_of_year,
                        (*start_time, (*duration, (*recording_sequence, *external_source))),
                    ),
                ),
            ),
            Message::SetTimerProgramTitle { title } => ends(*title),
            Message::TimerClearedStatus { status } => ends(*status),
            Message::TimerStatus { status } => ends(*status),
            Message::CecVersion { version } => ends(*version),
            Message::ReportPhysicalAddr { physical_address, device_type } => ends(
                (*physical_address, *device_type),
            ),
            Message::SetMenuLanguage { language } => ends(*language),
            Message::DeckControl { mode } => ends(*mode),
            Message::DeckStatus { info } => ends(*info),
            Message::GiveDeckStatus { request } => ends(*request),
            Message::Play { mode } => ends(*mode),
            Message::GiveTunerDeviceStatus { request } => ends(*request),
            Message::SelectAnalogueService { service_id } => ends(*service_id),
            Message::SelectDigitalService { service_id } => ends(*service_id),
            Message::TunerDeviceStatus { info } => ends(*info),
            Message::DeviceVendorId { vendor_id } => ends(*vendor_id),
            Message::VendorCommand { command } => ends(*command),
            Message::VendorCommandWithId { vendor_id, vendor_specific_data } => ends(
                (*vendor_id, *vendor_specific_data),
            ),
            Message::VendorRemoteButtonDown { rc_code } => ends(*rc_code),
            Message::SetOsdString { display_control, osd_string } => ends(
                (*display_control, *osd_string),
            ),
            Message::SetOsdName { name } => ends(*name),
            Message::MenuRequest { request_type } => ends(*request_type),
            Message::MenuStatus { state } => ends(*state),
            Message::UserControlPressed { ui_command } => ends(*ui_command),
            Message::ReportPowerStatus { status } => ends(*status),
            Message::FeatureAbort { opcode, abort_reason } => ends((*opcode, *abort_reason)),
            Message::ReportAudioStatus { status } => ends(*status),
            Message::ReportShortAudioDescriptor { descriptors } => ends(*descriptors),
            Message::RequestShortAudioDescriptor { descriptors } => ends(*descriptors),
            Message::SetSystemAudioMode { status } => ends(*status),
            Message::SystemAudioModeRequest { physical_address } => ends(*physical_address),
            Message::SystemAudioModeStatus { status } => ends(*status),
            Message::SetAudioRate { audio_rate } => ends(*audio_rate),
            Message::CdcMessage { initiator, message } => ends((*initiator, *message)),
            Message::ReportFeatures { version, device_types, rc_profile, device_features } => ends(
                (*version, (*device_types, (*rc_profile, *device_features))),
            ),
            Message::RequestCurrentLatency { physical_address } => ends(*physical_address),
            Message::ReportCurrentLatency {
                physical_address,
                video_latency,
                flags,
                audio_output_delay,
            } => ends((*physical_address, (*video_latency, (*flags, *audio_output_delay)))),
            Message::SetAudioVolumeLevel { volume_level } => ends(*volume_level),
            _ => true,
        }
    }

    open spec fn faithful(&self) -> bool {
        match self {
            Message::ActiveSource { address } => whole(*address),
            Message::InactiveSource { address } => whole(*address),
            Message::RoutingChange { original_address, new_address } => whole(
                (*original_address, *new_address),
            ),
            Message::RoutingInformation { address } => whole(*address),
            Message::SetStreamPath { address } => whole(*address),
            Message::RecordOn { source } => whole(*source),
            Message::RecordStatus { status } => whole(*status),
            Message::ClearAnalogueTimer {
                day_of_month,
                month_of_year,
                start_time,
                duration,
                recording_sequence,
                service_id,
            } => whole(
                (
                    *day_of_month,
                    (
                        *month_of_year,
                        (*start_time, (*duration, (*recording_sequence, *service_id))),
                    ),
                ),
            ),
            Message::ClearDigitalTimer {
                day_of_month,
                month_of_year,
                start_time,
                duration,
                recording_sequence,
                service_id,
            } => whole(
                (
                    *day_of_month,
                    (
                        *month_of_year,
                        (*start_time, (*duration, (*recording_sequence, *service_id))),
                    ),
                ),
            ),
            Message::ClearExtTimer {
                day_of_month,
                month_of_year,
                start_time,
                duration,
                recording_sequence,
                external_source,
            } => whole(
                (
                    *day_of_month,
                    (
                        *month_of_year,
                        (*start_time, (*duration, (*recording_sequence, *external_source))),
                    ),
                ),
            ),
            Message::SetAnalogueTimer {
                day_of_month,
                month_of_year,
                start_time,
                duration,
                recording_sequence,
                service_id,
            } => whole(
                (
                    *day_of_month,
                    (
                        *month_of_year,
                        (*start_time, (*duration, (*recording_sequence, *service_id))),
                    ),
                ),
            ),
            Message::SetDigitalTimer {
                day_of_month,
                month_of_year,
                start_time,
                duration,
                recording_sequence,
                service_id,
            } => whole(
                (
                    *day_of_month,
                    (
                        *month_of_year,
                        (*start_time, (*duration, (*recording_sequence, *service_id))),
                    ),
                ),
            ),
            Message::SetExtTimer {
                day_of_month,
                month_of_year,
                start_time,
                duration,
                recording_sequence,
                external_source,
            } => whole(
                (
                    *day_of_month,
                    (
                        *month_of_year,
                        (*start_time, (*duration, (*recording_sequence, *external_source))),
                    ),
                ),
            ),
            Message::SetTimerProgramTitle { title } => whole(*title),
            Message::TimerClearedStatus { status } => whole(*status),
            Message::TimerStatus { status } => whole(*status),
            Message::CecVersion { version } => whole(*version),
            Message::ReportPhysicalAddr { physical_address, device_type } => whole(
                (*physical_address, *device_type),
            ),
            Message::SetMenuLanguage { language } => whole(*language),
            Message::DeckControl { mode } => whole(*mode),
            Message::DeckStatus { info } => whole(*info),
            Message::GiveDeckStatus { request } => whole(*request),
            Message::Play { mode } => whole(*mode),
            Message::GiveTunerDeviceStatus { request } => whole(*request),
            Message::SelectAnalogueService { service_id } => whole(*service_id),
            Message::SelectDigitalService { service_id } => whole(*service_id),
            Message::TunerDeviceStatus { info } => whole(*info),
            Message::DeviceVendorId { vendor_id } => whole(*vendor_id),
            Message::VendorCommand { command } => whole(*command),
            Message::VendorCommandWithId { vendor_id, vendor_specific_data } => whole(
                (*vendor_id, *vendor_specific_data),
            ),
            Message::VendorRemoteButtonDown { rc_code } => whole(*rc_code),
            Message::SetOsdString { display_control, osd_string } => whole(
                (*display_control, *osd_string),
            ),
            Message::SetOsdName { name } => whole(*name),
            Message::MenuRequest { request_type } => whole(*request_type),
            Message::MenuStatus { state } => whole(*state),
            Message::UserControlPressed { ui_command } => whole(*ui_command),
            Message::ReportPowerStatus { status } => whole(*status),
            Message::FeatureAbort { opcode, abort_reason } => whole((*opcode, *abort_reason)),
            Message::ReportAudioStatus { status } => whole(*status),
            Message::ReportShortAudioDescriptor { descriptors } => whole(*descriptors),
            Message::RequestShortAudioDescriptor { descriptors } => whole(*descriptors),
            Message::SetSystemAudioMode { status } => whole(*status),
            Message::SystemAudioModeRequest { physical_address } => whole(*physical_address),
            Message::SystemAudioModeStatus { status } => whole(*status),
            Message::SetAudioRate { audio_rate } => whole(*audio_rate),
            Message::CdcMessage { initiator, message } => whole((*initiator, *message)),
            Message::ReportFeatures { version, device_types, rc_profile, device_features } => whole(
                (*version, (*device_types, (*rc_profile, *device_features))),
            ),
            Message::RequestCurrentLatency { physical_address } => whole(*physical_address),
            Message::ReportCurrentLatency {
                physical_address,
                video_latency,
                flags,
                audio_output_delay,
            } => whole((*physical_address, (*video_latency, (*flags, *audio_output_delay)))),
            Message::SetAudioVolumeLevel { volume_level } => whole(*volume_level),
            _ => true,
        }
    }

    fn to_bytes(&self, buf: &mut Vec<u8>) {
        buf.push(self.opcode().to_primitive());
        self.emit_operands(buf);
    }

    fn len(&self) -> (n: usize) {
        1 + self.operands_width()
    }

    fn expected_len() -> (r: Range) {
        Range::AtLeast(1)
    }

    fn try_from_bytes(bytes: &[u8]) -> (r: Result<Self, Error>) {
        match need(1, bytes) {
            Err(e) => return Err(e),
            Ok(()) => {},
        }
        match Opcode::try_from_primitive(bytes[0]) {
            Err(e) => Err(e),
            Ok(kind) => Message::read_operands(kind, tail(bytes, 1)),
        }
    }

    proof fn read_back(&self, rest: Seq<u8>) {
        let bytes = self.encoded() + rest;
        assert(bytes[0] == self.kind().code());
        assert(bytes.skip(1) =~= self.operands() + rest);
        Opcode::one_to_one();
        self.operands_back(rest);
    }
}

impl Opcode {
    /// Whether messages of the kind go to one device, to all of them, or to either.
    pub open spec fn addressing(self) -> AddressingType {
        match self {
            Opcode::ActiveSource
            | Opcode::RequestActiveSource
            | Opcode::RoutingChange
            | Opcode::RoutingInformation
            | Opcode::SetStreamPath
            | Opcode::ReportPhysicalAddr
            | Opcode::SetMenuLanguage
            | Opcode::DeviceVendorId
            | Opcode::CdcMessage
            | Opcode::ReportFeatures
            | Opcode::RequestCurrentLatency
            | Opcode::ReportCurrentLatency => AddressingType::Broadcast,
            Opcode::Standby
            | Opcode::VendorCommandWithId
            | Opcode::VendorRemoteButtonDown
            | Opcode::VendorRemoteButtonUp
            | Opcode::ReportPowerStatus
            | Opcode::SetSystemAudioMode => AddressingType::Either,
            _ => AddressingType::Direct,
        }
    }

    /// Whether messages of the kind go to one device, to all of them, or to either.
    #[must_use]
    pub fn addressing_type(&self) -> (r: AddressingType)
        ensures
            r == self.addressing(),
    {
        match self {
            Opcode::ActiveSource
            | Opcode::RequestActiveSource
            | Opcode::RoutingChange
            | Opcode::RoutingInformation
            | Opcode::SetStreamPath
            | Opcode::ReportPhysicalAddr
            | Opcode::SetMenuLanguage
            | Opcode::DeviceVendorId
            | Opcode::CdcMessage
            | Opcode::ReportFeatures
            | Opcode::RequestCurrentLatency
            | Opcode::ReportCurrentLatency => AddressingType::Broadcast,
            Opcode::Standby
            | Opcode::VendorCommandWithId
            | Opcode::VendorRemoteButtonDown
            | Opcode::VendorRemoteButtonUp
            | Opcode::ReportPowerStatus
            | Opcode::SetSystemAudioMode => AddressingType::Either,
            _ => AddressingType::Direct,
        }
    }

    /// Report whether messages of the kind can be addressed to a single device.
    #[must_use]
    pub fn can_directly_address(&self) -> (r: bool)
        ensures
            r == (self.addressing() != AddressingType::Broadcast),
    {
        matches!(self.addressing_type(), AddressingType::Direct | AddressingType::Either)
    }

    /// Report whether messages of the kind can be sent to all devices.
    #[must_use]
    pub fn can_broadcast(&self) -> (r: bool)
        ensures
            r == (self.addressing() != AddressingType::Direct),
    {
        matches!(self.addressing_type(), AddressingType::Broadcast | AddressingType::Either)
    }
}

impl Message {
    /// Report whether or not this `Message` can be directly
    /// addressed to a specific logical address.
    #[must_use]
    pub fn can_directly_address(&self) -> (r: bool)
        ensures
            r == (self.kind().addressing() != AddressingType::Broadcast),
    {
        self.opcode().can_directly_address()
    }

    /// Report whether or not this `Message` can be
    /// broadcast to all logical addresses.
    #[must_use]
    pub fn can_broadcast(&self) -> (r: bool)
        ensures
            r == (self.kind().addressing() != AddressingType::Direct),
    {
        self.opcode().can_broadcast()
    }

    /// Get the [`AddressingType`] that reports whether this `Message` can be
    /// addressed directly to a specific logical address, broadcast to all
    /// logical addresses, or both.
    #[must_use]
    pub fn addressing_type(&self) -> (r: AddressingType)
        ensures
            r == self.kind().addressing(),
    {
        self.opcode().addressing_type()
    }

    /// The bytes of the message, from the opcode on.
    #[must_use]
    pub fn to_bytes(&self) -> (bytes: Vec<u8>)
        ensures
            bytes@ == self.encoded(),
            self.valid(),
    {
        let mut bytes: Vec<u8> = Vec::new();
        OperandEncodable::to_bytes(self, &mut bytes);
        bytes
    }

    /// The message in some bytes, from the opcode on.
    pub fn try_from_bytes(bytes: &[u8]) -> (r: Result<Message, Error>)
        ensures
            outcome(r) == Self::decoded(bytes@),
            r matches Ok(m) ==> m.valid() && m.encoded().len() <= bytes@.len(),
    {
        <Message as OperandEncodable>::try_from_bytes(bytes)
    }
}

/// Decoding the bytes of a message gives back the message. Of reports of features this holds where
/// every part fits in the bits that are sent.
pub proof fn decoding_inverts_encoding(m: Message)
    requires
        m.valid(),
        m is ReportFeatures ==> m.faithful(),
    ensures
        Message::decoded(m.encoded()) == Ok::<Message, ErrorView>(m),
{
    if !(m is ReportFeatures) {
        m.holds_all();
    }
    m.read_back(Seq::empty());
    assert(m.encoded() + Seq::<u8>::empty() =~= m.encoded());
}

/// Bytes behind a message that ends by itself make no difference to a decoder.
pub proof fn trailing_bytes_are_ignored(m: Message, rest: Seq<u8>)
    requires
        m.valid(),
        m is ReportFeatures ==> m.faithful(),
        m.delimited(),
    ensures
        Message::decoded(m.encoded() + rest) == Message::decoded(m.encoded()),
{
    decoding_inverts_encoding(m);
    if !(m is ReportFeatures) {
        m.holds_all();
    }
    m.read_back(rest);
}

/// Two messages with the same bytes are the same message.
pub proof fn encoding_is_injective(a: Message, b: Message)
    requires
        a.valid(),
        b.valid(),
        a is ReportFeatures ==> a.faithful(),
        b is ReportFeatures ==> b.faithful(),
        a.encoded() == b.encoded(),
    ensures
        a == b,
{
    decoding_inverts_encoding(a);
    decoding_inverts_encoding(b);
}

} // verus!
