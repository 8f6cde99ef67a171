//! The numbers by which kinds of messages and values are known on the bus, and the order of what a
//! message consists of.

use vstd::prelude::*;

use crate::address::{FollowerMode, InitiatorMode, LogicalAddress, LogicalAddressType};
use crate::cdc::{self, HecSetState};
use crate::codec::{wire, Coded, OperandEncodable};
use crate::message::{Message, Opcode};
use crate::operand::{
    AbortReason, AnalogueBroadcastType, AudioFormatId, AudioOutputCompensated, AudioRate,
    BroadcastSystem, DayOfMonth, DeckControlMode, DeckInfo, DigitalServiceBroadcastSystem,
    DisplayControl, MediaInfo, MenuRequestType, MenuState, MonthOfYear, PlayMode, PowerStatus,
    PrimaryDeviceType, RcProfileId, RecordSourceType, RecordStatusInfo, StatusRequest,
    TimerClearedStatusData, TunerDisplayInfo, UiBroadcastType, UiCommand,
    UiSoundPresentationControl, Version,
};

verus! {

/// The numbers of the logical addresses.
pub proof fn logical_address_numbers()
    ensures
        LogicalAddress::Tv.code() == 0x00,
        LogicalAddress::RecordingDevice1.code() == 0x01,
        LogicalAddress::RecordingDevice2.code() == 0x02,
        LogicalAddress::Tuner1.code() == 0x03,
        LogicalAddress::PlaybackDevice1.code() == 0x04,
        LogicalAddress::AudioSystem.code() == 0x05,
        LogicalAddress::Tuner2.code() == 0x06,
        LogicalAddress::Tuner3.code() == 0x07,
        LogicalAddress::PlaybackDevice2.code() == 0x08,
        LogicalAddress::RecordingDevice3.code() == 0x09,
        LogicalAddress::Tuner4.code() == 0x0a,
        LogicalAddress::PlaybackDevice3.code() == 0x0b,
        LogicalAddress::Backup1.code() == 0x0c,
        LogicalAddress::Backup2.code() == 0x0d,
        LogicalAddress::Specific.code() == 0x0e,
        LogicalAddress::Unregistered.code() == 0x0f,
{
}

/// The numbers of the kinds of logical addresses.
pub proof fn logical_address_type_numbers()
    ensures
        LogicalAddressType::Tv.code() == 0x00,
        LogicalAddressType::Record.code() == 0x01,
        LogicalAddressType::Tuner.code() == 0x02,
        LogicalAddressType::Playback.code() == 0x03,
        LogicalAddressType::AudioSystem.code() == 0x04,
        LogicalAddressType::Specific.code() == 0x05,
        LogicalAddressType::Unregistered.code() == 0x06,
{
}

/// The numbers of the modes of initiators.
pub proof fn initiator_mode_numbers()
    ensures
        InitiatorMode::Disabled.code() == 0x00,
        InitiatorMode::Enabled.code() == 0x01,
        InitiatorMode::Exclusive.code() == 0x02,
{
}

/// The numbers of the modes of followers.
pub proof fn follower_mode_numbers()
    ensures
        FollowerMode::Disabled.code() == 0x00,
        FollowerMode::Enabled.code() == 0x01,
        FollowerMode::Exclusive.code() == 0x02,
        FollowerMode::ExclusivePassthru.code() == 0x03,
        FollowerMode::MonitorPin.code() == 0x0d,
        FollowerMode::Monitor.code() == 0x0e,
        FollowerMode::MonitorAll.code() == 0x0f,
{
}

/// The numbers of the requests to change an Ethernet channel.
pub proof fn hec_set_state_numbers()
    ensures
        HecSetState::Deactivate.code() == 0x00,
        HecSetState::Activate.code() == 0x01,
{
}

/// The numbers of the kinds of messages about channels besides the bus.
pub proof fn channel_opcodes()
    ensures
        cdc::Opcode::HecInquireState.code() == 0x00,
        cdc::Opcode::HecReportState.code() == 0x01,
        cdc::Opcode::HecSetStateAdjacent.code() == 0x02,
        cdc::Opcode::HecSetState.code() == 0x03,
        cdc::Opcode::HecRequestDeactivation.code() == 0x04,
        cdc::Opcode::HecNotifyAlive.code() == 0x05,
        cdc::Opcode::HecDiscover.code() == 0x06,
        cdc::Opcode::HpdSetState.code() == 0x10,
        cdc::Opcode::HpdReportState.code() == 0x11,
{
}

/// The numbers of the kinds of messages.
pub proof fn opcodes()
    ensures
        Opcode::ActiveSource.code() == 0x82,
        Opcode::ImageViewOn.code() == 0x04,
        Opcode::TextViewOn.code() == 0x0d,
        Opcode::InactiveSource.code() == 0x9d,
        Opcode::RequestActiveSource.code() == 0x85,
        Opcode::RoutingChange.code() == 0x80,
        Opcode::RoutingInformation.code() == 0x81,
        Opcode::SetStreamPath.code() == 0x86,
        Opcode::Standby.code() == 0x36,
        Opcode::RecordOff.code() == 0x0b,
        Opcode::RecordOn.code() == 0x09,
        Opcode::RecordStatus.code() == 0x0a,
        Opcode::RecordTvScreen.code() == 0x0f,
        Opcode::ClearAnalogueTimer.code() == 0x33,
        Opcode::ClearDigitalTimer.code() == 0x99,
        Opcode::ClearExtTimer.code() == 0xa1,
        Opcode::SetAnalogueTimer.code() == 0x34,
        Opcode::SetDigitalTimer.code() == 0x97,
        Opcode::SetExtTimer.code() == 0xa2,
        Opcode::SetTimerProgramTitle.code() == 0x67,
        Opcode::TimerClearedStatus.code() == 0x43,
        Opcode::TimerStatus.code() == 0x35,
        Opcode::CecVersion.code() == 0x9e,
        Opcode::GetCecVersion.code() == 0x9f,
        Opcode::GivePhysicalAddr.code() == 0x83,
        Opcode::GetMenuLanguage.code() == 0x91,
        Opcode::ReportPhysicalAddr.code() == 0x84,
        Opcode::SetMenuLanguage.code() == 0x32,
        Opcode::DeckControl.code() == 0x42,
        Opcode::DeckStatus.code() == 0x1b,
        Opcode::GiveDeckStatus.code() == 0x1a,
        Opcode::Play.code() == 0x41,
        Opcode::GiveTunerDeviceStatus.code() == 0x08,
        Opcode::SelectAnalogueService.code() == 0x92,
        Opcode::SelectDigitalService.code() == 0x93,
        Opcode::TunerDeviceStatus.code() == 0x07,
        Opcode::TunerStepDecrement.code() == 0x06,
        Opcode::TunerStepIncrement.code() == 0x05,
        Opcode::DeviceVendorId.code() == 0x87,
        Opcode::GiveDeviceVendorId.code() == 0x8c,
        Opcode::VendorCommand.code() == 0x89,
        Opcode::VendorCommandWithId.code() == 0xa0,
        Opcode::VendorRemoteButtonDown.code() == 0x8a,
        Opcode::VendorRemoteButtonUp.code() == 0x8b,
        Opcode::SetOsdString.code() == 0x64,
        Opcode::GiveOsdName.code() == 0x46,
        Opcode::SetOsdName.code() == 0x47,
        Opcode::MenuRequest.code() == 0x8d,
        Opcode::MenuStatus.code() == 0x8e,
        Opcode::UserControlPressed.code() == 0x44,
        Opcode::UserControlReleased.code() == 0x45,
        Opcode::GiveDevicePowerStatus.code() == 0x8f,
        Opcode::ReportPowerStatus.code() == 0x90,
        Opcode::FeatureAbort.code() == 0x00,
        Opcode::Abort.code() == 0xff,
        Opcode::GiveAudioStatus.code() == 0x71,
        Opcode::GiveSystemAudioModeStatus.code() == 0x7d,
        Opcode::ReportAudioStatus.code() == 0x7a,
        Opcode::ReportShortAudioDescriptor.code() == 0xa3,
        Opcode::RequestShortAudioDescriptor.code() == 0xa4,
        Opcode::SetSystemAudioMode.code() == 0x72,
        Opcode::SystemAudioModeRequest.code() == 0x70,
        Opcode::SystemAudioModeStatus.code() == 0x7e,
        Opcode::SetAudioRate.code() == 0x9a,
        Opcode::InitiateArc.code() == 0xc0,
        Opcode::ReportArcInitiated.code() == 0xc1,
        Opcode::ReportArcTerminated.code() == 0xc2,
        Opcode::RequestArcInitiation.code() == 0xc3,
        Opcode::RequestArcTermination.code() == 0xc4,
        Opcode::TerminateArc.code() == 0xc5,
        Opcode::CdcMessage.code() == 0xf8,
        Opcode::ReportFeatures.code() == 0xa6,
        Opcode::GiveFeatures.code() == 0xa5,
        Opcode::RequestCurrentLatency.code() == 0xa7,
        Opcode::ReportCurrentLatency.code() == 0xa8,
        Opcode::SetAudioVolumeLevel.code() == 0x73,
{
}

/// The numbers of the profiles of remote controls.
pub proof fn rc_profile_id_numbers()
    ensures
        RcProfileId::ProfileNone.code() == 0x00,
        RcProfileId::Profile1.code() == 0x02,
        RcProfileId::Profile2.code() == 0x06,
        RcProfileId::Profile3.code() == 0x0a,
        RcProfileId::Profile4.code() == 0x0e,
{
}

/// The numbers of the ways in which the delay of sound is made up for.
pub proof fn audio_output_compensated_numbers()
    ensures
        AudioOutputCompensated::NotApplicable.code() == 0x00,
        AudioOutputCompensated::Delay.code() == 0x01,
        AudioOutputCompensated::NoDelay.code() == 0x02,
        AudioOutputCompensated::PartialDelay.code() == 0x03,
{
}

/// The numbers of the kinds of formats of sound.
pub proof fn audio_format_id_numbers()
    ensures
        AudioFormatId::CEA861.code() == 0x00,
        AudioFormatId::CEA861Cxt.code() == 0x01,
{
}

/// The numbers of the reasons to refuse a message.
pub proof fn abort_reason_numbers()
    ensures
        AbortReason::UnrecognizedOp.code() == 0x00,
        AbortReason::IncorrectMode.code() == 0x01,
        AbortReason::NoSource.code() == 0x02,
        AbortReason::InvalidOperand.code() == 0x03,
        AbortReason::Refused.code() == 0x04,
        AbortReason::Undetermined.code() == 0x05,
{
}

/// The numbers of the kinds of analogue broadcasts.
pub proof fn analogue_broadcast_type_numbers()
    ensures
        AnalogueBroadcastType::Cable.code() == 0x00,
        AnalogueBroadcastType::Satellite.code() == 0x01,
        AnalogueBroadcastType::Terrestrial.code() == 0x02,
{
}

/// The numbers of the rates of sound.
pub proof fn audio_rate_numbers()
    ensures
        AudioRate::Off.code() == 0x00,
        AudioRate::WideStandard.code() == 0x01,
        AudioRate::WideFast.code() == 0x02,
        AudioRate::WideSlow.code() == 0x03,
        AudioRate::NarrowStandard.code() == 0x04,
        AudioRate::NarrowFast.code() == 0x05,
        AudioRate::NarrowSlow.code() == 0x06,
{
}

/// The numbers of the systems of broadcasts.
pub proof fn broadcast_system_numbers()
    ensures
        BroadcastSystem::PalBG.code() == 0x00,
        BroadcastSystem::SecamLq.code() == 0x01,
        BroadcastSystem::PalM.code() == 0x02,
        BroadcastSystem::NtscM.code() == 0x03,
        BroadcastSystem::PalI.code() == 0x04,
        BroadcastSystem::SecamDK.code() == 0x05,
        BroadcastSystem::SecamBG.code() == 0x06,
        BroadcastSystem::SecamL.code() == 0x07,
        BroadcastSystem::PalDK.code() == 0x08,
        BroadcastSystem::Other.code() == 0x1f,
{
}

/// The numbers of the days of a month.
pub proof fn day_of_month_numbers()
    ensures
        DayOfMonth::Day1.code() == 0x01,
        DayOfMonth::Day2.code() == 0x02,
        DayOfMonth::Day3.code() == 0x03,
        DayOfMonth::Day4.code() == 0x04,
        DayOfMonth::Day5.code() == 0x05,
        DayOfMonth::Day6.code() == 0x06,
        DayOfMonth::Day7.code() == 0x07,
        DayOfMonth::Day8.code() == 0x08,
        DayOfMonth::Day9.code() == 0x09,
        DayOfMonth::Day10.code() == 0x0a,
        DayOfMonth::Day11.code() == 0x0b,
        DayOfMonth::Day12.code() == 0x0c,
        DayOfMonth::Day13.code() == 0x0d,
        DayOfMonth::Day14.code() == 0x0e,
        DayOfMonth::Day15.code() == 0x0f,
        DayOfMonth::Day16.code() == 0x10,
        DayOfMonth::Day17.code() == 0x11,
        DayOfMonth::Day18.code() == 0x12,
        DayOfMonth::Day19.code() == 0x13,
        DayOfMonth::Day20.code() == 0x14,
        DayOfMonth::Day21.code() == 0x15,
        DayOfMonth::Day22.code() == 0x16,
        DayOfMonth::Day23.code() == 0x17,
        DayOfMonth::Day24.code() == 0x18,
        DayOfMonth::Day25.code() == 0x19,
        DayOfMonth::Day26.code() == 0x1a,
        DayOfMonth::Day27.code() == 0x1b,
        DayOfMonth::Day28.code() == 0x1c,
        DayOfMonth::Day29.code() == 0x1d,
        DayOfMonth::Day30.code() == 0x1e,
        DayOfMonth::Day31.code() == 0x1f,
{
}

/// The numbers of the months of a year.
pub proof fn month_of_year_numbers()
    ensures
        MonthOfYear::January.code() == 0x01,
        MonthOfYear::February.code() == 0x02,
        MonthOfYear::March.code() == 0x03,
        MonthOfYear::April.code() == 0x04,
        MonthOfYear::May.code() == 0x05,
        MonthOfYear::June.code() == 0x06,
        MonthOfYear::July.code() == 0x07,
        MonthOfYear::August.code() == 0x08,
        MonthOfYear::September.code() == 0x09,
        MonthOfYear::October.code() == 0x0a,
        MonthOfYear::November.code() == 0x0b,
        MonthOfYear::December.code() == 0x0c,
{
}

/// The numbers of the modes to control a deck.
pub proof fn deck_control_mode_numbers()
    ensures
        DeckControlMode::SkipForward.code() == 0x01,
        DeckControlMode::SkipReverse.code() == 0x02,
        DeckControlMode::Stop.code() == 0x03,
        DeckControlMode::Eject.code() == 0x04,
{
}

/// The numbers of the states of a deck.
pub proof fn deck_info_numbers()
    ensures
        DeckInfo::Play.code() == 0x11,
        DeckInfo::Record.code() == 0x12,
        DeckInfo::PlayReverse.code() == 0x13,
        DeckInfo::Still.code() == 0x14,
        DeckInfo::Slow.code() == 0x15,
        DeckInfo::SlowReverse.code() == 0x16,
        DeckInfo::FastForward.code() == 0x17,
        DeckInfo::FastReverse.code() == 0x18,
        DeckInfo::NoMedia.code() == 0x19,
        DeckInfo::Stop.code() == 0x1a,
        DeckInfo::SkipForward.code() == 0x1b,
        DeckInfo::SkipReverse.code() == 0x1c,
        DeckInfo::IndexSearchForward.code() == 0x1d,
        DeckInfo::IndexSearchReverse.code() == 0x1e,
        DeckInfo::Other.code() == 0x1f,
{
}

/// The numbers of the systems of digital broadcasts.
pub proof fn digital_service_broadcast_system_numbers()
    ensures
        DigitalServiceBroadcastSystem::AribGeneric.code() == 0x00,
        DigitalServiceBroadcastSystem::AtscGeneric.code() == 0x01,
        DigitalServiceBroadcastSystem::DvbGeneric.code() == 0x02,
        DigitalServiceBroadcastSystem::AribBs.code() == 0x08,
        DigitalServiceBroadcastSystem::AribCs.code() == 0x09,
        DigitalServiceBroadcastSystem::AribT.code() == 0x0a,
        DigitalServiceBroadcastSystem::AtscCable.code() == 0x10,
        DigitalServiceBroadcastSystem::AtscSatellite.code() == 0x11,
        DigitalServiceBroadcastSystem::AtscTerrestrial.code() == 0x12,
        DigitalServiceBroadcastSystem::DvbC.code() == 0x18,
        DigitalServiceBroadcastSystem::DvbS.code() == 0x19,
        DigitalServiceBroadcastSystem::DvbS2.code() == 0x1a,
        DigitalServiceBroadcastSystem::DvbT.code() == 0x1b,
{
}

/// The numbers of the ways to display a text.
pub proof fn display_control_numbers()
    ensures
        DisplayControl::Default.code() == 0x00,
        DisplayControl::UntilCleared.code() == 0x40,
        DisplayControl::Clear.code() == 0x80,
{
}

/// The numbers of the requests about a menu.
pub proof fn menu_request_type_numbers()
    ensures
        MenuRequestType::Activate.code() == 0x00,
        MenuRequestType::Deactivate.code() == 0x01,
        MenuRequestType::Query.code() == 0x02,
{
}

/// The numbers of the states of a menu.
pub proof fn menu_state_numbers()
    ensures
        MenuState::Activated.code() == 0x00,
        MenuState::Deactivated.code() == 0x01,
{
}

/// The numbers of the modes to play.
pub proof fn play_mode_numbers()
    ensures
        PlayMode::FastForwardMin.code() == 0x05,
        PlayMode::FastForwardMedium.code() == 0x06,
        PlayMode::FastForwardMax.code() == 0x07,
        PlayMode::FastReverseMin.code() == 0x09,
        PlayMode::FastReverseMedium.code() == 0x0a,
        PlayMode::FastReverseMax.code() == 0x0b,
        PlayMode::SlowForwardMin.code() == 0x15,
        PlayMode::SlowForwardMedium.code() == 0x16,
        PlayMode::SlowForwardMax.code() == 0x17,
        PlayMode::SlowReverseMin.code() == 0x19,
        PlayMode::SlowReverseMedium.code() == 0x1a,
        PlayMode::SlowReverseMax.code() == 0x1b,
        PlayMode::Reverse.code() == 0x20,
        PlayMode::Forward.code() == 0x24,
        PlayMode::Still.code() == 0x25,
{
}

/// The numbers of the states of power.
pub proof fn power_status_numbers()
    ensures
        PowerStatus::On.code() == 0x00,
        PowerStatus::Standby.code() == 0x01,
        PowerStatus::ToOn.code() == 0x02,
        PowerStatus::ToStandby.code() == 0x03,
{
}

/// The numbers of the kinds of devices.
pub proof fn primary_device_type_numbers()
    ensures
        PrimaryDeviceType::Tv.code() == 0x00,
        PrimaryDeviceType::Recording.code() == 0x01,
        PrimaryDeviceType::Tuner.code() == 0x03,
        PrimaryDeviceType::Playback.code() == 0x04,
        PrimaryDeviceType::Audio.code() == 0x05,
        PrimaryDeviceType::Switch.code() == 0x06,
        PrimaryDeviceType::Processor.code() == 0x07,
{
}

/// The numbers of the kinds of sources to record.
pub proof fn record_source_type_numbers()
    ensures
        RecordSourceType::Own.code() == 0x01,
        RecordSourceType::Digital.code() == 0x02,
        RecordSourceType::Analogue.code() == 0x03,
        RecordSourceType::ExternalPlug.code() == 0x04,
        RecordSourceType::ExternalPhysicalAddress.code() == 0x05,
{
}

/// The numbers of the states of a recording.
pub proof fn record_status_info_numbers()
    ensures
        RecordStatusInfo::CurrentSource.code() == 0x01,
        RecordStatusInfo::DigitalService.code() == 0x02,
        RecordStatusInfo::AnalogueService.code() == 0x03,
        RecordStatusInfo::ExternalInput.code() == 0x04,
        RecordStatusInfo::NoDigitalService.code() == 0x05,
        RecordStatusInfo::NoAnalogueService.code() == 0x06,
        RecordStatusInfo::NoService.code() == 0x07,
        RecordStatusInfo::InvalidExternalPlug.code() == 0x09,
        RecordStatusInfo::InvalidExternalAddress.code() == 0x0a,
        RecordStatusInfo::UnsupportedCa.code() == 0x0b,
        RecordStatusInfo::InsufficientCaEntitlements.code() == 0x0c,
        RecordStatusInfo::DisallowedCopySource.code() == 0x0d,
        RecordStatusInfo::NoFurtherCopies.code() == 0x0e,
        RecordStatusInfo::NoMedia.code() == 0x10,
        RecordStatusInfo::Playing.code() == 0x11,
        RecordStatusInfo::AlreadyRecording.code() == 0x12,
        RecordStatusInfo::MediaProtected.code() == 0x13,
        RecordStatusInfo::NoSignal.code() == 0x14,
        RecordStatusInfo::MediaProblem.code() == 0x15,
        RecordStatusInfo::NoSpace.code() == 0x16,
        RecordStatusInfo::ParentalLock.code() == 0x17,
        RecordStatusInfo::TerminatedOk.code() == 0x1a,
        RecordStatusInfo::AlreadyTerminated.code() == 0x1b,
        RecordStatusInfo::Other.code() == 0x1f,
{
}

/// The numbers of the requests for a status.
pub proof fn status_request_numbers()
    ensures
        StatusRequest::On.code() == 0x01,
        StatusRequest::Off.code() == 0x02,
        StatusRequest::Once.code() == 0x03,
{
}

/// The numbers of the results of clearing a timer.
pub proof fn timer_cleared_status_data_numbers()
    ensures
        TimerClearedStatusData::Recording.code() == 0x00,
        TimerClearedStatusData::NoMatching.code() == 0x01,
        TimerClearedStatusData::NoInfo.code() == 0x02,
        TimerClearedStatusData::Cleared.code() == 0x80,
{
}

/// The numbers of the kinds of broadcasts to choose.
pub proof fn ui_broadcast_type_numbers()
    ensures
        UiBroadcastType::ToggleAll.code() == 0x00,
        UiBroadcastType::ToggleDigitalAnalogue.code() == 0x01,
        UiBroadcastType::Analogue.code() == 0x10,
        UiBroadcastType::AnalogueTerrestrial.code() == 0x20,
        UiBroadcastType::AnalogueCable.code() == 0x30,
        UiBroadcastType::AnalogueSatellite.code() == 0x40,
        UiBroadcastType::Digital.code() == 0x50,
        UiBroadcastType::DigitalTerrestrial.code() == 0x60,
        UiBroadcastType::DigitalCable.code() == 0x70,
        UiBroadcastType::DigitalSatellite.code() == 0x80,
        UiBroadcastType::DigitalCommunicationsSatellite.code() == 0x90,
        UiBroadcastType::DigitalCommunicationsSatellite2.code() == 0x91,
        UiBroadcastType::Ip.code() == 0xa0,
{
}

/// The numbers of the presentations of sound.
pub proof fn ui_sound_presentation_control_numbers()
    ensures
        UiSoundPresentationControl::DualMono.code() == 0x20,
        UiSoundPresentationControl::Karaoke.code() == 0x30,
        UiSoundPresentationControl::Downmix.code() == 0x80,
        UiSoundPresentationControl::Reverb.code() == 0x90,
        UiSoundPresentationControl::Equalizer.code() == 0xa0,
        UiSoundPresentationControl::BassUp.code() == 0xb1,
        UiSoundPresentationControl::BassNeutral.code() == 0xb2,
        UiSoundPresentationControl::BassDown.code() == 0xb3,
        UiSoundPresentationControl::TrebleUp.code() == 0xc1,
        UiSoundPresentationControl::TrebleNeutral.code() == 0xc2,
        UiSoundPresentationControl::TrebleDown.code() == 0xc3,
{
}

/// The numbers of the versions.
pub proof fn version_numbers()
    ensures
        Version::V1_3A.code() == 0x04,
        Version::V1_4.code() == 0x05,
        Version::V2_0.code() == 0x06,
{
}

/// The numbers of the states of a medium.
pub proof fn media_info_numbers()
    ensures
        MediaInfo::UnprotectedMedia.code() == 0x00,
        MediaInfo::ProtectedMedia.code() == 0x01,
        MediaInfo::NoMedia.code() == 0x02,
{
}

/// The numbers of the states of a tuner.
pub proof fn tuner_display_info_numbers()
    ensures
        TunerDisplayInfo::Digital.code() == 0x00,
        TunerDisplayInfo::NotDisplayed.code() == 0x01,
        TunerDisplayInfo::Analogue.code() == 0x02,
{
}

/// The bytes of the buttons without a parameter.
pub proof fn buttons()
    ensures
        UiCommand::Select.encoded() == seq![0x00u8],
        UiCommand::Up.encoded() == seq![0x01u8],
        UiCommand::Down.encoded() == seq![0x02u8],
        UiCommand::Left.encoded() == seq![0x03u8],
        UiCommand::Right.encoded() == seq![0x04u8],
        UiCommand::RightUp.encoded() == seq![0x05u8],
        UiCommand::RightDown.encoded() == seq![0x06u8],
        UiCommand::LeftUp.encoded() == seq![0x07u8],
        UiCommand::LeftDown.encoded() == seq![0x08u8],
        UiCommand::DeviceRootMenu.encoded() == seq![0x09u8],
        UiCommand::DeviceSetupMenu.encoded() == seq![0x0au8],
        UiCommand::ContentsMenu.encoded() == seq![0x0bu8],
        UiCommand::FavoriteMenu.encoded() == seq![0x0cu8],
        UiCommand::Back.encoded() == seq![0x0du8],
        UiCommand::MediaTopMenu.encoded() == seq![0x10u8],
        UiCommand::MediaContextSensitiveMenu.encoded() == seq![0x11u8],
        UiCommand::NumberEntryMode.encoded() == seq![0x1du8],
        UiCommand::Number11.encoded() == seq![0x1eu8],
        UiCommand::Number12.encoded() == seq![0x1fu8],
        UiCommand::Number0OrNumber10.encoded() == seq![0x20u8],
        UiCommand::Number1.encoded() == seq![0x21u8],
        UiCommand::Number2.encoded() == seq![0x22u8],
        UiCommand::Number3.encoded() == seq![0x23u8],
        UiCommand::Number4.encoded() == seq![0x24u8],
        UiCommand::Number5.encoded() == seq![0x25u8],
        UiCommand::Number6.encoded() == seq![0x26u8],
        UiCommand::Number7.encoded() == seq![0x27u8],
        UiCommand::Number8.encoded() == seq![0x28u8],
        UiCommand::Number9.encoded() == seq![0x29u8],
        UiCommand::Dot.encoded() == seq![0x2au8],
        UiCommand::Enter.encoded() == seq![0x2bu8],
        UiCommand::Clear.encoded() == seq![0x2cu8],
        UiCommand::NextFavorite.encoded() == seq![0x2fu8],
        UiCommand::ChannelUp.encoded() == seq![0x30u8],
        UiCommand::ChannelDown.encoded() == seq![0x31u8],
        UiCommand::PreviousChannel.encoded() == seq![0x32u8],
        UiCommand::SoundSelect.encoded() == seq![0x33u8],
        UiCommand::InputSelect.encoded() == seq![0x34u8],
        UiCommand::DisplayInformation.encoded() == seq![0x35u8],
        UiCommand::Help.encoded() == seq![0x36u8],
        UiCommand::PageUp.encoded() == seq![0x37u8],
        UiCommand::PageDown.encoded() == seq![0x38u8],
        UiCommand::Power.encoded() == seq![0x40u8],
        UiCommand::VolumeUp.encoded() == seq![0x41u8],
        UiCommand::VolumeDown.encoded() == seq![0x42u8],
        UiCommand::Mute.encoded() == seq![0x43u8],
        UiCommand::Play.encoded() == seq![0x44u8],
        UiCommand::Stop.encoded() == seq![0x45u8],
        UiCommand::Pause.encoded() == seq![0x46u8],
        UiCommand::Record.encoded() == seq![0x47u8],
        UiCommand::Rewind.encoded() == seq![0x48u8],
        UiCommand::FastForward.encoded() == seq![0x49u8],
        UiCommand::Eject.encoded() == seq![0x4au8],
        UiCommand::SkipForward.encoded() == seq![0x4bu8],
        UiCommand::SkipBackward.encoded() == seq![0x4cu8],
        UiCommand::StopRecord.encoded() == seq![0x4du8],
        UiCommand::PauseRecord.encoded() == seq![0x4eu8],
        UiCommand::Angle.encoded() == seq![0x50u8],
        UiCommand::SubPicture.encoded() == seq![0x51u8],
        UiCommand::VideoOnDemand.encoded() == seq![0x52u8],
        UiCommand::ElectronicProgramGuide.encoded() == seq![0x53u8],
        UiCommand::TimerProgramming.encoded() == seq![0x54u8],
        UiCommand::InitialConfiguration.encoded() == seq![0x55u8],
        UiCommand::AudioDescription.encoded() == seq![0x58u8],
        UiCommand::Internet.encoded() == seq![0x59u8],
        UiCommand::ThreeDMode.encoded() == seq![0x5au8],
        UiCommand::PausePlayFunction.encoded() == seq![0x61u8],
        UiCommand::RecordFunction.encoded() == seq![0x62u8],
        UiCommand::PauseRecordFunction.encoded() == seq![0x63u8],
        UiCommand::StopFunction.encoded() == seq![0x64u8],
        UiCommand::MuteFunction.encoded() == seq![0x65u8],
        UiCommand::RestoreVolumeFunction.encoded() == seq![0x66u8],
        UiCommand::PowerToggleFunction.encoded() == seq![0x6bu8],
        UiCommand::PowerOffFunction.encoded() == seq![0x6cu8],
        UiCommand::PowerOnFunction.encoded() == seq![0x6du8],
        UiCommand::F1Blue.encoded() == seq![0x71u8],
        UiCommand::F2Red.encoded() == seq![0x72u8],
        UiCommand::F3Green.encoded() == seq![0x73u8],
        UiCommand::F4Yellow.encoded() == seq![0x74u8],
        UiCommand::F5.encoded() == seq![0x75u8],
        UiCommand::Data.encoded() == seq![0x76u8],
{
    assert(UiCommand::Select.encoded() =~= seq![0x00u8]);
    assert(UiCommand::Up.encoded() =~= seq![0x01u8]);
    assert(UiCommand::Down.encoded() =~= seq![0x02u8]);
    assert(UiCommand::Left.encoded() =~= seq![0x03u8]);
    assert(UiCommand::Right.encoded() =~= seq![0x04u8]);
    assert(UiCommand::RightUp.encoded() =~= seq![0x05u8]);
    assert(UiCommand::RightDown.encoded() =~= seq![0x06u8]);
    assert(UiCommand::LeftUp.encoded() =~= seq![0x07u8]);
    assert(UiCommand::LeftDown.encoded() =~= seq![0x08u8]);
    assert(UiCommand::DeviceRootMenu.encoded() =~= seq![0x09u8]);
    assert(UiCommand::DeviceSetupMenu.encoded() =~= seq![0x0au8]);
    assert(UiCommand::ContentsMenu.encoded() =~= seq![0x0bu8]);
    assert(UiCommand::FavoriteMenu.encoded() =~= seq![0x0cu8]);
    assert(UiCommand::Back.encoded() =~= seq![0x0du8]);
    assert(UiCommand::MediaTopMenu.encoded() =~= seq![0x10u8]);
    assert(UiCommand::MediaContextSensitiveMenu.encoded() =~= seq![0x11u8]);
    assert(UiCommand::NumberEntryMode.encoded() =~= seq![0x1du8]);
    assert(UiCommand::Number11.encoded() =~= seq![0x1eu8]);
    assert(UiCommand::Number12.encoded() =~= seq![0x1fu8]);
    assert(UiCommand::Number0OrNumber10.encoded() =~= seq![0x20u8]);
    assert(UiCommand::Number1.encoded() =~= seq![0x21u8]);
    assert(UiCommand::Number2.encoded() =~= seq![0x22u8]);
    assert(UiCommand::Number3.encoded() =~= seq![0x23u8]);
    assert(UiCommand::Number4.encoded() =~= seq![0x24u8]);
    assert(UiCommand::Number5.encoded() =~= seq![0x25u8]);
    assert(UiCommand::Number6.encoded() =~= seq![0x26u8]);
    assert(UiCommand::Number7.encoded() =~= seq![0x27u8]);
    assert(UiCommand::Number8.encoded() =~= seq![0x28u8]);
    assert(UiCommand::Number9.encoded() =~= seq![0x29u8]);
    assert(UiCommand::Dot.encoded() =~= seq![0x2au8]);
    assert(UiCommand::Enter.encoded() =~= seq![0x2bu8]);
    assert(UiCommand::Clear.encoded() =~= seq![0x2cu8]);
    assert(UiCommand::NextFavorite.encoded() =~= seq![0x2fu8]);
    assert(UiCommand::ChannelUp.encoded() =~= seq![0x30u8]);
    assert(UiCommand::ChannelDown.encoded() =~= seq![0x31u8]);
    assert(UiCommand::PreviousChannel.encoded() =~= seq![0x32u8]);
    assert(UiCommand::SoundSelect.encoded() =~= seq![0x33u8]);
    assert(UiCommand::InputSelect.encoded() =~= seq![0x34u8]);
    assert(UiCommand::DisplayInformation.encoded() =~= seq![0x35u8]);
    assert(UiCommand::Help.encoded() =~= seq![0x36u8]);
    assert(UiCommand::PageUp.encoded() =~= seq![0x37u8]);
    assert(UiCommand::PageDown.encoded() =~= seq![0x38u8]);
    assert(UiCommand::Power.encoded() =~= seq![0x40u8]);
    assert(UiCommand::VolumeUp.encoded() =~= seq![0x41u8]);
    assert(UiCommand::VolumeDown.encoded() =~= seq![0x42u8]);
    assert(UiCommand::Mute.encoded() =~= seq![0x43u8]);
    assert(UiCommand::Play.encoded() =~= seq![0x44u8]);
    assert(UiCommand::Stop.encoded() =~= seq![0x45u8]);
    assert(UiCommand::Pause.encoded() =~= seq![0x46u8]);
    assert(UiCommand::Record.encoded() =~= seq![0x47u8]);
    assert(UiCommand::Rewind.encoded() =~= seq![0x48u8]);
    assert(UiCommand::FastForward.encoded() =~= seq![0x49u8]);
    assert(UiCommand::Eject.encoded() =~= seq![0x4au8]);
    assert(UiCommand::SkipForward.encoded() =~= seq![0x4bu8]);
    assert(UiCommand::SkipBackward.encoded() =~= seq![0x4cu8]);
    assert(UiCommand::StopRecord.encoded() =~= seq![0x4du8]);
    assert(UiCommand::PauseRecord.encoded() =~= seq![0x4eu8]);
    assert(UiCommand::Angle.encoded() =~= seq![0x50u8]);
    assert(UiCommand::SubPicture.encoded() =~= seq![0x51u8]);
    assert(UiCommand::VideoOnDemand.encoded() =~= seq![0x52u8]);
    assert(UiCommand::ElectronicProgramGuide.encoded() =~= seq![0x53u8]);
    assert(UiCommand::TimerProgramming.encoded() =~= seq![0x54u8]);
    assert(UiCommand::InitialConfiguration.encoded() =~= seq![0x55u8]);
    assert(UiCommand::AudioDescription.encoded() =~= seq![0x58u8]);
    assert(UiCommand::Internet.encoded() =~= seq![0x59u8]);
    assert(UiCommand::ThreeDMode.encoded() =~= seq![0x5au8]);
    assert(UiCommand::PausePlayFunction.encoded() =~= seq![0x61u8]);
    assert(UiCommand::RecordFunction.encoded() =~= seq![0x62u8]);
    assert(UiCommand::PauseRecordFunction.encoded() =~= seq![0x63u8]);
    assert(UiCommand::StopFunction.encoded() =~= seq![0x64u8]);
    assert(UiCommand::MuteFunction.encoded() =~= seq![0x65u8]);
    assert(UiCommand::RestoreVolumeFunction.encoded() =~= seq![0x66u8]);
    assert(UiCommand::PowerToggleFunction.encoded() =~= seq![0x6bu8]);
    assert(UiCommand::PowerOffFunction.encoded() =~= seq![0x6cu8]);
    assert(UiCommand::PowerOnFunction.encoded() =~= seq![0x6du8]);
    assert(UiCommand::F1Blue.encoded() =~= seq![0x71u8]);
    assert(UiCommand::F2Red.encoded() =~= seq![0x72u8]);
    assert(UiCommand::F3Green.encoded() =~= seq![0x73u8]);
    assert(UiCommand::F4Yellow.encoded() =~= seq![0x74u8]);
    assert(UiCommand::F5.encoded() =~= seq![0x75u8]);
    assert(UiCommand::Data.encoded() =~= seq![0x76u8]);
}

/// The bytes of the buttons that may have a parameter: their number, and behind it the parameter.
pub proof fn buttons_with_parameters(c: UiCommand)
    ensures
        c matches UiCommand::SelectBroadcastType(p) ==> c.encoded() == seq![0x56u8] + p.encoded(),
        c matches UiCommand::SelectSoundPresentation(p) ==> c.encoded() == seq![0x57u8] +
            p.encoded(),
        c matches UiCommand::PlayFunction(p) ==> c.encoded() == seq![0x60u8] + p.encoded(),
        c matches UiCommand::TuneFunction(p) ==> c.encoded() == seq![0x67u8] + p.encoded(),
        c matches UiCommand::SelectMediaFunction(p) ==> c.encoded() == seq![0x68u8] + p.encoded(),
        c matches UiCommand::SelectAvInputFunction(p) ==> c.encoded() == seq![0x69u8] + p.encoded(),
        c matches UiCommand::SelectAudioInputFunction(p) ==> c.encoded() == seq![0x6au8] +
            p.encoded(),
{
}

/// The bytes of the messages without operands.
pub proof fn plain_messages(m: Message)
    ensures
        m is ImageViewOn ==> m.encoded() == seq![0x04u8],
        m is TextViewOn ==> m.encoded() == seq![0x0du8],
        m is RequestActiveSource ==> m.encoded() == seq![0x85u8],
        m is Standby ==> m.encoded() == seq![0x36u8],
        m is RecordOff ==> m.encoded() == seq![0x0bu8],
        m is RecordTvScreen ==> m.encoded() == seq![0x0fu8],
        m is GetCecVersion ==> m.encoded() == seq![0x9fu8],
        m is GivePhysicalAddr ==> m.encoded() == seq![0x83u8],
        m is GetMenuLanguage ==> m.encoded() == seq![0x91u8],
        m is TunerStepDecrement ==> m.encoded() == seq![0x06u8],
        m is TunerStepIncrement ==> m.encoded() == seq![0x05u8],
        m is GiveDeviceVendorId ==> m.encoded() == seq![0x8cu8],
        m is VendorRemoteButtonUp ==> m.encoded() == seq![0x8bu8],
        m is GiveOsdName ==> m.encoded() == seq![0x46u8],
        m is UserControlReleased ==> m.encoded() == seq![0x45u8],
        m is GiveDevicePowerStatus ==> m.encoded() == seq![0x8fu8],
        m is Abort ==> m.encoded() == seq![0xffu8],
        m is GiveAudioStatus ==> m.encoded() == seq![0x71u8],
        m is GiveSystemAudioModeStatus ==> m.encoded() == seq![0x7du8],
        m is InitiateArc ==> m.encoded() == seq![0xc0u8],
        m is ReportArcInitiated ==> m.encoded() == seq![0xc1u8],
        m is ReportArcTerminated ==> m.encoded() == seq![0xc2u8],
        m is RequestArcInitiation ==> m.encoded() == seq![0xc3u8],
        m is RequestArcTermination ==> m.encoded() == seq![0xc4u8],
        m is TerminateArc ==> m.encoded() == seq![0xc5u8],
        m is GiveFeatures ==> m.encoded() == seq![0xa5u8],
{
    reveal(wire);
    if m is ImageViewOn {
        assert(m.encoded() =~= seq![0x04u8]);
    }
    if m is TextViewOn {
        assert(m.encoded() =~= seq![0x0du8]);
    }
    if m is RequestActiveSource {
        assert(m.encoded() =~= seq![0x85u8]);
    }
    if m is Standby {
        assert(m.encoded() =~= seq![0x36u8]);
    }
    if m is RecordOff {
        assert(m.encoded() =~= seq![0x0bu8]);
    }
    if m is RecordTvScreen {
        assert(m.encoded() =~= seq![0x0fu8]);
    }
    if m is GetCecVersion {
        assert(m.encoded() =~= seq![0x9fu8]);
    }
    if m is GivePhysicalAddr {
        assert(m.encoded() =~= seq![0x83u8]);
    }
    if m is GetMenuLanguage {
        assert(m.encoded() =~= seq![0x91u8]);
    }
    if m is TunerStepDecrement {
        assert(m.encoded() =~= seq![0x06u8]);
    }
    if m is TunerStepIncrement {
        assert(m.encoded() =~= seq![0x05u8]);
    }
    if m is GiveDeviceVendorId {
        assert(m.encoded() =~= seq![0x8cu8]);
    }
    if m is VendorRemoteButtonUp {
        assert(m.encoded() =~= seq![0x8bu8]);
    }
    if m is GiveOsdName {
        assert(m.encoded() =~= seq![0x46u8]);
    }
    if m is UserControlReleased {
        assert(m.encoded() =~= seq![0x45u8]);
    }
    if m is GiveDevicePowerStatus {
        assert(m.encoded() =~= seq![0x8fu8]);
    }
    if m is Abort {
        assert(m.encoded() =~= seq![0xffu8]);
    }
    if m is GiveAudioStatus {
        assert(m.encoded() =~= seq![0x71u8]);
    }
    if m is GiveSystemAudioModeStatus {
        assert(m.encoded() =~= seq![0x7du8]);
    }
    if m is InitiateArc {
        assert(m.encoded() =~= seq![0xc0u8]);
    }
    if m is ReportArcInitiated {
        assert(m.encoded() =~= seq![0xc1u8]);
    }
    if m is ReportArcTerminated {
        assert(m.encoded() =~= seq![0xc2u8]);
    }
    if m is RequestArcInitiation {
        assert(m.encoded() =~= seq![0xc3u8]);
    }
    if m is RequestArcTermination {
        assert(m.encoded() =~= seq![0xc4u8]);
    }
    if m is TerminateArc {
        assert(m.encoded() =~= seq![0xc5u8]);
    }
    if m is GiveFeatures {
        assert(m.encoded() =~= seq![0xa5u8]);
    }
}

/// The bytes of the messages about sources, addresses, power and versions: the number of the kind, and behind it the operands in order.
pub proof fn source_messages(m: Message)
    ensures
        m matches Message::ActiveSource { address } ==> m.encoded() == seq![0x82u8] +
            address.encoded(),
        m matches Message::InactiveSource { address } ==> m.encoded() == seq![0x9du8] +
            address.encoded(),
        m matches Message::RoutingChange { original_address, new_address } ==> m.encoded() ==
            seq![0x80u8] + original_address.encoded() + new_address.encoded(),
        m matches Message::RoutingInformation { address } ==> m.encoded() == seq![0x81u8] +
            address.encoded(),
        m matches Message::SetStreamPath { address } ==> m.encoded() == seq![0x86u8] +
            address.encoded(),
        m matches Message::CecVersion { version } ==> m.encoded() == seq![0x9eu8] +
            version.encoded(),
        m matches Message::ReportPhysicalAddr { physical_address, device_type } ==> m.encoded() ==
            seq![0x84u8] + physical_address.encoded() + device_type.encoded(),
        m matches Message::DeviceVendorId { vendor_id } ==> m.encoded() == seq![0x87u8] +
            vendor_id.encoded(),
        m matches Message::ReportPowerStatus { status } ==> m.encoded() == seq![0x90u8] +
            status.encoded(),
        m matches Message::FeatureAbort { opcode, abort_reason } ==> m.encoded() == seq![0x00u8] +
            opcode.encoded() + abort_reason.encoded(),
{
    reveal(wire);
    if let Message::ActiveSource { address } = m {
        assert(m.encoded() =~= seq![0x82u8] + address.encoded());
    }
    if let Message::InactiveSource { address } = m {
        assert(m.encoded() =~= seq![0x9du8] + address.encoded());
    }
    if let Message::RoutingChange { original_address, new_address } = m {
        assert(m.encoded() =~= seq![0x80u8] + original_address.encoded() + new_address.encoded());
    }
    if let Message::RoutingInformation { address } = m {
        assert(m.encoded() =~= seq![0x81u8] + address.encoded());
    }
    if let Message::SetStreamPath { address } = m {
        assert(m.encoded() =~= seq![0x86u8] + address.encoded());
    }
    if let Message::CecVersion { version } = m {
        assert(m.encoded() =~= seq![0x9eu8] + version.encoded());
    }
    if let Message::ReportPhysicalAddr { physical_address, device_type } = m {
        assert(m.encoded() =~= seq![0x84u8] + physical_address.encoded() + device_type.encoded());
    }
    if let Message::DeviceVendorId { vendor_id } = m {
        assert(m.encoded() =~= seq![0x87u8] + vendor_id.encoded());
    }
    if let Message::ReportPowerStatus { status } = m {
        assert(m.encoded() =~= seq![0x90u8] + status.encoded());
    }
    if let Message::FeatureAbort { opcode, abort_reason } = m {
        assert(m.encoded() =~= seq![0x00u8] + opcode.encoded() + abort_reason.encoded());
    }
}

/// The bytes of the messages about recordings and tuners: the number of the kind, and behind it the operands in order.
pub proof fn record_messages(m: Message)
    ensures
        m matches Message::RecordOn { source } ==> m.encoded() == seq![0x09u8] + source.encoded(),
        m matches Message::RecordStatus { status } ==> m.encoded() == seq![0x0au8] +
            status.encoded(),
        m matches Message::SetTimerProgramTitle { title } ==> m.encoded() == seq![0x67u8] +
            title.encoded(),
        m matches Message::TimerClearedStatus { status } ==> m.encoded() == seq![0x43u8] +
            status.encoded(),
        m matches Message::TimerStatus { status } ==> m.encoded() == seq![0x35u8] +
            status.encoded(),
        m matches Message::GiveTunerDeviceStatus { request } ==> m.encoded() == seq![0x08u8] +
            request.encoded(),
        m matches Message::SelectAnalogueService { service_id } ==> m.encoded() == seq![0x92u8] +
            service_id.encoded(),
        m matches Message::SelectDigitalService { service_id } ==> m.encoded() == seq![0x93u8] +
            service_id.encoded(),
        m matches Message::TunerDeviceStatus { info } ==> m.encoded() == seq![0x07u8] +
            info.encoded(),
{
    reveal(wire);
    if let Message::RecordOn { source } = m {
        assert(m.encoded() =~= seq![0x09u8] + source.encoded());
    }
    if let Message::RecordStatus { status } = m {
        assert(m.encoded() =~= seq![0x0au8] + status.encoded());
    }
    if let Message::SetTimerProgramTitle { title } = m {
        assert(m.encoded() =~= seq![0x67u8] + title.encoded());
    }
    if let Message::TimerClearedStatus { status } = m {
        assert(m.encoded() =~= seq![0x43u8] + status.encoded());
    }
    if let Message::TimerStatus { status } = m {
        assert(m.encoded() =~= seq![0x35u8] + status.encoded());
    }
    if let Message::GiveTunerDeviceStatus { request } = m {
        assert(m.encoded() =~= seq![0x08u8] + request.encoded());
    }
    if let Message::SelectAnalogueService { service_id } = m {
        assert(m.encoded() =~= seq![0x92u8] + service_id.encoded());
    }
    if let Message::SelectDigitalService { service_id } = m {
        assert(m.encoded() =~= seq![0x93u8] + service_id.encoded());
    }
    if let Message::TunerDeviceStatus { info } = m {
        assert(m.encoded() =~= seq![0x07u8] + info.encoded());
    }
}

/// The bytes of the messages about decks, menus, buttons and names: the number of the kind, and behind it the operands in order.
pub proof fn deck_messages(m: Message)
    ensures
        m matches Message::SetMenuLanguage { language } ==> m.encoded() == seq![0x32u8] +
            language.encoded(),
        m matches Message::DeckControl { mode } ==> m.encoded() == seq![0x42u8] + mode.encoded(),
        m matches Message::DeckStatus { info } ==> m.encoded() == seq![0x1bu8] + info.encoded(),
        m matches Message::GiveDeckStatus { request } ==> m.encoded() == seq![0x1au8] +
            request.encoded(),
        m matches Message::Play { mode } ==> m.encoded() == seq![0x41u8] + mode.encoded(),
        m matches Message::SetOsdString { display_control, osd_string } ==> m.encoded() ==
            seq![0x64u8] + display_control.encoded() + osd_string.encoded(),
        m matches Message::SetOsdName { name } ==> m.encoded() == seq![0x47u8] + name.encoded(),
        m matches Message::MenuRequest { request_type } ==> m.encoded() == seq![0x8du8] +
            request_type.encoded(),
        m matches Message::MenuStatus { state } ==> m.encoded() == seq![0x8eu8] + state.encoded(),
        m matches Message::UserControlPressed { ui_command } ==> m.encoded() == seq![0x44u8] +
            ui_command.encoded(),
{
    reveal(wire);
    if let Message::SetMenuLanguage { language } = m {
        assert(m.encoded() =~= seq![0x32u8] + language.encoded());
    }
    if let Message::DeckControl { mode } = m {
        assert(m.encoded() =~= seq![0x42u8] + mode.encoded());
    }
    if let Message::DeckStatus { info } = m {
        assert(m.encoded() =~= seq![0x1bu8] + info.encoded());
    }
    if let Message::GiveDeckStatus { request } = m {
        assert(m.encoded() =~= seq![0x1au8] + request.encoded());
    }
    if let Message::Play { mode } = m {
        assert(m.encoded() =~= seq![0x41u8] + mode.encoded());
    }
    if let Message::SetOsdString { display_control, osd_string } = m {
        assert(m.encoded() =~= seq![0x64u8] + display_control.encoded() + osd_string.encoded());
    }
    if let Message::SetOsdName { name } = m {
        assert(m.encoded() =~= seq![0x47u8] + name.encoded());
    }
    if let Message::MenuRequest { request_type } = m {
        assert(m.encoded() =~= seq![0x8du8] + request_type.encoded());
    }
    if let Message::MenuStatus { state } = m {
        assert(m.encoded() =~= seq![0x8eu8] + state.encoded());
    }
    if let Message::UserControlPressed { ui_command } = m {
        assert(m.encoded() =~= seq![0x44u8] + ui_command.encoded());
    }
}

/// The bytes of the messages about sound, features, latency and vendors, and of those about
/// channels besides the bus: the number of the kind, and behind it the operands in order.
pub proof fn audio_messages(m: Message)
    ensures
        m matches Message::VendorCommand { command } ==> m.encoded() == seq![0x89u8] +
            command.encoded(),
        m matches Message::VendorCommandWithId { vendor_id, vendor_specific_data } ==> m.encoded()
            == seq![0xa0u8] + vendor_id.encoded() + vendor_specific_data.encoded(),
        m matches Message::VendorRemoteButtonDown { rc_code } ==> m.encoded() == seq![0x8au8] +
            rc_code.encoded(),
        m matches Message::ReportAudioStatus { status } ==> m.encoded() == seq![0x7au8] +
            status.encoded(),
        m matches Message::ReportShortAudioDescriptor { descriptors } ==> m.encoded() ==
            seq![0xa3u8] + descriptors.encoded(),
        m matches Message::RequestShortAudioDescriptor { descriptors } ==> m.encoded() ==
            seq![0xa4u8] + descriptors.encoded(),
        m matches Message::SetSystemAudioMode { status } ==> m.encoded() == seq![0x72u8] +
            status.encoded(),
        m matches Message::SystemAudioModeRequest { physical_address } ==> m.encoded() ==
            seq![0x70u8] + physical_address.encoded(),
        m matches Message::SystemAudioModeStatus { status } ==> m.encoded() == seq![0x7eu8] +
            status.encoded(),
        m matches Message::SetAudioRate { audio_rate } ==> m.encoded() == seq![0x9au8] +
            audio_rate.encoded(),
        m matches Message::CdcMessage { initiator, message } ==> m.encoded() == seq![0xf8u8] +
            initiator.encoded() + message.encoded(),
        m matches Message::ReportFeatures { version, device_types, rc_profile, device_features } ==>
            m.encoded() == seq![0xa6u8] + version.encoded() + device_types.encoded() +
            rc_profile.encoded() + device_features.encoded(),
        m matches Message::RequestCurrentLatency { physical_address } ==> m.encoded() ==
            seq![0xa7u8] + physical_address.encoded(),
        m matches Message::ReportCurrentLatency { physical_address, video_latency, flags,
            audio_output_delay } ==> m.encoded() == seq![0xa8u8] + physical_address.encoded() +
            video_latency.encoded() + flags.encoded() + audio_output_delay.encoded(),
        m matches Message::SetAudioVolumeLevel { volume_level } ==> m.encoded() == seq![0x73u8] +
            volume_level.encoded(),
{
    reveal(wire);
    if let Message::VendorCommand { command } = m {
        assert(m.encoded() =~= seq![0x89u8] + command.encoded());
    }
    if let Message::VendorCommandWithId { vendor_id, vendor_specific_data } = m {
        assert(m.encoded() =~= seq![0xa0u8] + vendor_id.encoded() + vendor_specific_data.encoded());
    }
    if let Message::VendorRemoteButtonDown { rc_code } = m {
        assert(m.encoded() =~= seq![0x8au8] + rc_code.encoded());
    }
    if let Message::ReportAudioStatus { status } = m {
        assert(m.encoded() =~= seq![0x7au8] + status.encoded());
    }
    if let Message::ReportShortAudioDescriptor { descriptors } = m {
        assert(m.encoded() =~= seq![0xa3u8] + descriptors.encoded());
    }
    if let Message::RequestShortAudioDescriptor { descriptors } = m {
        assert(m.encoded() =~= seq![0xa4u8] + descriptors.encoded());
    }
    if let Message::SetSystemAudioMode { status } = m {
        assert(m.encoded() =~= seq![0x72u8] + status.encoded());
    }
    if let Message::SystemAudioModeRequest { physical_address } = m {
        assert(m.encoded() =~= seq![0x70u8] + physical_address.encoded());
    }
    if let Message::SystemAudioModeStatus { status } = m {
        assert(m.encoded() =~= seq![0x7eu8] + status.encoded());
    }
    if let Message::SetAudioRate { audio_rate } = m {
        assert(m.encoded() =~= seq![0x9au8] + audio_rate.encoded());
    }
    if let Message::CdcMessage { initiator, message } = m {
        assert(m.encoded() =~= seq![0xf8u8] + initiator.encoded() + message.encoded());
    }
    if let Message::ReportFeatures { version, device_types, rc_profile, device_features } = m {
        assert(m.encoded() =~= seq![0xa6u8] + version.encoded() + device_types.encoded() +
            rc_profile.encoded() + device_features.encoded());
    }
    if let Message::RequestCurrentLatency { physical_address } = m {
        assert(m.encoded() =~= seq![0xa7u8] + physical_address.encoded());
    }
    if let Message::ReportCurrentLatency { physical_address, video_latency, flags,
        audio_output_delay } = m {
        assert(m.encoded() =~= seq![0xa8u8] + physical_address.encoded() + video_latency.encoded() +
            flags.encoded() + audio_output_delay.encoded());
    }
    if let Message::SetAudioVolumeLevel { volume_level } = m {
        assert(m.encoded() =~= seq![0x73u8] + volume_level.encoded());
    }
}

/// The bytes of the messages that set and clear timers: the number of the kind, and behind it the
/// operands in order.
pub proof fn timer_messages(m: Message)
    ensures
        m matches Message::ClearAnalogueTimer { day_of_month, month_of_year, start_time, duration,
            recording_sequence, service_id } ==> m.encoded() == seq![0x33u8] +
            (day_of_month.encoded() + month_of_year.encoded() + start_time.encoded() +
            duration.encoded() + recording_sequence.encoded() + service_id.encoded()),
        m matches Message::ClearDigitalTimer { day_of_month, month_of_year, start_time, duration,
            recording_sequence, service_id } ==> m.encoded() == seq![0x99u8] +
            (day_of_month.encoded() + month_of_year.encoded() + start_time.encoded() +
            duration.encoded() + recording_sequence.encoded() + service_id.encoded()),
        m matches Message::ClearExtTimer { day_of_month, month_of_year, start_time, duration,
            recording_sequence, external_source } ==> m.encoded() == seq![0xa1u8] +
            (day_of_month.encoded() + month_of_year.encoded() + start_time.encoded() +
            duration.encoded() + recording_sequence.encoded() + external_source.encoded()),
        m matches Message::SetAnalogueTimer { day_of_month, month_of_year, start_time, duration,
            recording_sequence, service_id } ==> m.encoded() == seq![0x34u8] +
            (day_of_month.encoded() + month_of_year.encoded() + start_time.encoded() +
            duration.encoded() + recording_sequence.encoded() + service_id.encoded()),
        m matches Message::SetDigitalTimer { day_of_month, month_of_year, start_time, duration,
            recording_sequence, service_id } ==> m.encoded() == seq![0x97u8] +
            (day_of_month.encoded() + month_of_year.encoded() + start_time.encoded() +
            duration.encoded() + recording_sequence.encoded() + service_id.encoded()),
        m matches Message::SetExtTimer { day_of_month, month_of_year, start_time, duration,
            recording_sequence, external_source } ==> m.encoded() == seq![0xa2u8] +
            (day_of_month.encoded() + month_of_year.encoded() + start_time.encoded() +
            duration.encoded() + recording_sequence.encoded() + external_source.encoded()),
{
    if let Message::ClearAnalogueTimer { day_of_month, month_of_year, start_time, duration,
        recording_sequence, service_id } = m {
        six_in_order(day_of_month, month_of_year, start_time, duration, recording_sequence,
            service_id);
    }
    if let Message::ClearDigitalTimer { day_of_month, month_of_year, start_time, duration,
        recording_sequence, service_id } = m {
        six_in_order(day_of_month, month_of_year, start_time, duration, recording_sequence,
            service_id);
    }
    if let Message::ClearExtTimer { day_of_month, month_of_year, start_time, duration,
        recording_sequence, external_source } = m {
        six_in_order(day_of_month, month_of_year, start_time, duration, recording_sequence,
            external_source);
    }
    if let Message::SetAnalogueTimer { day_of_month, month_of_year, start_time, duration,
        recording_sequence, service_id } = m {
        six_in_order(day_of_month, month_of_year, start_time, duration, recording_sequence,
            service_id);
    }
    if let Message::SetDigitalTimer { day_of_month, month_of_year, start_time, duration,
        recording_sequence, service_id } = m {
        six_in_order(day_of_month, month_of_year, start_time, duration, recording_sequence,
            service_id);
    }
    if let Message::SetExtTimer { day_of_month, month_of_year, start_time, duration,
        recording_sequence, external_source } = m {
        six_in_order(day_of_month, month_of_year, start_time, duration, recording_sequence,
            external_source);
    }
}

/// The bytes of the messages about channels besides the bus: the number of the kind, and behind it
/// the operands in order.
pub proof fn channel_messages(m: cdc::Message)
    ensures
        m matches cdc::Message::HecInquireState { terminating_address1, terminating_address2 } ==>
            m.encoded() == seq![0x00u8] + terminating_address1.encoded() +
            terminating_address2.encoded(),
        m matches cdc::Message::HecReportState { target_address, state, hec_field } ==> m.encoded()
            == seq![0x01u8] + target_address.encoded() + state.encoded() + hec_field.encoded(),
        m matches cdc::Message::HecSetStateAdjacent { terminating_address, state } ==> m.encoded()
            == seq![0x02u8] + terminating_address.encoded() + state.encoded(),
        m matches cdc::Message::HecSetState { terminating_address1, terminating_address2, state,
            further_addresses } ==> m.encoded() == seq![0x03u8] + terminating_address1.encoded() +
            terminating_address2.encoded() + state.encoded() + further_addresses.encoded(),
        m matches cdc::Message::HecRequestDeactivation { terminating_address1, terminating_address2,
            terminating_address3 } ==> m.encoded() == seq![0x04u8] + terminating_address1.encoded()
            + terminating_address2.encoded() + terminating_address3.encoded(),
        m is HecNotifyAlive ==> m.encoded() == seq![0x05u8],
        m is HecDiscover ==> m.encoded() == seq![0x06u8],
        m matches cdc::Message::HpdSetState { state } ==> m.encoded() == seq![0x10u8] +
            state.encoded(),
        m matches cdc::Message::HpdReportState { state } ==> m.encoded() == seq![0x11u8] +
            state.encoded(),
{
    reveal(wire);
    if let cdc::Message::HecInquireState { terminating_address1, terminating_address2 } = m {
        assert(m.encoded() =~= seq![0x00u8] + terminating_address1.encoded() +
            terminating_address2.encoded());
    }
    if let cdc::Message::HecReportState { target_address, state, hec_field } = m {
        assert(m.encoded() =~= seq![0x01u8] + target_address.encoded() + state.encoded() +
            hec_field.encoded());
    }
    if let cdc::Message::HecSetStateAdjacent { terminating_address, state } = m {
        assert(m.encoded() =~= seq![0x02u8] + terminating_address.encoded() + state.encoded());
    }
    if let cdc::Message::HecSetState { terminating_address1, terminating_address2, state,
        further_addresses } = m {
        assert(m.encoded() =~= seq![0x03u8] + terminating_address1.encoded() +
            terminating_address2.encoded() + state.encoded() + further_addresses.encoded());
    }
    if let cdc::Message::HecRequestDeactivation { terminating_address1, terminating_address2,
        terminating_address3 } = m {
        assert(m.encoded() =~= seq![0x04u8] + terminating_address1.encoded() +
            terminating_address2.encoded() + terminating_address3.encoded());
    }
    if m is HecNotifyAlive {
        assert(m.encoded() =~= seq![0x05u8]);
    }
    if m is HecDiscover {
        assert(m.encoded() =~= seq![0x06u8]);
    }
    if let cdc::Message::HpdSetState { state } = m {
        assert(m.encoded() =~= seq![0x10u8] + state.encoded());
    }
    if let cdc::Message::HpdReportState { state } = m {
        assert(m.encoded() =~= seq![0x11u8] + state.encoded());
    }
}

/// A message that is read is of the kind that its first byte stands for.
#[verifier::rlimit(60)]
pub proof fn the_first_byte_tells_the_kind(bytes: Seq<u8>)
    ensures
        Message::decoded(bytes) matches Ok(m) ==> bytes.len() > 0 && m.encoded()[0] == bytes[0],
{
    Opcode::one_to_one();
    if bytes.len() > 0 {
        if let Some(kind) = Opcode::with_code(bytes[0]) {
            kind_stays(kind, bytes.skip(1));
            reveal(keeps_kind);
        }
    }
}

/// Whether a message that is read is of the kind that was asked for.
#[verifier::opaque]
spec fn keeps_kind(kind: Opcode, bytes: Seq<u8>) -> bool {
    Message::of_operands(kind, bytes) matches Ok(m) ==> m.kind() == kind
}

proof fn kind_stays_1(kind: Opcode, bytes: Seq<u8>)
    requires
        kind is ActiveSource || kind is ImageViewOn || kind is TextViewOn || kind is InactiveSource
            || kind is RequestActiveSource || kind is RoutingChange || kind is RoutingInformation ||
            kind is SetStreamPath || kind is Standby || kind is RecordOff,
    ensures
        keeps_kind(kind, bytes),
{
    reveal(keeps_kind);
}

proof fn kind_stays_2(kind: Opcode, bytes: Seq<u8>)
    requires
        kind is RecordOn || kind is RecordStatus || kind is RecordTvScreen || kind is
            ClearAnalogueTimer || kind is ClearDigitalTimer || kind is ClearExtTimer || kind is
            SetAnalogueTimer || kind is SetDigitalTimer || kind is SetExtTimer || kind is
            SetTimerProgramTitle,
    ensures
        keeps_kind(kind, bytes),
{
    reveal(keeps_kind);
}

proof fn kind_stays_3(kind: Opcode, bytes: Seq<u8>)
    requires
        kind is TimerClearedStatus || kind is TimerStatus || kind is CecVersion || kind is
            GetCecVersion || kind is GivePhysicalAddr || kind is GetMenuLanguage || kind is
            ReportPhysicalAddr || kind is SetMenuLanguage || kind is DeckControl || kind is
            DeckStatus,
    ensures
        keeps_kind(kind, bytes),
{
    reveal(keeps_kind);
}

proof fn kind_stays_4(kind: Opcode, bytes: Seq<u8>)
    requires
        kind is GiveDeckStatus || kind is Play || kind is GiveTunerDeviceStatus || kind is
            SelectAnalogueService || kind is SelectDigitalService || kind is TunerDeviceStatus ||
            kind is TunerStepDecrement || kind is TunerStepIncrement || kind is DeviceVendorId ||
            kind is GiveDeviceVendorId,
    ensures
        keeps_kind(kind, bytes),
{
    reveal(keeps_kind);
}

proof fn kind_stays_5(kind: Opcode, bytes: Seq<u8>)
    requires
        kind is VendorCommand || kind is VendorCommandWithId || kind is VendorRemoteButtonDown ||
            kind is VendorRemoteButtonUp || kind is SetOsdString || kind is GiveOsdName || kind is
            SetOsdName || kind is MenuRequest || kind is MenuStatus || kind is UserControlPressed,
    ensures
        keeps_kind(kind, bytes),
{
    reveal(keeps_kind);
}

proof fn kind_stays_6(kind: Opcode, bytes: Seq<u8>)
    requires
        kind is UserControlReleased || kind is GiveDevicePowerStatus || kind is ReportPowerStatus ||
            kind is FeatureAbort || kind is Abort || kind is GiveAudioStatus || kind is
            GiveSystemAudioModeStatus || kind is ReportAudioStatus || kind is
            ReportShortAudioDescriptor || kind is RequestShortAudioDescriptor,
    ensures
        keeps_kind(kind, bytes),
{
    reveal(keeps_kind);
}

proof fn kind_stays_7(kind: Opcode, bytes: Seq<u8>)
    requires
        kind is SetSystemAudioMode || kind is SystemAudioModeRequest || kind is
            SystemAudioModeStatus || kind is SetAudioRate || kind is InitiateArc || kind is
            ReportArcInitiated || kind is ReportArcTerminated || kind is RequestArcInitiation ||
            kind is RequestArcTermination || kind is TerminateArc,
    ensures
        keeps_kind(kind, bytes),
{
    reveal(keeps_kind);
}

proof fn kind_stays_8(kind: Opcode, bytes: Seq<u8>)
    requires
        kind is CdcMessage || kind is ReportFeatures || kind is GiveFeatures || kind is
            RequestCurrentLatency || kind is ReportCurrentLatency || kind is SetAudioVolumeLevel,
    ensures
        keeps_kind(kind, bytes),
{
    reveal(keeps_kind);
}

proof fn kind_stays(kind: Opcode, bytes: Seq<u8>)
    ensures
        keeps_kind(kind, bytes),
{
    if kind is ActiveSource || kind is ImageViewOn || kind is TextViewOn || kind is InactiveSource
        || kind is RequestActiveSource || kind is RoutingChange || kind is RoutingInformation ||
        kind is SetStreamPath || kind is Standby || kind is RecordOff {
        kind_stays_1(kind, bytes);
    } else if kind is RecordOn || kind is RecordStatus || kind is RecordTvScreen || kind is
        ClearAnalogueTimer || kind is ClearDigitalTimer || kind is ClearExtTimer || kind is
        SetAnalogueTimer || kind is SetDigitalTimer || kind is SetExtTimer || kind is
        SetTimerProgramTitle {
        kind_stays_2(kind, bytes);
    } else if kind is TimerClearedStatus || kind is TimerStatus || kind is CecVersion || kind is
        GetCecVersion || kind is GivePhysicalAddr || kind is GetMenuLanguage || kind is
        ReportPhysicalAddr || kind is SetMenuLanguage || kind is DeckControl || kind is DeckStatus {
        kind_stays_3(kind, bytes);
    } else if kind is GiveDeckStatus || kind is Play || kind is GiveTunerDeviceStatus || kind is
        SelectAnalogueService || kind is SelectDigitalService || kind is TunerDeviceStatus || kind
        is TunerStepDecrement || kind is TunerStepIncrement || kind is DeviceVendorId || kind is
        GiveDeviceVendorId {
        kind_stays_4(kind, bytes);
    } else if kind is VendorCommand || kind is VendorCommandWithId || kind is VendorRemoteButtonDown
        || kind is VendorRemoteButtonUp || kind is SetOsdString || kind is GiveOsdName || kind is
        SetOsdName || kind is MenuRequest || kind is MenuStatus || kind is UserControlPressed {
        kind_stays_5(kind, bytes);
    } else if kind is UserControlReleased || kind is GiveDevicePowerStatus || kind is
        ReportPowerStatus || kind is FeatureAbort || kind is Abort || kind is GiveAudioStatus ||
        kind is GiveSystemAudioModeStatus || kind is ReportAudioStatus || kind is
        ReportShortAudioDescriptor || kind is RequestShortAudioDescriptor {
        kind_stays_6(kind, bytes);
    } else if kind is SetSystemAudioMode || kind is SystemAudioModeRequest || kind is
        SystemAudioModeStatus || kind is SetAudioRate || kind is InitiateArc || kind is
        ReportArcInitiated || kind is ReportArcTerminated || kind is RequestArcInitiation || kind is
        RequestArcTermination || kind is TerminateArc {
        kind_stays_7(kind, bytes);
    } else {
        kind_stays_8(kind, bytes);
    }
}

/// Six operands, one behind the other.
proof fn six_in_order<
    A: OperandEncodable,
    B: OperandEncodable,
    C: OperandEncodable,
    D: OperandEncodable,
    E: OperandEncodable,
    F: OperandEncodable,
>(a: A, b: B, c: C, d: D, e: E, f: F)
    ensures
        wire((a, (b, (c, (d, (e, f)))))) == a.encoded() + b.encoded() + c.encoded() + d.encoded()
            + e.encoded() + f.encoded(),
{
    reveal(wire);
    assert((e, f).encoded() =~= e.encoded() + f.encoded());
    assert((d, (e, f)).encoded() =~= d.encoded() + e.encoded() + f.encoded());
    assert((c, (d, (e, f))).encoded() =~= c.encoded() + d.encoded() + e.encoded() + f.encoded());
    assert((b, (c, (d, (e, f)))).encoded() =~= b.encoded() + c.encoded() + d.encoded() + e.encoded()
        + f.encoded());
    assert((a, (b, (c, (d, (e, f))))).encoded() =~= a.encoded() + b.encoded() + c.encoded()
        + d.encoded() + e.encoded() + f.encoded());
}

} // verus!
