use linux_cec::address::{PhysicalAddress, VendorId};
use linux_cec::codec::Coded;
use linux_cec::error::{Error, Range};
use linux_cec::message::{CdcMessage, CdcOpcode, Message, Opcode};
use linux_cec::operand;

const CEC_OP_REC_SEQ_SUNDAY: u8 = 0x01;
const CEC_OP_PROG_INFO_ENOUGH_SPACE: u8 = 0x08;
const CEC_OP_PROG_INFO_NOT_ENOUGH_SPACE: u8 = 0x09;
const CEC_OP_UI_CMD_PLAY: u8 = 0x44;
const CEC_OP_ALL_DEVTYPE_PLAYBACK: u8 = 0x10;

// A message has an opcode and the bytes of its operands, and is read back from them.
fn check(opcode: Opcode, message: Message, bytes: &[u8]) {
    let mut all = vec![opcode.to_primitive()];
    all.extend_from_slice(bytes);
    assert_eq!(message.opcode(), opcode);
    assert_eq!(message.to_bytes(), all);
    assert_eq!(Message::try_from_bytes(&all), Ok(message));
}

// What follows the operands is ignored.
fn check_overfull(opcode: Opcode, message: Message, bytes: &[u8]) {
    let mut all = vec![opcode.to_primitive()];
    all.extend_from_slice(bytes);
    all.push(0xFF);
    assert_eq!(Message::try_from_bytes(&all), Ok(message));
}

// Without operands there is no message.
fn check_empty(opcode: Opcode, least: usize) {
    assert_eq!(
        Message::try_from_bytes(&[opcode.to_primitive()]),
        Err(Error::OutOfRange {
            expected: Range::AtLeast(least),
            got: 1,
            quantity: "bytes",
        })
    );
}

#[test]
fn test_active_source() {
    let opcode = Opcode::ActiveSource;
    let message = Message::ActiveSource {
        address: PhysicalAddress(0x1234),
    };
    let bytes: &[u8] = &[0x12, 0x34];
    check(opcode, message, bytes);
    check_overfull(opcode, message, bytes);
    check_empty(opcode, bytes.len() + 1);
}

#[test]
fn test_inactive_source() {
    let opcode = Opcode::InactiveSource;
    let message = Message::InactiveSource {
        address: PhysicalAddress(0x1234),
    };
    let bytes: &[u8] = &[0x12, 0x34];
    check(opcode, message, bytes);
    check_overfull(opcode, message, bytes);
    check_empty(opcode, bytes.len() + 1);
}

#[test]
fn test_routing_change() {
    let opcode = Opcode::RoutingChange;
    let message = Message::RoutingChange {
        original_address: PhysicalAddress(0x1234),
        new_address: PhysicalAddress(0x5678),
    };
    let bytes: &[u8] = &[0x12, 0x34, 0x56, 0x78];
    check(opcode, message, bytes);
    check_overfull(opcode, message, bytes);
    check_empty(opcode, bytes.len() + 1);
}

#[test]
fn test_routing_information() {
    let opcode = Opcode::RoutingInformation;
    let message = Message::RoutingInformation {
        address: PhysicalAddress(0x1234),
    };
    let bytes: &[u8] = &[0x12, 0x34];
    check(opcode, message, bytes);
    check_overfull(opcode, message, bytes);
    check_empty(opcode, bytes.len() + 1);
}

#[test]
fn test_set_stream_path() {
    let opcode = Opcode::SetStreamPath;
    let message = Message::SetStreamPath {
        address: PhysicalAddress(0x1234),
    };
    let bytes: &[u8] = &[0x12, 0x34];
    check(opcode, message, bytes);
    check_overfull(opcode, message, bytes);
    check_empty(opcode, bytes.len() + 1);
}

#[test]
fn test_record_on_own() {
    let opcode = Opcode::RecordOn;
    let message = Message::RecordOn {
        source: operand::RecordSource::Own,
    };
    let bytes: &[u8] = &[operand::RecordSourceType::Own.to_primitive()];
    check(opcode, message, bytes);
    check_overfull(opcode, message, bytes);
}

#[test]
fn test_record_on_digital() {
    let opcode = Opcode::RecordOn;
    let message = Message::RecordOn {
        source: operand::RecordSource::DigitalService(
            operand::DigitalServiceId::AribGeneric(operand::AribData {
                transport_stream_id: 0x1234,
                service_id: 0x5678,
                original_network_id: 0x9ABC,
            })
        )
    };
    let bytes: &[u8] = &[
            operand::RecordSourceType::Digital.to_primitive(),
            operand::DigitalServiceBroadcastSystem::AribGeneric.to_primitive(),
            0x12,
            0x34,
            0x56,
            0x78,
            0x9A,
            0xBC
        ];
    check(opcode, message, bytes);
    check_overfull(opcode, message, bytes);
}

#[test]
fn test_record_on_analogue() {
    let opcode = Opcode::RecordOn;
    let message = Message::RecordOn {
        source: operand::RecordSource::AnalogueService(operand::AnalogueServiceId {
            broadcast_type: operand::AnalogueBroadcastType::Satellite,
            frequency: 0x1234,
            broadcast_system: operand::BroadcastSystem::SecamL,
        })
    };
    let bytes: &[u8] = &[
            operand::RecordSourceType::Analogue.to_primitive(),
            operand::AnalogueBroadcastType::Satellite.to_primitive(),
            0x12,
            0x34,
            operand::BroadcastSystem::SecamL.to_primitive()
        ];
    check(opcode, message, bytes);
    check_overfull(opcode, message, bytes);
}

#[test]
fn test_record_status() {
    let opcode = Opcode::RecordStatus;
    let message = Message::RecordStatus {
        status: operand::RecordStatusInfo::CurrentSource
    };
    let bytes: &[u8] = &[operand::RecordStatusInfo::CurrentSource.to_primitive()];
    check(opcode, message, bytes);
    check_overfull(opcode, message, bytes);
    check_empty(opcode, bytes.len() + 1);
}

#[test]
fn test_clear_analogue_timer() {
    let opcode = Opcode::ClearAnalogueTimer;
    let message = Message::ClearAnalogueTimer {
        day_of_month: operand::DayOfMonth::Day1,
        month_of_year: operand::MonthOfYear::January,
        start_time: operand::Time {
            hour: operand::Hour::try_from(12).unwrap(),
            minute: operand::Minute::try_from(30).unwrap(),
        },
        duration: operand::Duration {
            hours: operand::DurationHours::try_from(99).unwrap(),
            minutes: operand::Minute::try_from(59).unwrap(),
        },
        recording_sequence: operand::RecordingSequence::from_bits(CEC_OP_REC_SEQ_SUNDAY),
        service_id: operand::AnalogueServiceId {
            broadcast_type: operand::AnalogueBroadcastType::Terrestrial,
            frequency: 0x1234,
            broadcast_system: operand::BroadcastSystem::NtscM
        },
    };
    let bytes: &[u8] = &[
            operand::DayOfMonth::Day1.to_primitive(),
            operand::MonthOfYear::January.to_primitive(),
            0x12,
            0x30,
            0x99,
            0x59,
            CEC_OP_REC_SEQ_SUNDAY,
            operand::AnalogueBroadcastType::Terrestrial.to_primitive(),
            0x12,
            0x34,
            operand::BroadcastSystem::NtscM.to_primitive()
        ];
    check(opcode, message, bytes);
    check_overfull(opcode, message, bytes);
    check_empty(opcode, bytes.len() + 1);
}

#[test]
fn test_clear_digital_timer() {
    let opcode = Opcode::ClearDigitalTimer;
    let message = Message::ClearDigitalTimer {
        day_of_month: operand::DayOfMonth::Day1,
        month_of_year: operand::MonthOfYear::January,
        start_time: operand::Time {
            hour: operand::Hour::try_from(12).unwrap(),
            minute: operand::Minute::try_from(30).unwrap(),
        },
        duration: operand::Duration {
            hours: operand::DurationHours::try_from(99).unwrap(),
            minutes: operand::Minute::try_from(59).unwrap(),
        },
        recording_sequence: operand::RecordingSequence::from_bits(CEC_OP_REC_SEQ_SUNDAY),
        service_id: operand::DigitalServiceId::AtscCable(
            operand::AtscData {
                transport_stream_id: 0x1234,
                program_number: 0x5678,
            }
        ),
    };
    let bytes: &[u8] = &[
            operand::DayOfMonth::Day1.to_primitive(),
            operand::MonthOfYear::January.to_primitive(),
            0x12,
            0x30,
            0x99,
            0x59,
            CEC_OP_REC_SEQ_SUNDAY,
            operand::DigitalServiceBroadcastSystem::AtscCable.to_primitive(),
            0x12,
            0x34,
            0x56,
            0x78,
            0,
            0,
        ];
    check(opcode, message, bytes);
    check_empty(opcode, bytes.len() + 1);
}

#[test]
fn test_clear_ext_timer_phys_addr() {
    let opcode = Opcode::ClearExtTimer;
    let message = Message::ClearExtTimer {
        day_of_month: operand::DayOfMonth::Day1,
        month_of_year: operand::MonthOfYear::January,
        start_time: operand::Time {
            hour: operand::Hour::try_from(12).unwrap(),
            minute: operand::Minute::try_from(30).unwrap(),
        },
        duration: operand::Duration {
            hours: operand::DurationHours::try_from(99).unwrap(),
            minutes: operand::Minute::try_from(59).unwrap(),
        },
        recording_sequence: operand::RecordingSequence::from_bits(CEC_OP_REC_SEQ_SUNDAY),
        external_source: operand::ExternalSource::PhysicalAddress(PhysicalAddress(0x1234)),
    };
    let bytes: &[u8] = &[
            operand::DayOfMonth::Day1.to_primitive(),
            operand::MonthOfYear::January.to_primitive(),
            0x12,
            0x30,
            0x99,
            0x59,
            CEC_OP_REC_SEQ_SUNDAY,
            0x12,
            0x34,
        ];
    check(opcode, message, bytes);
}

#[test]
fn test_clear_ext_timer_plug() {
    let opcode = Opcode::ClearExtTimer;
    let message = Message::ClearExtTimer {
        day_of_month: operand::DayOfMonth::Day1,
        month_of_year: operand::MonthOfYear::January,
        start_time: operand::Time {
            hour: operand::Hour::try_from(12).unwrap(),
            minute: operand::Minute::try_from(30).unwrap(),
        },
        duration: operand::Duration {
            hours: operand::DurationHours::try_from(99).unwrap(),
            minutes: operand::Minute::try_from(59).unwrap(),
        },
        recording_sequence: operand::RecordingSequence::from_bits(CEC_OP_REC_SEQ_SUNDAY),
        external_source: operand::ExternalSource::Plug(0x56),
    };
    let bytes: &[u8] = &[
            operand::DayOfMonth::Day1.to_primitive(),
            operand::MonthOfYear::January.to_primitive(),
            0x12,
            0x30,
            0x99,
            0x59,
            CEC_OP_REC_SEQ_SUNDAY,
            0x56,
        ];
    check(opcode, message, bytes);
}

#[test]
fn test_set_analogue_timer() {
    let opcode = Opcode::SetAnalogueTimer;
    let message = Message::SetAnalogueTimer {
        day_of_month: operand::DayOfMonth::Day1,
        month_of_year: operand::MonthOfYear::January,
        start_time: operand::Time {
            hour: operand::Hour::try_from(12).unwrap(),
            minute: operand::Minute::try_from(30).unwrap(),
        },
        duration: operand::Duration {
            hours: operand::DurationHours::try_from(99).unwrap(),
            minutes: operand::Minute::try_from(59).unwrap(),
        },
        recording_sequence: operand::RecordingSequence::from_bits(CEC_OP_REC_SEQ_SUNDAY),
        service_id: operand::AnalogueServiceId {
            broadcast_type: operand::AnalogueBroadcastType::Terrestrial,
            frequency: 0x1234,
            broadcast_system: operand::BroadcastSystem::NtscM
        },
    };
    let bytes: &[u8] = &[
            operand::DayOfMonth::Day1.to_primitive(),
            operand::MonthOfYear::January.to_primitive(),
            0x12,
            0x30,
            0x99,
            0x59,
            CEC_OP_REC_SEQ_SUNDAY,
            operand::AnalogueBroadcastType::Terrestrial.to_primitive(),
            0x12,
            0x34,
            operand::BroadcastSystem::NtscM.to_primitive()
        ];
    check(opcode, message, bytes);
    check_overfull(opcode, message, bytes);
    check_empty(opcode, bytes.len() + 1);
}

#[test]
fn test_set_digital_timer() {
    let opcode = Opcode::SetDigitalTimer;
    let message = Message::SetDigitalTimer {
        day_of_month: operand::DayOfMonth::Day1,
        month_of_year: operand::MonthOfYear::January,
        start_time: operand::Time {
            hour: operand::Hour::try_from(12).unwrap(),
            minute: operand::Minute::try_from(30).unwrap(),
        },
        duration: operand::Duration {
            hours: operand::DurationHours::try_from(99).unwrap(),
            minutes: operand::Minute::try_from(59).unwrap(),
        },
        recording_sequence: operand::RecordingSequence::from_bits(CEC_OP_REC_SEQ_SUNDAY),
        service_id: operand::DigitalServiceId::AtscCable(
            operand::AtscData {
                transport_stream_id: 0x1234,
                program_number: 0x5678,
            }
        ),
    };
    let bytes: &[u8] = &[
            operand::DayOfMonth::Day1.to_primitive(),
            operand::MonthOfYear::January.to_primitive(),
            0x12,
            0x30,
            0x99,
            0x59,
            CEC_OP_REC_SEQ_SUNDAY,
            operand::DigitalServiceBroadcastSystem::AtscCable.to_primitive(),
            0x12,
            0x34,
            0x56,
            0x78,
            0,
            0,
        ];
    check(opcode, message, bytes);
    check_empty(opcode, bytes.len() + 1);
}

#[test]
fn test_set_ext_timer_phys_addr() {
    let opcode = Opcode::SetExtTimer;
    let message = Message::SetExtTimer {
        day_of_month: operand::DayOfMonth::Day1,
        month_of_year: operand::MonthOfYear::January,
        start_time: operand::Time {
            hour: operand::Hour::try_from(12).unwrap(),
            minute: operand::Minute::try_from(30).unwrap(),
        },
        duration: operand::Duration {
            hours: operand::DurationHours::try_from(99).unwrap(),
            minutes: operand::Minute::try_from(59).unwrap(),
        },
        recording_sequence: operand::RecordingSequence::from_bits(CEC_OP_REC_SEQ_SUNDAY),
        external_source: operand::ExternalSource::PhysicalAddress(PhysicalAddress(0x1234)),
    };
    let bytes: &[u8] = &[
            operand::DayOfMonth::Day1.to_primitive(),
            operand::MonthOfYear::January.to_primitive(),
            0x12,
            0x30,
            0x99,
            0x59,
            CEC_OP_REC_SEQ_SUNDAY,
            0x12,
            0x34,
        ];
    check(opcode, message, bytes);
}

#[test]
fn test_set_ext_timer_plug() {
    let opcode = Opcode::SetExtTimer;
    let message = Message::SetExtTimer {
        day_of_month: operand::DayOfMonth::Day1,
        month_of_year: operand::MonthOfYear::January,
        start_time: operand::Time {
            hour: operand::Hour::try_from(12).unwrap(),
            minute: operand::Minute::try_from(30).unwrap(),
        },
        duration: operand::Duration {
            hours: operand::DurationHours::try_from(99).unwrap(),
            minutes: operand::Minute::try_from(59).unwrap(),
        },
        recording_sequence: operand::RecordingSequence::from_bits(CEC_OP_REC_SEQ_SUNDAY),
        external_source: operand::ExternalSource::Plug(0x56),
    };
    let bytes: &[u8] = &[
            operand::DayOfMonth::Day1.to_primitive(),
            operand::MonthOfYear::January.to_primitive(),
            0x12,
            0x30,
            0x99,
            0x59,
            CEC_OP_REC_SEQ_SUNDAY,
            0x56,
        ];
    check(opcode, message, bytes);
}

#[test]
fn test_set_timer_program_title_empty() {
    let opcode = Opcode::SetTimerProgramTitle;
    let message = Message::SetTimerProgramTitle {
        title: operand::BufferOperand::from_str("").unwrap(),
    };
    let bytes: &[u8] = &[];
    check(opcode, message, bytes);
}

#[test]
fn test_set_timer_program_title_full() {
    let opcode = Opcode::SetTimerProgramTitle;
    let message = Message::SetTimerProgramTitle {
        title: operand::BufferOperand::from_str("12345678901234").unwrap(),
    };
    let bytes: &[u8] = &[
            0x31, 0x32, 0x33, 0x34, 0x35, 0x36, 0x37, 0x38, 0x39, 0x30, 0x31, 0x32, 0x33,
            0x34,
        ];
    check(opcode, message, bytes);
}

#[test]
fn test_timer_cleared_status() {
    let opcode = Opcode::TimerClearedStatus;
    let message = Message::TimerClearedStatus {
        status: operand::TimerClearedStatusData::Cleared,
    };
    let bytes: &[u8] = &[operand::TimerClearedStatusData::Cleared.to_primitive()];
    check(opcode, message, bytes);
    check_overfull(opcode, message, bytes);
    check_empty(opcode, bytes.len() + 1);
}

#[test]
fn test_timer_status() {
    let opcode = Opcode::TimerStatus;
    let message = Message::TimerStatus {
        status: operand::TimerStatusData {
            overlap_warning: false,
            media_info: operand::MediaInfo::UnprotectedMedia,
            programmed_info: operand::TimerProgrammedInfo::Programmed(operand::ProgrammedInfo::EnoughSpace),
        },
    };
    let bytes: &[u8] = &[(operand::MediaInfo::UnprotectedMedia.to_primitive()) | 0x10 | CEC_OP_PROG_INFO_ENOUGH_SPACE];
    check(opcode, message, bytes);
    check_overfull(opcode, message, bytes);
    check_empty(opcode, bytes.len() + 1);
}

#[test]
fn test_timer_status_no_duration() {
    let opcode = Opcode::TimerStatus;
    let message = Message::TimerStatus {
        status: operand::TimerStatusData {
            overlap_warning: false,
            media_info: operand::MediaInfo::UnprotectedMedia,
            programmed_info: operand::TimerProgrammedInfo::Programmed(operand::ProgrammedInfo::NotEnoughSpace {
                duration_available: None,
            }),
        },
    };
    let bytes: &[u8] = &[(operand::MediaInfo::UnprotectedMedia.to_primitive()) | 0x10 | CEC_OP_PROG_INFO_NOT_ENOUGH_SPACE];
    check(opcode, message, bytes);
}

#[test]
fn test_timer_status_duration() {
    let opcode = Opcode::TimerStatus;
    let message = Message::TimerStatus {
        status: operand::TimerStatusData {
            overlap_warning: false,
            media_info: operand::MediaInfo::UnprotectedMedia,
            programmed_info: operand::TimerProgrammedInfo::Programmed(operand::ProgrammedInfo::NotEnoughSpace {
                duration_available: Some(operand::Duration {
                    hours: operand::DurationHours::try_from(30).unwrap(),
                    minutes: operand::Minute::try_from(45).unwrap(),
                }),
            }),
        },
    };
    let bytes: &[u8] = &[
            (operand::MediaInfo::UnprotectedMedia.to_primitive()) | 0x10 | CEC_OP_PROG_INFO_NOT_ENOUGH_SPACE,
            0x30,
            0x45
        ];
    check(opcode, message, bytes);
    check_overfull(opcode, message, bytes);
}

#[test]
fn test_cec_version() {
    let opcode = Opcode::CecVersion;
    let message = Message::CecVersion {
        version: operand::Version::V2_0,
    };
    let bytes: &[u8] = &[operand::Version::V2_0.to_primitive()];
    check(opcode, message, bytes);
    check_overfull(opcode, message, bytes);
    check_empty(opcode, bytes.len() + 1);
}

#[test]
fn test_report_physical_addr() {
    let opcode = Opcode::ReportPhysicalAddr;
    let message = Message::ReportPhysicalAddr {
        physical_address: PhysicalAddress(0x1234),
        device_type: operand::PrimaryDeviceType::Processor,
    };
    let bytes: &[u8] = &[0x12, 0x34, operand::PrimaryDeviceType::Processor.to_primitive()];
    check(opcode, message, bytes);
    check_overfull(opcode, message, bytes);
    check_empty(opcode, bytes.len() + 1);
}

#[test]
fn test_set_menu_language() {
    let opcode = Opcode::SetMenuLanguage;
    let message = Message::SetMenuLanguage {
        language: [0x12, 0x34, 0x56],
    };
    let bytes: &[u8] = &[0x12, 0x34, 0x56];
    check(opcode, message, bytes);
    check_overfull(opcode, message, bytes);
    check_empty(opcode, bytes.len() + 1);
}

#[test]
fn test_deck_control() {
    let opcode = Opcode::DeckControl;
    let message = Message::DeckControl {
        mode: operand::DeckControlMode::Stop,
    };
    let bytes: &[u8] = &[operand::DeckControlMode::Stop.to_primitive()];
    check(opcode, message, bytes);
    check_overfull(opcode, message, bytes);
    check_empty(opcode, bytes.len() + 1);
}

#[test]
fn test_deck_status() {
    let opcode = Opcode::DeckStatus;
    let message = Message::DeckStatus {
        info: operand::DeckInfo::Record,
    };
    let bytes: &[u8] = &[operand::DeckInfo::Record.to_primitive()];
    check(opcode, message, bytes);
    check_overfull(opcode, message, bytes);
    check_empty(opcode, bytes.len() + 1);
}

#[test]
fn test_give_deck_status() {
    let opcode = Opcode::GiveDeckStatus;
    let message = Message::GiveDeckStatus {
        request: operand::StatusRequest::Once,
    };
    let bytes: &[u8] = &[operand::StatusRequest::Once.to_primitive()];
    check(opcode, message, bytes);
    check_overfull(opcode, message, bytes);
    check_empty(opcode, bytes.len() + 1);
}

#[test]
fn test_play() {
    let opcode = Opcode::Play;
    let message = Message::Play {
        mode: operand::PlayMode::Still,
    };
    let bytes: &[u8] = &[operand::PlayMode::Still.to_primitive()];
    check(opcode, message, bytes);
    check_overfull(opcode, message, bytes);
    check_empty(opcode, bytes.len() + 1);
}

#[test]
fn test_give_tuner_device_status() {
    let opcode = Opcode::GiveTunerDeviceStatus;
    let message = Message::GiveTunerDeviceStatus {
        request: operand::StatusRequest::Once,
    };
    let bytes: &[u8] = &[operand::StatusRequest::Once.to_primitive()];
    check(opcode, message, bytes);
    check_overfull(opcode, message, bytes);
    check_empty(opcode, bytes.len() + 1);
}

#[test]
fn test_select_analogue_service() {
    let opcode = Opcode::SelectAnalogueService;
    let message = Message::SelectAnalogueService {
        service_id: operand::AnalogueServiceId {
            broadcast_type: operand::AnalogueBroadcastType::Terrestrial,
            frequency: 0x1234,
            broadcast_system: operand::BroadcastSystem::PalBG,
        },
    };
    let bytes: &[u8] = &[
            operand::AnalogueBroadcastType::Terrestrial.to_primitive(),
            0x12,
            0x34,
            operand::BroadcastSystem::PalBG.to_primitive()
        ];
    check(opcode, message, bytes);
    check_overfull(opcode, message, bytes);
    check_empty(opcode, bytes.len() + 1);
}

#[test]
fn test_select_digital_service() {
    let opcode = Opcode::SelectDigitalService;
    let message = Message::SelectDigitalService {
        service_id: operand::DigitalServiceId::AribGeneric(operand::AribData {
            transport_stream_id: 0x1234,
            service_id: 0x5678,
            original_network_id: 0xABCD,
        }),
    };
    let bytes: &[u8] = &[
            operand::DigitalServiceBroadcastSystem::AribGeneric.to_primitive(),
            0x12,
            0x34,
            0x56,
            0x78,
            0xAB,
            0xCD,
        ];
    check(opcode, message, bytes);
    check_overfull(opcode, message, bytes);
    check_empty(opcode, bytes.len() + 1);
}

#[test]
fn test_tuner_device_status() {
    let opcode = Opcode::TunerDeviceStatus;
    let message = Message::TunerDeviceStatus {
        info: operand::TunerDeviceInfo {
            recording: true,
            tuner_display_info: operand::TunerDisplayInfo::Analogue,
            service_id: operand::ServiceId::Analogue(operand::AnalogueServiceId {
                broadcast_type: operand::AnalogueBroadcastType::Terrestrial,
                frequency: 0x1234,
                broadcast_system: operand::BroadcastSystem::PalBG,
            }),
        },
    };
    let bytes: &[u8] = &[
            0x82,
            operand::AnalogueBroadcastType::Terrestrial.to_primitive(),
            0x12,
            0x34,
            operand::BroadcastSystem::PalBG.to_primitive()
        ];
    check(opcode, message, bytes);
    check_empty(opcode, bytes.len() + 1);
}

#[test]
fn test_device_vendor_id() {
    let opcode = Opcode::DeviceVendorId;
    let message = Message::DeviceVendorId {
        vendor_id: VendorId([0x12, 0x34, 0x56]),
    };
    let bytes: &[u8] = &[0x12, 0x34, 0x56];
    check(opcode, message, bytes);
    check_overfull(opcode, message, bytes);
    check_empty(opcode, bytes.len() + 1);
}

#[test]
fn test_vendor_command_empty() {
    let opcode = Opcode::VendorCommand;
    let message = Message::VendorCommand {
        command: operand::BufferOperand::from_str("").unwrap(),
    };
    let bytes: &[u8] = &[];
    check(opcode, message, bytes);
}

#[test]
fn test_vendor_command_full() {
    let opcode = Opcode::VendorCommand;
    let message = Message::VendorCommand {
        command: operand::BufferOperand::from_str("12345678901234").unwrap(),
    };
    let bytes: &[u8] = &[
            0x31, 0x32, 0x33, 0x34, 0x35, 0x36, 0x37, 0x38, 0x39, 0x30, 0x31, 0x32, 0x33,
            0x34,
        ];
    check(opcode, message, bytes);
}

#[test]
fn test_vendor_command_with_id_empty() {
    let opcode = Opcode::VendorCommandWithId;
    let message = Message::VendorCommandWithId {
        vendor_id: VendorId([0x12, 0x34, 0x56]),
        vendor_specific_data: operand::BoundedBufferOperand::<11, u8>::from_str("").unwrap(),
    };
    let bytes: &[u8] = &[0x12, 0x34, 0x56];
    check(opcode, message, bytes);
}

#[test]
fn test_vendor_command_with_id_full() {
    let opcode = Opcode::VendorCommandWithId;
    let message = Message::VendorCommandWithId {
        vendor_id: VendorId([0x12, 0x34, 0x56]),
        vendor_specific_data: operand::BoundedBufferOperand::<11, u8>::from_str("12345678901").unwrap(),
    };
    let bytes: &[u8] = &[
            0x12,
            0x34,
            0x56,
            b'1',
            b'2',
            b'3',
            b'4',
            b'5',
            b'6',
            b'7',
            b'8',
            b'9',
            b'0',
            b'1',
        ];
    check(opcode, message, bytes);
}

#[test]
fn test_vendor_remote_button_down_empty() {
    let opcode = Opcode::VendorRemoteButtonDown;
    let message = Message::VendorRemoteButtonDown {
        rc_code: operand::BufferOperand::from_str("").unwrap(),
    };
    let bytes: &[u8] = &[];
    check(opcode, message, bytes);
}

#[test]
fn test_vendor_remote_button_down_full() {
    let opcode = Opcode::VendorRemoteButtonDown;
    let message = Message::VendorRemoteButtonDown {
        rc_code: operand::BufferOperand::from_str("12345678901234").unwrap(),
    };
    let bytes: &[u8] = &[
            0x31, 0x32, 0x33, 0x34, 0x35, 0x36, 0x37, 0x38, 0x39, 0x30, 0x31, 0x32, 0x33,
            0x34,
        ];
    check(opcode, message, bytes);
}

#[test]
fn test_set_osd_string_empty() {
    let opcode = Opcode::SetOsdString;
    let message = Message::SetOsdString {
        display_control: operand::DisplayControl::UntilCleared,
        osd_string: operand::BoundedBufferOperand::<13, u8>::from_str("").unwrap(),
    };
    let bytes: &[u8] = &[operand::DisplayControl::UntilCleared.to_primitive()];
    check(opcode, message, bytes);
}

#[test]
fn test_set_osd_string_full() {
    let opcode = Opcode::SetOsdString;
    let message = Message::SetOsdString {
        display_control: operand::DisplayControl::UntilCleared,
        osd_string: operand::BoundedBufferOperand::<13, u8>::from_str("1234567890123").unwrap(),
    };
    let bytes: &[u8] = &[
            operand::DisplayControl::UntilCleared.to_primitive(),
            b'1',
            b'2',
            b'3',
            b'4',
            b'5',
            b'6',
            b'7',
            b'8',
            b'9',
            b'0',
            b'1',
            b'2',
            b'3',
        ];
    check(opcode, message, bytes);
}

#[test]
fn test_set_osd_name_empty() {
    let opcode = Opcode::SetOsdName;
    let message = Message::SetOsdName {
        name: operand::BufferOperand::from_str("").unwrap(),
    };
    let bytes: &[u8] = &[];
    check(opcode, message, bytes);
}

#[test]
fn test_set_osd_name_full() {
    let opcode = Opcode::SetOsdName;
    let message = Message::SetOsdName {
        name: operand::BufferOperand::from_str("12345678901234").unwrap(),
    };
    let bytes: &[u8] = &[
            0x31, 0x32, 0x33, 0x34, 0x35, 0x36, 0x37, 0x38, 0x39, 0x30, 0x31, 0x32, 0x33,
            0x34,
        ];
    check(opcode, message, bytes);
}

#[test]
fn test_menu_request() {
    let opcode = Opcode::MenuRequest;
    let message = Message::MenuRequest {
        request_type: operand::MenuRequestType::Query,
    };
    let bytes: &[u8] = &[operand::MenuRequestType::Query.to_primitive()];
    check(opcode, message, bytes);
    check_overfull(opcode, message, bytes);
    check_empty(opcode, bytes.len() + 1);
}

#[test]
fn test_menu_state() {
    let opcode = Opcode::MenuStatus;
    let message = Message::MenuStatus {
        state: operand::MenuState::Deactivated,
    };
    let bytes: &[u8] = &[operand::MenuState::Deactivated.to_primitive()];
    check(opcode, message, bytes);
    check_overfull(opcode, message, bytes);
    check_empty(opcode, bytes.len() + 1);
}

#[test]
fn test_user_control_pressed() {
    let opcode = Opcode::UserControlPressed;
    let message = Message::UserControlPressed {
        ui_command: operand::UiCommand::Play,
    };
    let bytes: &[u8] = &[CEC_OP_UI_CMD_PLAY];
    check(opcode, message, bytes);
    check_overfull(opcode, message, bytes);
    check_empty(opcode, bytes.len() + 1);
}

#[test]
fn test_report_power_status() {
    let opcode = Opcode::ReportPowerStatus;
    let message = Message::ReportPowerStatus {
        status: operand::PowerStatus::ToOn,
    };
    let bytes: &[u8] = &[operand::PowerStatus::ToOn.to_primitive()];
    check(opcode, message, bytes);
    check_overfull(opcode, message, bytes);
    check_empty(opcode, bytes.len() + 1);
}

#[test]
fn test_feature_abort() {
    let opcode = Opcode::FeatureAbort;
    let message = Message::FeatureAbort {
        opcode: Opcode::FeatureAbort.to_primitive(),
        abort_reason: operand::AbortReason::IncorrectMode,
    };
    let bytes: &[u8] = &[Opcode::FeatureAbort.to_primitive(), operand::AbortReason::IncorrectMode.to_primitive()];
    check(opcode, message, bytes);
    check_overfull(opcode, message, bytes);
    check_empty(opcode, bytes.len() + 1);
}

#[test]
fn test_report_audio_status() {
    let opcode = Opcode::ReportAudioStatus;
    let message = Message::ReportAudioStatus {
        status: operand::AudioStatus::new().with_volume(2).with_mute(true),
    };
    let bytes: &[u8] = &[0x82];
    check(opcode, message, bytes);
    check_overfull(opcode, message, bytes);
    check_empty(opcode, bytes.len() + 1);
}

#[test]
fn test_report_short_audio_descriptor_empty() {
    let opcode = Opcode::ReportShortAudioDescriptor;
    let message = Message::ReportShortAudioDescriptor {
        descriptors: operand::BoundedBufferOperand::default(),
    };
    let bytes: &[u8] = &[];
    check(opcode, message, bytes);
}

#[test]
fn test_report_short_audio_descriptor_full() {
    let opcode = Opcode::ReportShortAudioDescriptor;
    let message = Message::ReportShortAudioDescriptor {
        descriptors: operand::BoundedBufferOperand::try_from(&[
            [0x01, 0x23, 0x45],
            [0x67, 0x89, 0xAB],
            [0xCD, 0xEF, 0xFE],
            [0xDC, 0xBA, 0x98]
        ].as_ref())
        .unwrap(),
    };
    let bytes: &[u8] = &[
            0x01,
            0x23,
            0x45,
            0x67,
            0x89,
            0xAB,
            0xCD,
            0xEF,
            0xFE,
            0xDC,
            0xBA,
            0x98,
        ];
    check(opcode, message, bytes);
}

#[test]
fn test_request_short_audio_descriptor_empty() {
    let opcode = Opcode::RequestShortAudioDescriptor;
    let message = Message::RequestShortAudioDescriptor {
        descriptors: operand::BoundedBufferOperand::default(),
    };
    let bytes: &[u8] = &[];
    check(opcode, message, bytes);
}

#[test]
fn test_request_short_audio_descriptor_full() {
    let opcode = Opcode::RequestShortAudioDescriptor;
    let message = Message::RequestShortAudioDescriptor {
        descriptors: operand::BoundedBufferOperand::try_from(&[
            operand::AudioFormatIdAndCode::new()
                .with_code(1)
                .with_id(operand::AudioFormatId::CEA861),
            operand::AudioFormatIdAndCode::new()
                .with_code(2)
                .with_id(operand::AudioFormatId::CEA861),
            operand::AudioFormatIdAndCode::new()
                .with_code(3)
                .with_id(operand::AudioFormatId::CEA861Cxt),
            operand::AudioFormatIdAndCode::new()
                .with_code(4)
                .with_id(operand::AudioFormatId::CEA861Cxt),
        ].as_ref())
        .unwrap(),
    };
    let bytes: &[u8] = &[0x01, 0x02, 0x43, 0x44];
    check(opcode, message, bytes);
}

#[test]
fn test_set_system_audio_mode() {
    let opcode = Opcode::SetSystemAudioMode;
    let message = Message::SetSystemAudioMode {
        status: true,
    };
    let bytes: &[u8] = &[0x01];
    check(opcode, message, bytes);
    check_overfull(opcode, message, bytes);
    check_empty(opcode, bytes.len() + 1);
}

#[test]
fn test_system_audio_mode_request() {
    let opcode = Opcode::SystemAudioModeRequest;
    let message = Message::SystemAudioModeRequest {
        physical_address: PhysicalAddress(0x1234),
    };
    let bytes: &[u8] = &[0x12, 0x34];
    check(opcode, message, bytes);
    check_overfull(opcode, message, bytes);
    check_empty(opcode, bytes.len() + 1);
}

#[test]
fn test_system_audio_mode_status() {
    let opcode = Opcode::SystemAudioModeStatus;
    let message = Message::SystemAudioModeStatus {
        status: true,
    };
    let bytes: &[u8] = &[0x01];
    check(opcode, message, bytes);
    check_overfull(opcode, message, bytes);
    check_empty(opcode, bytes.len() + 1);
}

#[test]
fn test_set_audio_rate() {
    let opcode = Opcode::SetAudioRate;
    let message = Message::SetAudioRate {
        audio_rate: operand::AudioRate::WideFast,
    };
    let bytes: &[u8] = &[operand::AudioRate::WideFast.to_primitive()];
    check(opcode, message, bytes);
    check_overfull(opcode, message, bytes);
    check_empty(opcode, bytes.len() + 1);
}

#[test]
fn test_cdc_message() {
    let opcode = Opcode::CdcMessage;
    let message = Message::CdcMessage {
        initiator: PhysicalAddress(0x0123),
        message: CdcMessage::HecRequestDeactivation {
            terminating_address1: PhysicalAddress(0x4567),
            terminating_address2: PhysicalAddress(0x89AB),
            terminating_address3: PhysicalAddress(0xCDEF)
        },
    };
    let bytes: &[u8] = &[0x01, 0x23, CdcOpcode::HecRequestDeactivation.to_primitive(), 0x45, 0x67, 0x89, 0xAB, 0xCD, 0xEF];
    check(opcode, message, bytes);
    check_overfull(opcode, message, bytes);
    check_empty(opcode, 4);
}

#[test]
fn test_report_features_empty() {
    let opcode = Opcode::ReportFeatures;
    let message = Message::ReportFeatures {
        version: operand::Version::V2_0,
        device_types: operand::AllDeviceTypes::from_bits(CEC_OP_ALL_DEVTYPE_PLAYBACK),
        rc_profile: operand::RcProfile::new(
            operand::RcProfile1::Source(operand::RcProfileSource::all())),
        device_features: operand::DeviceFeatures::new(operand::DeviceFeatures1::all()),
    };
    let bytes: &[u8] = &[
            operand::Version::V2_0.to_primitive(),
            operand::AllDeviceTypes::from_bits(CEC_OP_ALL_DEVTYPE_PLAYBACK).bits(),
            operand::RcProfileSource::all().bits(),
            operand::DeviceFeatures1::all().bits()
        ];
    check(opcode, message, bytes);
    check_overfull(opcode, message, bytes);
}

#[test]
fn test_report_features_extra_rc_profiles() {
    let opcode = Opcode::ReportFeatures;
    let message = Message::ReportFeatures {
        version: operand::Version::V2_0,
        device_types: operand::AllDeviceTypes::from_bits(CEC_OP_ALL_DEVTYPE_PLAYBACK),
        rc_profile: operand::RcProfile {
            rc_profile_1: operand::RcProfile1::Source(operand::RcProfileSource::all()),
            rc_profile_n: operand::BoundedBufferOperand::try_from(&[
                0,
                0,
                0,
                0,
                0,
                0,
                0,
                0,
                0
            ].as_ref()).unwrap(),
        },
        device_features: operand::DeviceFeatures::new(operand::DeviceFeatures1::all()),
    };
    let bytes: &[u8] = &[
            operand::Version::V2_0.to_primitive(),
            operand::AllDeviceTypes::from_bits(CEC_OP_ALL_DEVTYPE_PLAYBACK).bits(),
            operand::RcProfileSource::all().bits() | 0x80,
            0x80,
            0x80,
            0x80,
            0x80,
            0x80,
            0x80,
            0x80,
            0x80,
            0x0,
            operand::DeviceFeatures1::all().bits()
        ];
    check(opcode, message, bytes);
}

#[test]
fn test_report_features_extra_device_features() {
    let opcode = Opcode::ReportFeatures;
    let message = Message::ReportFeatures {
        version: operand::Version::V2_0,
        device_types: operand::AllDeviceTypes::from_bits(CEC_OP_ALL_DEVTYPE_PLAYBACK),
        rc_profile: operand::RcProfile::new(operand::RcProfile1::Source(operand::RcProfileSource::all())),
        device_features: operand::DeviceFeatures {
            device_features_1: operand::DeviceFeatures1::all(),
            device_features_n: operand::BoundedBufferOperand::try_from(&[
                0,
                0,
                0,
                0,
                0,
                0,
                0,
                0,
                0
            ].as_ref()).unwrap(),
        },
    };
    let bytes: &[u8] = &[
            operand::Version::V2_0.to_primitive(),
            operand::AllDeviceTypes::from_bits(CEC_OP_ALL_DEVTYPE_PLAYBACK).bits(),
            operand::RcProfileSource::all().bits(),
            operand::DeviceFeatures1::all().bits() | 0x80,
            0x80,
            0x80,
            0x80,
            0x80,
            0x80,
            0x80,
            0x80,
            0x80,
            0x0,
        ];
    check(opcode, message, bytes);
}

#[test]
fn test_report_features_balanced() {
    let opcode = Opcode::ReportFeatures;
    let message = Message::ReportFeatures {
        version: operand::Version::V2_0,
        device_types: operand::AllDeviceTypes::from_bits(CEC_OP_ALL_DEVTYPE_PLAYBACK),
        rc_profile: operand::RcProfile {
            rc_profile_1: operand::RcProfile1::Source(operand::RcProfileSource::all()),
            rc_profile_n: operand::BoundedBufferOperand::try_from(&[
                0,
                0,
                0,
                0,
                0
            ].as_ref()).unwrap(),
        },
        device_features: operand::DeviceFeatures {
            device_features_1: operand::DeviceFeatures1::all(),
            device_features_n: operand::BoundedBufferOperand::try_from(&[
                0,
                0,
                0,
                0,
                0
            ].as_ref()).unwrap(),
        },
    };
    let bytes: &[u8] = &[
            operand::Version::V2_0.to_primitive(),
            operand::AllDeviceTypes::from_bits(CEC_OP_ALL_DEVTYPE_PLAYBACK).bits(),
            operand::RcProfileSource::all().bits() | 0x80,
            0x80,
            0x80,
            0x80,
            0x80,
            0x0,
            operand::DeviceFeatures1::all().bits() | 0x80,
            0x80,
            0x80,
            0x80,
            0x80,
            0x0,
        ];
    check(opcode, message, bytes);
}

#[test]
fn test_request_current_latency() {
    let opcode = Opcode::RequestCurrentLatency;
    let message = Message::RequestCurrentLatency {
        physical_address: PhysicalAddress(0x1234),
    };
    let bytes: &[u8] = &[0x12, 0x34];
    check(opcode, message, bytes);
    check_overfull(opcode, message, bytes);
    check_empty(opcode, bytes.len() + 1);
}

#[test]
fn test_report_current_latency() {
    let opcode = Opcode::ReportCurrentLatency;
    let message = Message::ReportCurrentLatency {
        physical_address: PhysicalAddress(0x1234),
        video_latency: operand::Delay::try_from(0x56).unwrap(),
        flags: operand::LatencyFlags::new()
            .with_audio_out_compensated(operand::AudioOutputCompensated::PartialDelay)
            .with_low_latency_mode(true),
        audio_output_delay: Some(operand::Delay::try_from(0x78).unwrap()),
    };
    let bytes: &[u8] = &[0x12, 0x34, 0x56, 0x07, 0x78];
    check(opcode, message, bytes);
    check_overfull(opcode, message, bytes);
    check_empty(opcode, 5);
}

#[test]
fn test_report_current_latency_no_delay() {
    let opcode = Opcode::ReportCurrentLatency;
    let message = Message::ReportCurrentLatency {
        physical_address: PhysicalAddress(0x1234),
        video_latency: operand::Delay::try_from(0x56).unwrap(),
        flags: operand::LatencyFlags::new()
            .with_audio_out_compensated(operand::AudioOutputCompensated::NoDelay)
            .with_low_latency_mode(true),
        audio_output_delay: None,
    };
    let bytes: &[u8] = &[0x12, 0x34, 0x56, 0x06];
    check(opcode, message, bytes);
}

#[test]
fn message_test_decoding_missing_byte() {
    assert_eq!(
        Message::try_from_bytes(&[Opcode::ActiveSource.to_primitive(), 0x12]),
        Err(Error::OutOfRange {
            expected: Range::AtLeast(3),
            got: 2,
            quantity: "bytes",
        })
    );

    assert_eq!(
        Message::try_from_bytes(&[Opcode::InactiveSource.to_primitive(), 0x12]),
        Err(Error::OutOfRange {
            expected: Range::AtLeast(3),
            got: 2,
            quantity: "bytes",
        })
    );

    assert_eq!(
        Message::try_from_bytes(&[Opcode::RoutingChange.to_primitive(), 0x12, 0x34, 0x56]),
        Err(Error::OutOfRange {
            expected: Range::AtLeast(5),
            got: 4,
            quantity: "bytes",
        })
    );

    assert_eq!(
        Message::try_from_bytes(&[Opcode::RoutingInformation.to_primitive(), 0x12]),
        Err(Error::OutOfRange {
            expected: Range::AtLeast(3),
            got: 2,
            quantity: "bytes",
        })
    );

    assert_eq!(
        Message::try_from_bytes(&[Opcode::SetStreamPath.to_primitive(), 0x12]),
        Err(Error::OutOfRange {
            expected: Range::AtLeast(3),
            got: 2,
            quantity: "bytes",
        })
    );

    assert_eq!(
        Message::try_from_bytes(&[Opcode::SetMenuLanguage.to_primitive(), 0x12, 0x34]),
        Err(Error::OutOfRange {
            expected: Range::AtLeast(4),
            got: 3,
            quantity: "bytes",
        })
    );

    assert_eq!(
        Message::try_from_bytes(&[Opcode::SystemAudioModeRequest.to_primitive(), 0x12]),
        Err(Error::OutOfRange {
            expected: Range::AtLeast(3),
            got: 2,
            quantity: "bytes",
        })
    );

    assert_eq!(
        Message::try_from_bytes(&[Opcode::RequestCurrentLatency.to_primitive(), 0x12]),
        Err(Error::OutOfRange {
            expected: Range::AtLeast(3),
            got: 2,
            quantity: "bytes",
        })
    );

}

#[test]
fn message_test_decoding_missing_operand() {
    assert_eq!(
        Message::try_from_bytes(&[Opcode::RoutingChange.to_primitive(), 0x12, 0x34]),
        Err(Error::OutOfRange {
            expected: Range::AtLeast(5),
            got: 3,
            quantity: "bytes",
        })
    );

    assert_eq!(
        Message::try_from_bytes(&[Opcode::ReportPhysicalAddr.to_primitive(), 0x12, 0x34]),
        Err(Error::OutOfRange {
            expected: Range::AtLeast(4),
            got: 3,
            quantity: "bytes",
        })
    );

    assert_eq!(
        Message::try_from_bytes(&[Opcode::VendorCommandWithId.to_primitive()]),
        Err(Error::OutOfRange {
            expected: Range::AtLeast(4),
            got: 1,
            quantity: "bytes",
        })
    );

    assert_eq!(
        Message::try_from_bytes(&[Opcode::SetOsdString.to_primitive()]),
        Err(Error::OutOfRange {
            expected: Range::AtLeast(2),
            got: 1,
            quantity: "bytes",
        })
    );

    assert_eq!(
        Message::try_from_bytes(&[Opcode::FeatureAbort.to_primitive(), Opcode::FeatureAbort.to_primitive()]),
        Err(Error::OutOfRange {
            expected: Range::AtLeast(3),
            got: 2,
            quantity: "bytes",
        })
    );

    assert_eq!(
        Message::try_from_bytes(&[
            Opcode::CdcMessage.to_primitive(),
            0x01,
            0x23,
            CdcOpcode::HecRequestDeactivation.to_primitive()
        ]),
        Err(Error::OutOfRange {
            expected: Range::AtLeast(10),
            got: 4,
            quantity: "bytes",
        })
    );

}

#[test]
fn message_test_decoding_missing_operand_and_byte() {
    assert_eq!(
        Message::try_from_bytes(&[Opcode::RoutingChange.to_primitive(), 0x12]),
        Err(Error::OutOfRange {
            expected: Range::AtLeast(5),
            got: 2,
            quantity: "bytes",
        })
    );

    assert_eq!(
        Message::try_from_bytes(&[Opcode::ReportPhysicalAddr.to_primitive(), 0x12]),
        Err(Error::OutOfRange {
            expected: Range::AtLeast(4),
            got: 2,
            quantity: "bytes",
        })
    );

}

#[test]
fn test_decode_missing_operands() {
    assert_eq!(
        Message::try_from_bytes(&[Opcode::RecordOn.to_primitive()]),
        Err(Error::OutOfRange {
            expected: Range::AtLeast(2),
            got: 1,
            quantity: "bytes",
        })
    );

}

#[test]
fn message_test_opcode() {
    assert_eq!(
        Message::RecordOn {
            source: operand::RecordSource::Own
        }
        .opcode(),
        Opcode::RecordOn
    );

    assert_eq!(
        Message::ClearExtTimer {
            day_of_month: operand::DayOfMonth::Day1,
            month_of_year: operand::MonthOfYear::January,
            start_time: operand::Time {
                hour: operand::Hour::try_from(12).unwrap(),
                minute: operand::Minute::try_from(30).unwrap(),
            },
            duration: operand::Duration {
                hours: operand::DurationHours::try_from(99).unwrap(),
                minutes: operand::Minute::try_from(59).unwrap(),
            },
            recording_sequence: operand::RecordingSequence::from_bits(CEC_OP_REC_SEQ_SUNDAY),
            external_source: operand::ExternalSource::Plug(0x56),
        }
        .opcode(),
        Opcode::ClearExtTimer
    );

    assert_eq!(
        Message::SetExtTimer {
            day_of_month: operand::DayOfMonth::Day1,
            month_of_year: operand::MonthOfYear::January,
            start_time: operand::Time {
                hour: operand::Hour::try_from(12).unwrap(),
                minute: operand::Minute::try_from(30).unwrap(),
            },
            duration: operand::Duration {
                hours: operand::DurationHours::try_from(99).unwrap(),
                minutes: operand::Minute::try_from(59).unwrap(),
            },
            recording_sequence: operand::RecordingSequence::from_bits(CEC_OP_REC_SEQ_SUNDAY),
            external_source: operand::ExternalSource::Plug(0x56),
        }
        .opcode(),
        Opcode::SetExtTimer
    );

    assert_eq!(
        Message::SetTimerProgramTitle {
            title: operand::BufferOperand::from_str("12345678901234").unwrap(),
        }
        .opcode(),
        Opcode::SetTimerProgramTitle
    );

    assert_eq!(
        Message::VendorCommand {
            command: operand::BufferOperand::from_str("12345678901234").unwrap(),
        }
        .opcode(),
        Opcode::VendorCommand
    );

    assert_eq!(
        Message::VendorCommandWithId {
            vendor_id: VendorId([0x12, 0x34, 0x56]),
            vendor_specific_data: operand::BoundedBufferOperand::<11, u8>::from_str("")
                .unwrap(),
        }
        .opcode(),
        Opcode::VendorCommandWithId
    );

    assert_eq!(
        Message::VendorRemoteButtonDown {
            rc_code: operand::BufferOperand::from_str("12345678901234").unwrap(),
        }
        .opcode(),
        Opcode::VendorRemoteButtonDown
    );

    assert_eq!(
        Message::SetOsdString {
            display_control: operand::DisplayControl::UntilCleared,
            osd_string: operand::BoundedBufferOperand::<13, u8>::from_str("").unwrap(),
        }
        .opcode(),
        Opcode::SetOsdString
    );

    assert_eq!(
        Message::SetOsdName {
            name: operand::BufferOperand::from_str("12345678901234").unwrap(),
        }
        .opcode(),
        Opcode::SetOsdName
    );

    assert_eq!(
        Message::ReportShortAudioDescriptor {
            descriptors: operand::BoundedBufferOperand::try_from(
                [
                    [0x01, 0x23, 0x45],
                    [0x67, 0x89, 0xAB],
                    [0xCD, 0xEF, 0xFE],
                    [0xDC, 0xBA, 0x98]
                ]
                .as_ref()
            )
            .unwrap(),
        }
        .opcode(),
        Opcode::ReportShortAudioDescriptor
    );

    assert_eq!(
        Message::RequestShortAudioDescriptor {
            descriptors: operand::BoundedBufferOperand::try_from(
                [
                    operand::AudioFormatIdAndCode::new()
                        .with_code(1)
                        .with_id(operand::AudioFormatId::CEA861),
                    operand::AudioFormatIdAndCode::new()
                        .with_code(2)
                        .with_id(operand::AudioFormatId::CEA861),
                    operand::AudioFormatIdAndCode::new()
                        .with_code(3)
                        .with_id(operand::AudioFormatId::CEA861Cxt),
                    operand::AudioFormatIdAndCode::new()
                        .with_code(4)
                        .with_id(operand::AudioFormatId::CEA861Cxt),
                ]
                .as_ref()
            )
            .unwrap(),
        }
        .opcode(),
        Opcode::RequestShortAudioDescriptor
    );

    assert_eq!(
        Message::ReportFeatures {
            version: operand::Version::V2_0,
            device_types: operand::AllDeviceTypes::from_bits(CEC_OP_ALL_DEVTYPE_PLAYBACK),
            rc_profile: operand::RcProfile::new(operand::RcProfile1::Source(
                operand::RcProfileSource::all()
            )),
            device_features: operand::DeviceFeatures::new(operand::DeviceFeatures1::all()),
        }
        .opcode(),
        Opcode::ReportFeatures
    );

}

#[test]
fn test_decode_invalid_operand() {
    assert_eq!(
        Message::try_from_bytes(&[Opcode::RecordStatus.to_primitive(), 0xFE]),
        Err(Error::InvalidValueForType {
            ty: "RecordStatusInfo",
            value: String::from("254"),
        })
    );

}

#[test]
fn message_test_decoding_missing_operand_1() {
    assert_eq!(
        Message::try_from_bytes(&[
            Opcode::ClearAnalogueTimer.to_primitive(),
            operand::DayOfMonth::Day1.to_primitive(),
            operand::MonthOfYear::January.to_primitive(),
            0x12,
            0x30,
            0x99,
            0x59,
            CEC_OP_REC_SEQ_SUNDAY,
        ]),
        Err(Error::OutOfRange {
            expected: Range::AtLeast(12),
            got: 8,
            quantity: "bytes",
        })
    );

    assert_eq!(
        Message::try_from_bytes(&[
            Opcode::ClearDigitalTimer.to_primitive(),
            operand::DayOfMonth::Day1.to_primitive(),
            operand::MonthOfYear::January.to_primitive(),
            0x12,
            0x30,
            0x99,
            0x59,
            CEC_OP_REC_SEQ_SUNDAY,
        ]),
        Err(Error::OutOfRange {
            expected: Range::AtLeast(15),
            got: 8,
            quantity: "bytes",
        })
    );

    assert_eq!(
        Message::try_from_bytes(&[
            Opcode::ClearExtTimer.to_primitive(),
            operand::DayOfMonth::Day1.to_primitive(),
            operand::MonthOfYear::January.to_primitive(),
            0x12,
            0x30,
            0x99,
            0x59,
            CEC_OP_REC_SEQ_SUNDAY,
        ]),
        Err(Error::OutOfRange {
            expected: Range::Only(vec![9, 10]),
            got: 8,
            quantity: "bytes",
        })
    );

    assert_eq!(
        Message::try_from_bytes(&[
            Opcode::SetAnalogueTimer.to_primitive(),
            operand::DayOfMonth::Day1.to_primitive(),
            operand::MonthOfYear::January.to_primitive(),
            0x12,
            0x30,
            0x99,
            0x59,
            CEC_OP_REC_SEQ_SUNDAY,
        ]),
        Err(Error::OutOfRange {
            expected: Range::AtLeast(12),
            got: 8,
            quantity: "bytes",
        })
    );

    assert_eq!(
        Message::try_from_bytes(&[
            Opcode::SetDigitalTimer.to_primitive(),
            operand::DayOfMonth::Day1.to_primitive(),
            operand::MonthOfYear::January.to_primitive(),
            0x12,
            0x30,
            0x99,
            0x59,
            CEC_OP_REC_SEQ_SUNDAY,
        ]),
        Err(Error::OutOfRange {
            expected: Range::AtLeast(15),
            got: 8,
            quantity: "bytes",
        })
    );

    assert_eq!(
        Message::try_from_bytes(&[
            Opcode::SetExtTimer.to_primitive(),
            operand::DayOfMonth::Day1.to_primitive(),
            operand::MonthOfYear::January.to_primitive(),
            0x12,
            0x30,
            0x99,
            0x59,
            CEC_OP_REC_SEQ_SUNDAY,
        ]),
        Err(Error::OutOfRange {
            expected: Range::Only(vec![9, 10]),
            got: 8,
            quantity: "bytes",
        })
    );

    assert_eq!(
        Message::try_from_bytes(&[
            Opcode::ReportFeatures.to_primitive(),
            operand::Version::V2_0.to_primitive(),
            operand::AllDeviceTypes::from_bits(CEC_OP_ALL_DEVTYPE_PLAYBACK).bits(),
            operand::RcProfileSource::all().bits(),
        ]),
        Err(Error::OutOfRange {
            expected: Range::AtLeast(5),
            got: 4,
            quantity: "bytes",
        })
    );

    assert_eq!(
        Message::try_from_bytes(&[Opcode::ReportCurrentLatency.to_primitive(), 0x12, 0x34, 0x56]),
        Err(Error::OutOfRange {
            expected: Range::AtLeast(5),
            got: 4,
            quantity: "bytes",
        })
    );

}

#[test]
fn message_test_decoding_missing_operand_2() {
    assert_eq!(
        Message::try_from_bytes(&[
            Opcode::ClearAnalogueTimer.to_primitive(),
            operand::DayOfMonth::Day1.to_primitive(),
            operand::MonthOfYear::January.to_primitive(),
            0x12,
            0x30,
            0x99,
            0x59,
        ]),
        Err(Error::OutOfRange {
            expected: Range::AtLeast(12),
            got: 7,
            quantity: "bytes",
        })
    );

    assert_eq!(
        Message::try_from_bytes(&[
            Opcode::ClearDigitalTimer.to_primitive(),
            operand::DayOfMonth::Day1.to_primitive(),
            operand::MonthOfYear::January.to_primitive(),
            0x12,
            0x30,
            0x99,
            0x59,
        ]),
        Err(Error::OutOfRange {
            expected: Range::AtLeast(15),
            got: 7,
            quantity: "bytes",
        })
    );

    assert_eq!(
        Message::try_from_bytes(&[
            Opcode::ClearExtTimer.to_primitive(),
            operand::DayOfMonth::Day1.to_primitive(),
            operand::MonthOfYear::January.to_primitive(),
            0x12,
            0x30,
            0x99,
            0x59,
        ]),
        Err(Error::OutOfRange {
            expected: Range::Only(vec![9, 10]),
            got: 7,
            quantity: "bytes",
        })
    );

    assert_eq!(
        Message::try_from_bytes(&[
            Opcode::SetAnalogueTimer.to_primitive(),
            operand::DayOfMonth::Day1.to_primitive(),
            operand::MonthOfYear::January.to_primitive(),
            0x12,
            0x30,
            0x99,
            0x59,
        ]),
        Err(Error::OutOfRange {
            expected: Range::AtLeast(12),
            got: 7,
            quantity: "bytes",
        })
    );

    assert_eq!(
        Message::try_from_bytes(&[
            Opcode::SetDigitalTimer.to_primitive(),
            operand::DayOfMonth::Day1.to_primitive(),
            operand::MonthOfYear::January.to_primitive(),
            0x12,
            0x30,
            0x99,
            0x59,
        ]),
        Err(Error::OutOfRange {
            expected: Range::AtLeast(15),
            got: 7,
            quantity: "bytes",
        })
    );

    assert_eq!(
        Message::try_from_bytes(&[
            Opcode::SetExtTimer.to_primitive(),
            operand::DayOfMonth::Day1.to_primitive(),
            operand::MonthOfYear::January.to_primitive(),
            0x12,
            0x30,
            0x99,
            0x59,
        ]),
        Err(Error::OutOfRange {
            expected: Range::Only(vec![9, 10]),
            got: 7,
            quantity: "bytes",
        })
    );

    assert_eq!(
        Message::try_from_bytes(&[
            Opcode::ReportFeatures.to_primitive(),
            operand::Version::V2_0.to_primitive(),
            operand::AllDeviceTypes::from_bits(CEC_OP_ALL_DEVTYPE_PLAYBACK).bits(),
        ]),
        Err(Error::OutOfRange {
            expected: Range::AtLeast(5),
            got: 3,
            quantity: "bytes",
        })
    );

    assert_eq!(
        Message::try_from_bytes(&[Opcode::ReportCurrentLatency.to_primitive(), 0x12, 0x34]),
        Err(Error::OutOfRange {
            expected: Range::AtLeast(5),
            got: 3,
            quantity: "bytes",
        })
    );

}

#[test]
fn message_test_decoding_missing_operand_3() {
    assert_eq!(
        Message::try_from_bytes(&[
            Opcode::ClearAnalogueTimer.to_primitive(),
            operand::DayOfMonth::Day1.to_primitive(),
            operand::MonthOfYear::January.to_primitive(),
            0x12,
            0x30,
        ]),
        Err(Error::OutOfRange {
            expected: Range::AtLeast(12),
            got: 5,
            quantity: "bytes",
        })
    );

    assert_eq!(
        Message::try_from_bytes(&[
            Opcode::ClearDigitalTimer.to_primitive(),
            operand::DayOfMonth::Day1.to_primitive(),
            operand::MonthOfYear::January.to_primitive(),
            0x12,
            0x30,
        ]),
        Err(Error::OutOfRange {
            expected: Range::AtLeast(15),
            got: 5,
            quantity: "bytes",
        })
    );

    assert_eq!(
        Message::try_from_bytes(&[
            Opcode::ClearExtTimer.to_primitive(),
            operand::DayOfMonth::Day1.to_primitive(),
            operand::MonthOfYear::January.to_primitive(),
            0x12,
            0x30,
        ]),
        Err(Error::OutOfRange {
            expected: Range::Only(vec![9, 10]),
            got: 5,
            quantity: "bytes",
        })
    );

    assert_eq!(
        Message::try_from_bytes(&[
            Opcode::SetAnalogueTimer.to_primitive(),
            operand::DayOfMonth::Day1.to_primitive(),
            operand::MonthOfYear::January.to_primitive(),
            0x12,
            0x30,
        ]),
        Err(Error::OutOfRange {
            expected: Range::AtLeast(12),
            got: 5,
            quantity: "bytes",
        })
    );

    assert_eq!(
        Message::try_from_bytes(&[
            Opcode::SetDigitalTimer.to_primitive(),
            operand::DayOfMonth::Day1.to_primitive(),
            operand::MonthOfYear::January.to_primitive(),
            0x12,
            0x30,
        ]),
        Err(Error::OutOfRange {
            expected: Range::AtLeast(15),
            got: 5,
            quantity: "bytes",
        })
    );

    assert_eq!(
        Message::try_from_bytes(&[
            Opcode::SetExtTimer.to_primitive(),
            operand::DayOfMonth::Day1.to_primitive(),
            operand::MonthOfYear::January.to_primitive(),
            0x12,
            0x30,
        ]),
        Err(Error::OutOfRange {
            expected: Range::Only(vec![9, 10]),
            got: 5,
            quantity: "bytes",
        })
    );

    assert_eq!(
        Message::try_from_bytes(&[Opcode::ReportFeatures.to_primitive(), operand::Version::V2_0.to_primitive()]),
        Err(Error::OutOfRange {
            expected: Range::AtLeast(5),
            got: 2,
            quantity: "bytes",
        })
    );

}

#[test]
fn message_test_decoding_missing_operand_4() {
    assert_eq!(
        Message::try_from_bytes(&[
            Opcode::ClearAnalogueTimer.to_primitive(),
            operand::DayOfMonth::Day1.to_primitive(),
            operand::MonthOfYear::January.to_primitive(),
        ]),
        Err(Error::OutOfRange {
            expected: Range::AtLeast(12),
            got: 3,
            quantity: "bytes",
        })
    );

    assert_eq!(
        Message::try_from_bytes(&[
            Opcode::ClearDigitalTimer.to_primitive(),
            operand::DayOfMonth::Day1.to_primitive(),
            operand::MonthOfYear::January.to_primitive(),
        ]),
        Err(Error::OutOfRange {
            expected: Range::AtLeast(15),
            got: 3,
            quantity: "bytes",
        })
    );

    assert_eq!(
        Message::try_from_bytes(&[
            Opcode::ClearExtTimer.to_primitive(),
            operand::DayOfMonth::Day1.to_primitive(),
            operand::MonthOfYear::January.to_primitive(),
        ]),
        Err(Error::OutOfRange {
            expected: Range::Only(vec![9, 10]),
            got: 3,
            quantity: "bytes",
        })
    );

    assert_eq!(
        Message::try_from_bytes(&[
            Opcode::SetAnalogueTimer.to_primitive(),
            operand::DayOfMonth::Day1.to_primitive(),
            operand::MonthOfYear::January.to_primitive(),
        ]),
        Err(Error::OutOfRange {
            expected: Range::AtLeast(12),
            got: 3,
            quantity: "bytes",
        })
    );

    assert_eq!(
        Message::try_from_bytes(&[
            Opcode::SetDigitalTimer.to_primitive(),
            operand::DayOfMonth::Day1.to_primitive(),
            operand::MonthOfYear::January.to_primitive(),
        ]),
        Err(Error::OutOfRange {
            expected: Range::AtLeast(15),
            got: 3,
            quantity: "bytes",
        })
    );

    assert_eq!(
        Message::try_from_bytes(&[
            Opcode::SetExtTimer.to_primitive(),
            operand::DayOfMonth::Day1.to_primitive(),
            operand::MonthOfYear::January.to_primitive(),
        ]),
        Err(Error::OutOfRange {
            expected: Range::Only(vec![9, 10]),
            got: 3,
            quantity: "bytes",
        })
    );

}

#[test]
fn message_test_decoding_missing_operand_5() {
    assert_eq!(
        Message::try_from_bytes(&[
            Opcode::ClearAnalogueTimer.to_primitive(),
            operand::DayOfMonth::Day1.to_primitive(),
        ]),
        Err(Error::OutOfRange {
            expected: Range::AtLeast(12),
            got: 2,
            quantity: "bytes",
        })
    );

    assert_eq!(
        Message::try_from_bytes(&[
            Opcode::ClearDigitalTimer.to_primitive(),
            operand::DayOfMonth::Day1.to_primitive(),
        ]),
        Err(Error::OutOfRange {
            expected: Range::AtLeast(15),
            got: 2,
            quantity: "bytes",
        })
    );

    assert_eq!(
        Message::try_from_bytes(&[
            Opcode::ClearExtTimer.to_primitive(),
            operand::DayOfMonth::Day1.to_primitive(),
        ]),
        Err(Error::OutOfRange {
            expected: Range::Only(vec![9, 10]),
            got: 2,
            quantity: "bytes",
        })
    );

    assert_eq!(
        Message::try_from_bytes(&[
            Opcode::SetAnalogueTimer.to_primitive(),
            operand::DayOfMonth::Day1.to_primitive(),
        ]),
        Err(Error::OutOfRange {
            expected: Range::AtLeast(12),
            got: 2,
            quantity: "bytes",
        })
    );

    assert_eq!(
        Message::try_from_bytes(&[
            Opcode::SetDigitalTimer.to_primitive(),
            operand::DayOfMonth::Day1.to_primitive(),
        ]),
        Err(Error::OutOfRange {
            expected: Range::AtLeast(15),
            got: 2,
            quantity: "bytes",
        })
    );

    assert_eq!(
        Message::try_from_bytes(&[Opcode::SetExtTimer.to_primitive(), operand::DayOfMonth::Day1.to_primitive()]),
        Err(Error::OutOfRange {
            expected: Range::Only(vec![9, 10]),
            got: 2,
            quantity: "bytes",
        })
    );

}

#[test]
fn message_test_decoding_missing_operand_6() {
    assert_eq!(
        Message::try_from_bytes(&[Opcode::ClearExtTimer.to_primitive()]),
        Err(Error::OutOfRange {
            expected: Range::Only(vec![9, 10]),
            got: 1,
            quantity: "bytes",
        })
    );

    assert_eq!(
        Message::try_from_bytes(&[Opcode::SetDigitalTimer.to_primitive()]),
        Err(Error::OutOfRange {
            expected: Range::AtLeast(15),
            got: 1,
            quantity: "bytes",
        })
    );

    assert_eq!(
        Message::try_from_bytes(&[Opcode::SetExtTimer.to_primitive()]),
        Err(Error::OutOfRange {
            expected: Range::Only(vec![9, 10]),
            got: 1,
            quantity: "bytes",
        })
    );

}

#[test]
fn test_decoding_missing_bytes() {
    assert_eq!(
        Message::try_from_bytes(&[Opcode::SetMenuLanguage.to_primitive(), 0x12]),
        Err(Error::OutOfRange {
            expected: Range::AtLeast(4),
            got: 2,
            quantity: "bytes",
        })
    );

}

#[test]
fn test_decoding_missing_opcode() {
    assert_eq!(
        Message::try_from_bytes(&[Opcode::CdcMessage.to_primitive(), 0x01, 0x23]),
        Err(Error::OutOfRange {
            expected: Range::AtLeast(4),
            got: 3,
            quantity: "bytes",
        })
    );

}

#[test]
fn test_decoding_missing_opcode_and_byte() {
    assert_eq!(
        Message::try_from_bytes(&[Opcode::CdcMessage.to_primitive(), 0x01]),
        Err(Error::OutOfRange {
            expected: Range::AtLeast(4),
            got: 2,
            quantity: "bytes",
        })
    );

}

#[test]
fn test_decoding_missing_operands() {
    assert_eq!(
        Message::try_from_bytes(&[Opcode::ReportFeatures.to_primitive()]),
        Err(Error::OutOfRange {
            expected: Range::AtLeast(5),
            got: 1,
            quantity: "bytes",
        })
    );

}

#[test]
fn test_decoding_missing_operand_2_and_byte() {
    assert_eq!(
        Message::try_from_bytes(&[Opcode::ReportCurrentLatency.to_primitive(), 0x12]),
        Err(Error::OutOfRange {
            expected: Range::AtLeast(5),
            got: 2,
            quantity: "bytes",
        })
    );

}
