//! What is refused: numbers that stand for nothing, and bytes that are too few.

use vstd::prelude::*;

use crate::address::{
    FollowerMode, InitiatorMode, LogicalAddress, LogicalAddressType, PhysicalAddress, VendorId,
};
use crate::cdc;
use crate::cdc::{HecSetState, HecState, HpdState};
use crate::codec::{decoded_code, ends, parse, too_short, Coded, OperandEncodable};
use crate::error::{ErrorView, RangeView};
use crate::message::{Message, Opcode};
use crate::operand::buffer::{split, Chunk};
use crate::operand::features::chain_len;
use crate::operand::{
    AbortReason, AllDeviceTypes, AnalogueBroadcastType, AnalogueServiceId, AribData, AtscData,
    AudioFormatId, AudioOutputCompensated, AudioRate, AudioStatus, AudioVolumeLevel,
    BoundedBufferOperand, BroadcastSystem, BufferOperand, Chain, ChannelId, DayOfMonth,
    DeckControlMode, DeckInfo, Delay, DeviceFeatures, DigitalServiceBroadcastSystem,
    DigitalServiceId, DisplayControl, Duration, DurationHours, DvbData, ExternalSource, Hour,
    LatencyFlags, MediaInfo, MenuRequestType, MenuState, Minute, MonthOfYear, PlayMode,
    PowerStatus, PrimaryDeviceType, RcProfile, RcProfileId, RecordSource, RecordSourceType,
    RecordStatusInfo, RecordingSequence, ServiceId, StatusRequest, Time, TimerClearedStatusData,
    TimerStatusData, TunerDeviceInfo, TunerDisplayInfo, UiBroadcastType, UiCommand,
    UiSoundPresentationControl, Version,
};
use crate::text::decimal;

verus! {

/// The error for bytes that are too few.
pub open spec fn lacking(least: usize, bytes: Seq<u8>) -> ErrorView {
    ErrorView::OutOfRange {
        expected: RangeView::AtLeast(least),
        got: bytes.len() as usize,
        quantity: "bytes"@,
    }
}

/// The error for a number that stands for nothing.
pub open spec fn unknown(ty: Seq<char>, value: u8) -> ErrorView {
    ErrorView::InvalidValueForType { ty, value: decimal(value as nat) }
}

/// A number that stands for no kind of message, address or mode is refused by name.
pub proof fn kinds_are_known(code: u8)
    ensures
        LogicalAddress::with_code(code) is None ==> decoded_code::<LogicalAddress>(code) ==
            Err::<LogicalAddress, ErrorView>(unknown("LogicalAddress"@, code)),
        LogicalAddressType::with_code(code) is None ==> decoded_code::<LogicalAddressType>(code) ==
            Err::<LogicalAddressType, ErrorView>(unknown("LogicalAddressType"@, code)),
        InitiatorMode::with_code(code) is None ==> decoded_code::<InitiatorMode>(code) ==
            Err::<InitiatorMode, ErrorView>(unknown("InitiatorMode"@, code)),
        FollowerMode::with_code(code) is None ==> decoded_code::<FollowerMode>(code) ==
            Err::<FollowerMode, ErrorView>(unknown("FollowerMode"@, code)),
        HecSetState::with_code(code) is None ==> decoded_code::<HecSetState>(code) ==
            Err::<HecSetState, ErrorView>(unknown("HecSetState"@, code)),
        cdc::Opcode::with_code(code) is None ==> decoded_code::<cdc::Opcode>(code) ==
            Err::<cdc::Opcode, ErrorView>(unknown("Opcode"@, code)),
        Opcode::with_code(code) is None ==> decoded_code::<Opcode>(code) == Err::<Opcode,
            ErrorView>(unknown("Opcode"@, code)),
{
}

/// A number that stands for no value of an operand is refused by name.
pub proof fn values_are_known(code: u8)
    ensures
        AudioOutputCompensated::with_code(code) is None ==>
            decoded_code::<AudioOutputCompensated>(code) == Err::<AudioOutputCompensated,
            ErrorView>(unknown("AudioOutputCompensated"@, code)),
        AudioFormatId::with_code(code) is None ==> decoded_code::<AudioFormatId>(code) ==
            Err::<AudioFormatId, ErrorView>(unknown("AudioFormatId"@, code)),
        AbortReason::with_code(code) is None ==> decoded_code::<AbortReason>(code) ==
            Err::<AbortReason, ErrorView>(unknown("AbortReason"@, code)),
        AnalogueBroadcastType::with_code(code) is None ==>
            decoded_code::<AnalogueBroadcastType>(code) == Err::<AnalogueBroadcastType,
            ErrorView>(unknown("AnalogueBroadcastType"@, code)),
        AudioRate::with_code(code) is None ==> decoded_code::<AudioRate>(code) == Err::<AudioRate,
            ErrorView>(unknown("AudioRate"@, code)),
        BroadcastSystem::with_code(code) is None ==> decoded_code::<BroadcastSystem>(code) ==
            Err::<BroadcastSystem, ErrorView>(unknown("BroadcastSystem"@, code)),
        DayOfMonth::with_code(code) is None ==> decoded_code::<DayOfMonth>(code) ==
            Err::<DayOfMonth, ErrorView>(unknown("DayOfMonth"@, code)),
        MonthOfYear::with_code(code) is None ==> decoded_code::<MonthOfYear>(code) ==
            Err::<MonthOfYear, ErrorView>(unknown("MonthOfYear"@, code)),
        DeckControlMode::with_code(code) is None ==> decoded_code::<DeckControlMode>(code) ==
            Err::<DeckControlMode, ErrorView>(unknown("DeckControlMode"@, code)),
        DeckInfo::with_code(code) is None ==> decoded_code::<DeckInfo>(code) == Err::<DeckInfo,
            ErrorView>(unknown("DeckInfo"@, code)),
        DigitalServiceBroadcastSystem::with_code(code) is None ==>
            decoded_code::<DigitalServiceBroadcastSystem>(code) ==
            Err::<DigitalServiceBroadcastSystem,
            ErrorView>(unknown("DigitalServiceBroadcastSystem"@, code)),
        DisplayControl::with_code(code) is None ==> decoded_code::<DisplayControl>(code) ==
            Err::<DisplayControl, ErrorView>(unknown("DisplayControl"@, code)),
        MenuRequestType::with_code(code) is None ==> decoded_code::<MenuRequestType>(code) ==
            Err::<MenuRequestType, ErrorView>(unknown("MenuRequestType"@, code)),
        MenuState::with_code(code) is None ==> decoded_code::<MenuState>(code) == Err::<MenuState,
            ErrorView>(unknown("MenuState"@, code)),
        PlayMode::with_code(code) is None ==> decoded_code::<PlayMode>(code) == Err::<PlayMode,
            ErrorView>(unknown("PlayMode"@, code)),
        PowerStatus::with_code(code) is None ==> decoded_code::<PowerStatus>(code) ==
            Err::<PowerStatus, ErrorView>(unknown("PowerStatus"@, code)),
        PrimaryDeviceType::with_code(code) is None ==> decoded_code::<PrimaryDeviceType>(code) ==
            Err::<PrimaryDeviceType, ErrorView>(unknown("PrimaryDeviceType"@, code)),
        RecordSourceType::with_code(code) is None ==> decoded_code::<RecordSourceType>(code) ==
            Err::<RecordSourceType, ErrorView>(unknown("RecordSourceType"@, code)),
        RecordStatusInfo::with_code(code) is None ==> decoded_code::<RecordStatusInfo>(code) ==
            Err::<RecordStatusInfo, ErrorView>(unknown("RecordStatusInfo"@, code)),
        StatusRequest::with_code(code) is None ==> decoded_code::<StatusRequest>(code) ==
            Err::<StatusRequest, ErrorView>(unknown("StatusRequest"@, code)),
        TimerClearedStatusData::with_code(code) is None ==>
            decoded_code::<TimerClearedStatusData>(code) == Err::<TimerClearedStatusData,
            ErrorView>(unknown("TimerClearedStatusData"@, code)),
        UiBroadcastType::with_code(code) is None ==> decoded_code::<UiBroadcastType>(code) ==
            Err::<UiBroadcastType, ErrorView>(unknown("UiBroadcastType"@, code)),
        UiSoundPresentationControl::with_code(code) is None ==>
            decoded_code::<UiSoundPresentationControl>(code) == Err::<UiSoundPresentationControl,
            ErrorView>(unknown("UiSoundPresentationControl"@, code)),
        Version::with_code(code) is None ==> decoded_code::<Version>(code) == Err::<Version,
            ErrorView>(unknown("Version"@, code)),
        RcProfileId::with_code(code) is None ==> decoded_code::<RcProfileId>(code) ==
            Err::<RcProfileId, ErrorView>(unknown("RcProfileId"@, code)),
        TunerDisplayInfo::with_code(code) is None ==> decoded_code::<TunerDisplayInfo>(code) ==
            Err::<TunerDisplayInfo, ErrorView>(unknown("TunerDisplayInfo"@, code)),
        MediaInfo::with_code(code) is None ==> decoded_code::<MediaInfo>(code) == Err::<MediaInfo,
            ErrorView>(unknown("MediaInfo"@, code)),
{
}

/// Any coded value takes a byte.
pub proof fn coded_values_take_a_byte<T: Coded>(bytes: Seq<u8>)
    ensures
        bytes.len() == 0 ==> T::decoded(bytes) == Err::<T, ErrorView>(lacking(1, bytes)),
        bytes.len() > 0 ==> T::decoded(bytes) == decoded_code::<T>(bytes[0]),
{
}

/// Bytes that are too few for an operand are refused, with the count that it takes at least.
pub proof fn operands_are_whole(bytes: Seq<u8>)
    ensures
        bytes.len() < 1 ==> u8::decoded(bytes) == Err::<u8, ErrorView>(lacking(1, bytes)),
        bytes.len() < 1 ==> bool::decoded(bytes) == Err::<bool, ErrorView>(lacking(1, bytes)),
        bytes.len() < 3 ==> <[u8; 3]>::decoded(bytes) == Err::<[u8; 3], ErrorView>(lacking(3,
            bytes)),
        bytes.len() < 3 ==> VendorId::decoded(bytes) == Err::<VendorId, ErrorView>(lacking(3,
            bytes)),
        bytes.len() < 2 ==> PhysicalAddress::decoded(bytes) == Err::<PhysicalAddress,
            ErrorView>(lacking(2, bytes)),
        bytes.len() < 2 ==> u16::decoded(bytes) == Err::<u16, ErrorView>(lacking(2, bytes)),
        bytes.len() < 1 ==> RecordingSequence::decoded(bytes) == Err::<RecordingSequence,
            ErrorView>(lacking(1, bytes)),
        bytes.len() < 1 ==> AllDeviceTypes::decoded(bytes) == Err::<AllDeviceTypes,
            ErrorView>(lacking(1, bytes)),
        bytes.len() < 1 ==> AudioStatus::decoded(bytes) == Err::<AudioStatus, ErrorView>(lacking(1,
            bytes)),
        bytes.len() < 1 ==> LatencyFlags::decoded(bytes) == Err::<LatencyFlags,
            ErrorView>(lacking(1, bytes)),
        bytes.len() < 1 ==> HecState::decoded(bytes) == Err::<HecState, ErrorView>(lacking(1,
            bytes)),
        bytes.len() < 1 ==> HpdState::decoded(bytes) == Err::<HpdState, ErrorView>(lacking(1,
            bytes)),
        bytes.len() < 1 ==> Delay::decoded(bytes) == Err::<Delay, ErrorView>(lacking(1, bytes)),
        bytes.len() < 1 ==> AudioVolumeLevel::decoded(bytes) == Err::<AudioVolumeLevel,
            ErrorView>(lacking(1, bytes)),
        bytes.len() < 1 ==> Hour::decoded(bytes) == Err::<Hour, ErrorView>(lacking(1, bytes)),
        bytes.len() < 1 ==> Minute::decoded(bytes) == Err::<Minute, ErrorView>(lacking(1, bytes)),
        bytes.len() < 1 ==> DurationHours::decoded(bytes) == Err::<DurationHours,
            ErrorView>(lacking(1, bytes)),
        bytes.len() < 2 ==> Time::decoded(bytes) == Err::<Time, ErrorView>(lacking(2, bytes)),
        bytes.len() < 2 ==> Duration::decoded(bytes) == Err::<Duration, ErrorView>(lacking(2,
            bytes)),
        bytes.len() < 1 ==> Chain::decoded(bytes) == Err::<Chain, ErrorView>(lacking(1, bytes)),
        bytes.len() < 1 ==> RcProfile::decoded(bytes) == Err::<RcProfile, ErrorView>(lacking(1,
            bytes)),
        bytes.len() < 1 ==> DeviceFeatures::decoded(bytes) == Err::<DeviceFeatures,
            ErrorView>(lacking(1, bytes)),
        bytes.len() < 1 ==> TimerStatusData::decoded(bytes) == Err::<TimerStatusData,
            ErrorView>(lacking(1, bytes)),
        bytes.len() < 4 ==> ChannelId::decoded(bytes) == Err::<ChannelId, ErrorView>(lacking(4,
            bytes)),
        bytes.len() < 1 ==> UiCommand::decoded(bytes) == Err::<UiCommand, ErrorView>(lacking(1,
            bytes)),
        bytes.len() < 1 ==> Message::decoded(bytes) == Err::<Message, ErrorView>(lacking(1, bytes)),
        bytes.len() < 1 ==> cdc::Message::decoded(bytes) == Err::<cdc::Message,
            ErrorView>(lacking(1, bytes)),
{
}

/// Bytes that are too few for a service are refused, with the count that it takes at least. A
/// service of either kind takes four bytes or seven, and a source outside one or two.
pub proof fn services_are_whole(bytes: Seq<u8>)
    ensures
        bytes.len() < 4 ==> AnalogueServiceId::decoded(bytes) == Err::<AnalogueServiceId,
            ErrorView>(lacking(4, bytes)),
        bytes.len() < 6 ==> AribData::decoded(bytes) == Err::<AribData, ErrorView>(lacking(6,
            bytes)),
        bytes.len() < 6 ==> DvbData::decoded(bytes) == Err::<DvbData, ErrorView>(lacking(6, bytes)),
        bytes.len() < 6 ==> AtscData::decoded(bytes) == Err::<AtscData, ErrorView>(lacking(6,
            bytes)),
        bytes.len() < 7 ==> DigitalServiceId::decoded(bytes) == Err::<DigitalServiceId,
            ErrorView>(lacking(7, bytes)),
        bytes.len() < 5 ==> TunerDeviceInfo::decoded(bytes) == Err::<TunerDeviceInfo,
            ErrorView>(lacking(5, bytes)),
        bytes.len() < 1 ==> RecordSource::decoded(bytes) == Err::<RecordSource,
            ErrorView>(lacking(1, bytes)),
        bytes.len() != 4 && bytes.len() != 7 && bytes.len() <= usize::MAX ==> (
        ServiceId::decoded(bytes) matches Err(ErrorView::OutOfRange { expected, got, quantity })
            && expected == RangeView::Only(seq![4usize, 7usize]) && got == bytes.len() && quantity
            == "bytes"@),
        bytes.len() != 1 && bytes.len() != 2 && bytes.len() <= usize::MAX ==> (
        ExternalSource::decoded(bytes) matches Err(ErrorView::OutOfRange { expected, got, quantity
            })
            && expected == RangeView::Only(seq![1usize, 2usize]) && got == bytes.len() && quantity
            == "bytes"@),
{
}

/// What a byte is read as: a number as itself, all but zero as true, flags as they are, delays from 1
/// to 251, volumes up to 100, and hours and minutes by their two decimal digits. What is out of
/// range, or not decimal, is refused by name.
pub proof fn bytes_are_read(b: u8, rest: Seq<u8>)
    ensures
        ({
            let bytes = seq![b] + rest;
            let decimal_digits = b / 16 <= 9 && b % 16 <= 9;
            let number = b / 16 * 10 + b % 16;
            &&& u8::decoded(bytes) == Ok::<u8, ErrorView>(b)
            &&& bool::decoded(bytes) == Ok::<bool, ErrorView>(b != 0)
            &&& RecordingSequence::decoded(bytes) matches Ok(flags) && flags@ == b
            &&& AllDeviceTypes::decoded(bytes) matches Ok(flags) && flags@ == b
            &&& AudioStatus::decoded(bytes) matches Ok(flags) && flags@ == b
            &&& LatencyFlags::decoded(bytes) matches Ok(flags) && flags@ == b
            &&& HecState::decoded(bytes) matches Ok(flags) && flags@ == b
            &&& HpdState::decoded(bytes) matches Ok(flags) && flags@ == b
            &&& match Delay::decoded(bytes) {
                Ok(delay) => 1 <= b <= 251 && delay.value() == b,
                Err(e) => !(1 <= b <= 251) && e == unknown("Delay"@, b),
            }
            &&& match AudioVolumeLevel::decoded(bytes) {
                Ok(level) => b <= 100 && level.value() == b,
                Err(e) => b > 100 && e == unknown("AudioVolumeLevel"@, b),
            }
            &&& match Hour::decoded(bytes) {
                Ok(hour) => decimal_digits && number <= 23 && hour.value() == number,
                Err(e) => !(decimal_digits && number <= 23) && e == unknown("Hour"@, b),
            }
            &&& match Minute::decoded(bytes) {
                Ok(minute) => decimal_digits && number <= 59 && minute.value() == number,
                Err(e) => !(decimal_digits && number <= 59) && e == unknown("Minute"@, b),
            }
            &&& match DurationHours::decoded(bytes) {
                Ok(hours) => decimal_digits && hours.value() == number,
                Err(e) => !decimal_digits && e == unknown("DurationHours"@, b),
            }
        }),
{
    let bytes = seq![b] + rest;
    assert(bytes[0] == b);
    RecordingSequence::bits_and_value(b);
    AllDeviceTypes::bits_and_value(b);
    AudioStatus::bits_and_value(b);
    LatencyFlags::bits_and_value(b);
    HecState::bits_and_value(b);
    HpdState::bits_and_value(b);
    let number = (b / 16 * 10 + b % 16) as u8;
    Delay::of(b).number_and_value(b);
    AudioVolumeLevel::of(b).number_and_value(b);
    Hour::of(number).number_and_value(number);
    Minute::of(number).number_and_value(number);
    DurationHours::of(number).number_and_value(number);
}

/// What times, delays, volumes and channels there are.
pub proof fn values_are_in_range(
    delay: Delay,
    level: AudioVolumeLevel,
    hour: Hour,
    minute: Minute,
    hours: DurationHours,
    channel: ChannelId,
)
    ensures
        delay.valid() <==> 1 <= delay.value() <= 251,
        level.valid() <==> level.value() <= 100,
        hour.valid() <==> hour.value() <= 23,
        minute.valid() <==> minute.value() <= 59,
        hours.valid() <==> hours.value() <= 99,
        channel.valid() <==> (channel.format() == 1 || channel.format() == 2) && channel.major()
            < 1024,
{
}

/// A button that is not known is refused by name, and so is the format of a channel.
pub proof fn buttons_and_channels_are_known(b: u8, rest: Seq<u8>)
    ensures
        UiCommand::with_code(b) is None ==> UiCommand::decoded(seq![b] + rest) == Err::<
            UiCommand,
            ErrorView,
        >(unknown("UiCommand"@, b)),
        rest.len() >= 3 && b / 4 != 1 && b / 4 != 2 ==> ChannelId::decoded(seq![b] + rest) == Err::<
            ChannelId,
            ErrorView,
        >(unknown("ChannelIdFormat"@, b / 4)),
        Opcode::with_code(b) is None ==> Message::decoded(seq![b] + rest) == Err::<
            Message,
            ErrorView,
        >(unknown("Opcode"@, b)),
        cdc::Opcode::with_code(b) is None ==> cdc::Message::decoded(seq![b] + rest) == Err::<
            cdc::Message,
            ErrorView,
        >(unknown("Opcode"@, b)),
{
    assert((seq![b] + rest)[0] == b);
}

/// What is missing at the end is read as missing, and else as what it is.
pub proof fn what_is_missing_is_none<T: OperandEncodable>(bytes: Seq<u8>)
    ensures
        bytes.len() == 0 ==> Option::<T>::decoded(bytes) == Ok::<Option<T>, ErrorView>(None),
        bytes.len() > 0 ==> match T::decoded(bytes) {
            Ok(x) => Option::<T>::decoded(bytes) == Ok::<Option<T>, ErrorView>(Some(x)),
            Err(e) => Option::<T>::decoded(bytes) == Err::<Option<T>, ErrorView>(e),
        },
{
}

/// A text of up to fourteen bytes is read as it is, and a longer one is refused.
pub proof fn texts_are_bounded(bytes: Seq<u8>)
    requires
        bytes.len() <= usize::MAX,
    ensures
        match BufferOperand::decoded(bytes) {
            Ok(text) => bytes.len() <= 14 && text@ == bytes,
            Err(e) => bytes.len() > 14 && e == (ErrorView::OutOfRange {
                expected: RangeView::AtMost(14),
                got: bytes.len() as usize,
                quantity: "bytes"@,
            }),
        },
{
    if bytes.len() <= 14 {
        assert forall|i: int| 0 <= i < bytes.len() implies split::<u8>(bytes)[i] == bytes[i] by {
            assert(bytes.subrange(i * u8::width(), (i + 1) * u8::width())[0] == bytes[i]);
        }
        assert(split::<u8>(bytes) =~= bytes);
        BufferOperand::of_fitting(bytes);
    }
}

/// A chain of bytes that says that it goes on has to, but not beyond eleven bytes.
pub proof fn chains_end(bytes: Seq<u8>)
    requires
        bytes.len() < usize::MAX,
    ensures
        (forall|i: int| 0 <= i < bytes.len() ==> #[trigger] bytes[i] >= 128) ==>
            Chain::decoded(bytes)
            == Err::<Chain, ErrorView>(lacking((bytes.len() + 1) as usize, bytes)),
        bytes.len() >= 11 && (forall|i: int| 0 <= i < 11 ==> #[trigger] bytes[i] >= 128)
            ==> Chain::decoded(bytes) is Err,
{
    if forall|i: int| 0 <= i < bytes.len() ==> #[trigger] bytes[i] >= 128 {
        goes_on(bytes, bytes.len() as int);
    }
    if bytes.len() >= 11 && forall|i: int| 0 <= i < 11 ==> #[trigger] bytes[i] >= 128 {
        goes_on(bytes, 11);
    }
}

proof fn goes_on(bytes: Seq<u8>, n: int)
    requires
        0 <= n <= bytes.len(),
        forall|i: int| 0 <= i < n ==> #[trigger] bytes[i] >= 128,
    ensures
        chain_len(bytes) matches Some(len) ==> len > n,
        n == bytes.len() ==> chain_len(bytes) is None,
    decreases n,
{
    if n > 0 {
        let rest = bytes.skip(1);
        assert forall|i: int| 0 <= i < n - 1 implies #[trigger] rest[i] >= 128 by {
            assert(rest[i] == bytes[i + 1]);
        }
        assert(bytes[0] >= 128);
        goes_on(rest, n - 1);
    }
}

/// What follows a message is ignored, unless the message goes on to the end of what was sent.
pub proof fn what_follows_a_message_is_ignored(m: Message, rest: Seq<u8>)
    requires
        m.valid(),
        m.faithful(),
        !(m is SetTimerProgramTitle || m is VendorCommand || m is VendorCommandWithId),
        !(m is VendorRemoteButtonDown || m is SetOsdString || m is SetOsdName),
        !(m is ReportShortAudioDescriptor || m is RequestShortAudioDescriptor),
        !(m is ClearExtTimer || m is SetExtTimer || m is TimerStatus || m is TunerDeviceStatus),
        !(m is UserControlPressed || m is CdcMessage || m is ReportCurrentLatency),
    ensures
        Message::decoded(m.encoded() + rest) == Ok::<Message, ErrorView>(m),
{
    reveal(ends);
    crate::message::decoding_inverts_encoding(m);
    crate::message::trailing_bytes_are_ignored(m, rest);
}

proof fn lacks<T: OperandEncodable>(bytes: Seq<u8>, least: usize)
    requires
        bytes.len() < least < 100,
        T::decoded(bytes) == Err::<T, ErrorView>(too_short(least, bytes)),
    ensures
        parse::<T>(bytes) is Err,
        parse::<T>(bytes)->Err_0.shifted(1) == (ErrorView::OutOfRange {
            expected: RangeView::AtLeast((least + 1) as usize),
            got: (bytes.len() + 1) as usize,
            quantity: "bytes"@,
        }),
{
    reveal(parse);
}

/// A message that ends before its address, its recording or its timer does is refused, with the
/// count of bytes that it takes at least.
pub proof fn routing_and_timers_are_whole(bytes: Seq<u8>)
    requires
        bytes.len() > 0,
    ensures
        bytes[0] == 0x82 && bytes.len() < 3 ==> Message::decoded(bytes) == Err::<Message,
            ErrorView>(lacking(3, bytes)),
        bytes[0] == 0x9d && bytes.len() < 3 ==> Message::decoded(bytes) == Err::<Message,
            ErrorView>(lacking(3, bytes)),
        bytes[0] == 0x80 && bytes.len() < 5 ==> Message::decoded(bytes) == Err::<Message,
            ErrorView>(lacking(5, bytes)),
        bytes[0] == 0x81 && bytes.len() < 3 ==> Message::decoded(bytes) == Err::<Message,
            ErrorView>(lacking(3, bytes)),
        bytes[0] == 0x86 && bytes.len() < 3 ==> Message::decoded(bytes) == Err::<Message,
            ErrorView>(lacking(3, bytes)),
        bytes[0] == 0x09 && bytes.len() < 2 ==> Message::decoded(bytes) == Err::<Message,
            ErrorView>(lacking(2, bytes)),
        bytes[0] == 0x0a && bytes.len() < 2 ==> Message::decoded(bytes) == Err::<Message,
            ErrorView>(lacking(2, bytes)),
        bytes[0] == 0x33 && bytes.len() < 12 ==> Message::decoded(bytes) == Err::<Message,
            ErrorView>(lacking(12, bytes)),
        bytes[0] == 0x99 && bytes.len() < 15 ==> Message::decoded(bytes) == Err::<Message,
            ErrorView>(lacking(15, bytes)),
{
    let rest = bytes.skip(1);
    Opcode::one_to_one();
    crate::numbers::opcodes();
    if bytes[0] == 0x82 && bytes.len() < 3 {
        lacks::<PhysicalAddress>(rest, 2);
        assert(Opcode::with_code(bytes[0]) == Some(Opcode::ActiveSource));
    }
    if bytes[0] == 0x9d && bytes.len() < 3 {
        lacks::<PhysicalAddress>(rest, 2);
        assert(Opcode::with_code(bytes[0]) == Some(Opcode::InactiveSource));
    }
    if bytes[0] == 0x80 && bytes.len() < 5 {
        lacks::<(PhysicalAddress, PhysicalAddress)>(rest, 4);
        assert(Opcode::with_code(bytes[0]) == Some(Opcode::RoutingChange));
    }
    if bytes[0] == 0x81 && bytes.len() < 3 {
        lacks::<PhysicalAddress>(rest, 2);
        assert(Opcode::with_code(bytes[0]) == Some(Opcode::RoutingInformation));
    }
    if bytes[0] == 0x86 && bytes.len() < 3 {
        lacks::<PhysicalAddress>(rest, 2);
        assert(Opcode::with_code(bytes[0]) == Some(Opcode::SetStreamPath));
    }
    if bytes[0] == 0x09 && bytes.len() < 2 {
        lacks::<RecordSource>(rest, 1);
        assert(Opcode::with_code(bytes[0]) == Some(Opcode::RecordOn));
    }
    if bytes[0] == 0x0a && bytes.len() < 2 {
        lacks::<RecordStatusInfo>(rest, 1);
        assert(Opcode::with_code(bytes[0]) == Some(Opcode::RecordStatus));
    }
    if bytes[0] == 0x33 && bytes.len() < 12 {
        lacks::<(DayOfMonth, (MonthOfYear, (Time, (Duration, (RecordingSequence,
            AnalogueServiceId)))))>(rest, 11);
        assert(Opcode::with_code(bytes[0]) == Some(Opcode::ClearAnalogueTimer));
    }
    if bytes[0] == 0x99 && bytes.len() < 15 {
        lacks::<(DayOfMonth, (MonthOfYear, (Time, (Duration, (RecordingSequence,
            DigitalServiceId)))))>(rest, 14);
        assert(Opcode::with_code(bytes[0]) == Some(Opcode::ClearDigitalTimer));
    }
}

/// A message that ends before its status or its service does is refused, with the count of bytes
/// that it takes at least.
pub proof fn status_and_services_are_whole(bytes: Seq<u8>)
    requires
        bytes.len() > 0,
    ensures
        bytes[0] == 0x34 && bytes.len() < 12 ==> Message::decoded(bytes) == Err::<Message,
            ErrorView>(lacking(12, bytes)),
        bytes[0] == 0x97 && bytes.len() < 15 ==> Message::decoded(bytes) == Err::<Message,
            ErrorView>(lacking(15, bytes)),
        bytes[0] == 0x43 && bytes.len() < 2 ==> Message::decoded(bytes) == Err::<Message,
            ErrorView>(lacking(2, bytes)),
        bytes[0] == 0x35 && bytes.len() < 2 ==> Message::decoded(bytes) == Err::<Message,
            ErrorView>(lacking(2, bytes)),
        bytes[0] == 0x9e && bytes.len() < 2 ==> Message::decoded(bytes) == Err::<Message,
            ErrorView>(lacking(2, bytes)),
        bytes[0] == 0x84 && bytes.len() < 4 ==> Message::decoded(bytes) == Err::<Message,
            ErrorView>(lacking(4, bytes)),
        bytes[0] == 0x32 && bytes.len() < 4 ==> Message::decoded(bytes) == Err::<Message,
            ErrorView>(lacking(4, bytes)),
        bytes[0] == 0x42 && bytes.len() < 2 ==> Message::decoded(bytes) == Err::<Message,
            ErrorView>(lacking(2, bytes)),
        bytes[0] == 0x1b && bytes.len() < 2 ==> Message::decoded(bytes) == Err::<Message,
            ErrorView>(lacking(2, bytes)),
        bytes[0] == 0x1a && bytes.len() < 2 ==> Message::decoded(bytes) == Err::<Message,
            ErrorView>(lacking(2, bytes)),
{
    let rest = bytes.skip(1);
    Opcode::one_to_one();
    crate::numbers::opcodes();
    if bytes[0] == 0x34 && bytes.len() < 12 {
        lacks::<(DayOfMonth, (MonthOfYear, (Time, (Duration, (RecordingSequence,
            AnalogueServiceId)))))>(rest, 11);
        assert(Opcode::with_code(bytes[0]) == Some(Opcode::SetAnalogueTimer));
    }
    if bytes[0] == 0x97 && bytes.len() < 15 {
        lacks::<(DayOfMonth, (MonthOfYear, (Time, (Duration, (RecordingSequence,
            DigitalServiceId)))))>(rest, 14);
        assert(Opcode::with_code(bytes[0]) == Some(Opcode::SetDigitalTimer));
    }
    if bytes[0] == 0x43 && bytes.len() < 2 {
        lacks::<TimerClearedStatusData>(rest, 1);
        assert(Opcode::with_code(bytes[0]) == Some(Opcode::TimerClearedStatus));
    }
    if bytes[0] == 0x35 && bytes.len() < 2 {
        lacks::<TimerStatusData>(rest, 1);
        assert(Opcode::with_code(bytes[0]) == Some(Opcode::TimerStatus));
    }
    if bytes[0] == 0x9e && bytes.len() < 2 {
        lacks::<Version>(rest, 1);
        assert(Opcode::with_code(bytes[0]) == Some(Opcode::CecVersion));
    }
    if bytes[0] == 0x84 && bytes.len() < 4 {
        lacks::<(PhysicalAddress, PrimaryDeviceType)>(rest, 3);
        assert(Opcode::with_code(bytes[0]) == Some(Opcode::ReportPhysicalAddr));
    }
    if bytes[0] == 0x32 && bytes.len() < 4 {
        lacks::<[u8; 3]>(rest, 3);
        assert(Opcode::with_code(bytes[0]) == Some(Opcode::SetMenuLanguage));
    }
    if bytes[0] == 0x42 && bytes.len() < 2 {
        lacks::<DeckControlMode>(rest, 1);
        assert(Opcode::with_code(bytes[0]) == Some(Opcode::DeckControl));
    }
    if bytes[0] == 0x1b && bytes.len() < 2 {
        lacks::<DeckInfo>(rest, 1);
        assert(Opcode::with_code(bytes[0]) == Some(Opcode::DeckStatus));
    }
    if bytes[0] == 0x1a && bytes.len() < 2 {
        lacks::<StatusRequest>(rest, 1);
        assert(Opcode::with_code(bytes[0]) == Some(Opcode::GiveDeckStatus));
    }
}

/// A message that ends before its vendor, its text or its menu does is refused, with the count of
/// bytes that it takes at least.
pub proof fn vendors_and_menus_are_whole(bytes: Seq<u8>)
    requires
        bytes.len() > 0,
    ensures
        bytes[0] == 0x41 && bytes.len() < 2 ==> Message::decoded(bytes) == Err::<Message,
            ErrorView>(lacking(2, bytes)),
        bytes[0] == 0x08 && bytes.len() < 2 ==> Message::decoded(bytes) == Err::<Message,
            ErrorView>(lacking(2, bytes)),
        bytes[0] == 0x92 && bytes.len() < 5 ==> Message::decoded(bytes) == Err::<Message,
            ErrorView>(lacking(5, bytes)),
        bytes[0] == 0x93 && bytes.len() < 8 ==> Message::decoded(bytes) == Err::<Message,
            ErrorView>(lacking(8, bytes)),
        bytes[0] == 0x07 && bytes.len() < 6 ==> Message::decoded(bytes) == Err::<Message,
            ErrorView>(lacking(6, bytes)),
        bytes[0] == 0x87 && bytes.len() < 4 ==> Message::decoded(bytes) == Err::<Message,
            ErrorView>(lacking(4, bytes)),
        bytes[0] == 0xa0 && bytes.len() < 4 ==> Message::decoded(bytes) == Err::<Message,
            ErrorView>(lacking(4, bytes)),
        bytes[0] == 0x64 && bytes.len() < 2 ==> Message::decoded(bytes) == Err::<Message,
            ErrorView>(lacking(2, bytes)),
        bytes[0] == 0x8d && bytes.len() < 2 ==> Message::decoded(bytes) == Err::<Message,
            ErrorView>(lacking(2, bytes)),
        bytes[0] == 0x8e && bytes.len() < 2 ==> Message::decoded(bytes) == Err::<Message,
            ErrorView>(lacking(2, bytes)),
        bytes[0] == 0x44 && bytes.len() < 2 ==> Message::decoded(bytes) == Err::<Message,
            ErrorView>(lacking(2, bytes)),
{
    let rest = bytes.skip(1);
    Opcode::one_to_one();
    crate::numbers::opcodes();
    if bytes[0] == 0x41 && bytes.len() < 2 {
        lacks::<PlayMode>(rest, 1);
        assert(Opcode::with_code(bytes[0]) == Some(Opcode::Play));
    }
    if bytes[0] == 0x08 && bytes.len() < 2 {
        lacks::<StatusRequest>(rest, 1);
        assert(Opcode::with_code(bytes[0]) == Some(Opcode::GiveTunerDeviceStatus));
    }
    if bytes[0] == 0x92 && bytes.len() < 5 {
        lacks::<AnalogueServiceId>(rest, 4);
        assert(Opcode::with_code(bytes[0]) == Some(Opcode::SelectAnalogueService));
    }
    if bytes[0] == 0x93 && bytes.len() < 8 {
        lacks::<DigitalServiceId>(rest, 7);
        assert(Opcode::with_code(bytes[0]) == Some(Opcode::SelectDigitalService));
    }
    if bytes[0] == 0x07 && bytes.len() < 6 {
        lacks::<TunerDeviceInfo>(rest, 5);
        assert(Opcode::with_code(bytes[0]) == Some(Opcode::TunerDeviceStatus));
    }
    if bytes[0] == 0x87 && bytes.len() < 4 {
        lacks::<VendorId>(rest, 3);
        assert(Opcode::with_code(bytes[0]) == Some(Opcode::DeviceVendorId));
    }
    if bytes[0] == 0xa0 && bytes.len() < 4 {
        lacks::<(VendorId, BoundedBufferOperand<11, u8>)>(rest, 3);
        assert(Opcode::with_code(bytes[0]) == Some(Opcode::VendorCommandWithId));
    }
    if bytes[0] == 0x64 && bytes.len() < 2 {
        lacks::<(DisplayControl, BoundedBufferOperand<13, u8>)>(rest, 1);
        assert(Opcode::with_code(bytes[0]) == Some(Opcode::SetOsdString));
    }
    if bytes[0] == 0x8d && bytes.len() < 2 {
        lacks::<MenuRequestType>(rest, 1);
        assert(Opcode::with_code(bytes[0]) == Some(Opcode::MenuRequest));
    }
    if bytes[0] == 0x8e && bytes.len() < 2 {
        lacks::<MenuState>(rest, 1);
        assert(Opcode::with_code(bytes[0]) == Some(Opcode::MenuStatus));
    }
    if bytes[0] == 0x44 && bytes.len() < 2 {
        lacks::<UiCommand>(rest, 1);
        assert(Opcode::with_code(bytes[0]) == Some(Opcode::UserControlPressed));
    }
}

/// A message that ends before what it says of sound, features or delays does is refused, with the
/// count of bytes that it takes at least.
pub proof fn sound_and_features_are_whole(bytes: Seq<u8>)
    requires
        bytes.len() > 0,
    ensures
        bytes[0] == 0x90 && bytes.len() < 2 ==> Message::decoded(bytes) == Err::<Message,
            ErrorView>(lacking(2, bytes)),
        bytes[0] == 0x00 && bytes.len() < 3 ==> Message::decoded(bytes) == Err::<Message,
            ErrorView>(lacking(3, bytes)),
        bytes[0] == 0x7a && bytes.len() < 2 ==> Message::decoded(bytes) == Err::<Message,
            ErrorView>(lacking(2, bytes)),
        bytes[0] == 0x72 && bytes.len() < 2 ==> Message::decoded(bytes) == Err::<Message,
            ErrorView>(lacking(2, bytes)),
        bytes[0] == 0x70 && bytes.len() < 3 ==> Message::decoded(bytes) == Err::<Message,
            ErrorView>(lacking(3, bytes)),
        bytes[0] == 0x7e && bytes.len() < 2 ==> Message::decoded(bytes) == Err::<Message,
            ErrorView>(lacking(2, bytes)),
        bytes[0] == 0x9a && bytes.len() < 2 ==> Message::decoded(bytes) == Err::<Message,
            ErrorView>(lacking(2, bytes)),
        bytes[0] == 0xf8 && bytes.len() < 4 ==> Message::decoded(bytes) == Err::<Message,
            ErrorView>(lacking(4, bytes)),
        bytes[0] == 0xa6 && bytes.len() < 5 ==> Message::decoded(bytes) == Err::<Message,
            ErrorView>(lacking(5, bytes)),
        bytes[0] == 0xa7 && bytes.len() < 3 ==> Message::decoded(bytes) == Err::<Message,
            ErrorView>(lacking(3, bytes)),
        bytes[0] == 0xa8 && bytes.len() < 5 ==> Message::decoded(bytes) == Err::<Message,
            ErrorView>(lacking(5, bytes)),
        bytes[0] == 0x73 && bytes.len() < 2 ==> Message::decoded(bytes) == Err::<Message,
            ErrorView>(lacking(2, bytes)),
{
    let rest = bytes.skip(1);
    Opcode::one_to_one();
    crate::numbers::opcodes();
    if bytes[0] == 0x90 && bytes.len() < 2 {
        lacks::<PowerStatus>(rest, 1);
        assert(Opcode::with_code(bytes[0]) == Some(Opcode::ReportPowerStatus));
    }
    if bytes[0] == 0x00 && bytes.len() < 3 {
        lacks::<(u8, AbortReason)>(rest, 2);
        assert(Opcode::with_code(bytes[0]) == Some(Opcode::FeatureAbort));
    }
    if bytes[0] == 0x7a && bytes.len() < 2 {
        lacks::<AudioStatus>(rest, 1);
        assert(Opcode::with_code(bytes[0]) == Some(Opcode::ReportAudioStatus));
    }
    if bytes[0] == 0x72 && bytes.len() < 2 {
        lacks::<bool>(rest, 1);
        assert(Opcode::with_code(bytes[0]) == Some(Opcode::SetSystemAudioMode));
    }
    if bytes[0] == 0x70 && bytes.len() < 3 {
        lacks::<PhysicalAddress>(rest, 2);
        assert(Opcode::with_code(bytes[0]) == Some(Opcode::SystemAudioModeRequest));
    }
    if bytes[0] == 0x7e && bytes.len() < 2 {
        lacks::<bool>(rest, 1);
        assert(Opcode::with_code(bytes[0]) == Some(Opcode::SystemAudioModeStatus));
    }
    if bytes[0] == 0x9a && bytes.len() < 2 {
        lacks::<AudioRate>(rest, 1);
        assert(Opcode::with_code(bytes[0]) == Some(Opcode::SetAudioRate));
    }
    if bytes[0] == 0xf8 && bytes.len() < 4 {
        lacks::<(PhysicalAddress, cdc::Message)>(rest, 3);
        assert(Opcode::with_code(bytes[0]) == Some(Opcode::CdcMessage));
    }
    if bytes[0] == 0xa6 && bytes.len() < 5 {
        lacks::<(Version, (AllDeviceTypes, (RcProfile, DeviceFeatures)))>(rest, 4);
        assert(Opcode::with_code(bytes[0]) == Some(Opcode::ReportFeatures));
    }
    if bytes[0] == 0xa7 && bytes.len() < 3 {
        lacks::<PhysicalAddress>(rest, 2);
        assert(Opcode::with_code(bytes[0]) == Some(Opcode::RequestCurrentLatency));
    }
    if bytes[0] == 0xa8 && bytes.len() < 5 {
        lacks::<(PhysicalAddress, (Delay, (LatencyFlags, Option<Delay>)))>(rest, 4);
        assert(Opcode::with_code(bytes[0]) == Some(Opcode::ReportCurrentLatency));
    }
    if bytes[0] == 0x73 && bytes.len() < 2 {
        lacks::<AudioVolumeLevel>(rest, 1);
        assert(Opcode::with_code(bytes[0]) == Some(Opcode::SetAudioVolumeLevel));
    }
}

} // verus!
