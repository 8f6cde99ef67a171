//! How operands are laid out in bytes.

use vstd::prelude::*;

use crate::address::{PhysicalAddress, VendorId};
use crate::cdc::{HecState, HpdState};
use crate::codec::{wire, Coded, OperandEncodable};
use crate::operand::buffer::{joined, Chunk};
use crate::operand::{
    AllDeviceTypes, AnalogueServiceId, AribData, AtscData, AudioFormatIdAndCode, AudioStatus,
    AudioVolumeLevel, BoundedBufferOperand, Chain, ChannelId, Delay, DeviceFeatures,
    DigitalServiceId, DurationHours, Duration, DvbData, ExternalSource, Hour, LatencyFlags, Minute,
    NotProgrammedErrorInfo, ProgrammedInfo, RcProfile, RcProfile1, RecordSource, RecordingSequence,
    ServiceId, Time, TimerProgrammedInfo, TimerStatusData, TunerDeviceInfo,
};

verus! {

/// Numbers are sent with the more significant byte first, a truth value as one or zero, the bytes of
/// a language or a vendor in their order, and what is missing not at all.
pub proof fn plain_operands(n: u8, b: bool, w: u16, language: [u8; 3], vendor: VendorId)
    ensures
        n.encoded() == seq![n],
        b.encoded() == seq![if b { 1u8 } else { 0u8 }],
        w.encoded().len() == 2 && w.encoded()[0] * 256 + w.encoded()[1] == w,
        language.encoded() == language@,
        vendor.encoded() == vendor.0@,
        Some(n).encoded() == seq![n],
        None::<u8>.encoded() == Seq::<u8>::empty(),
{
}

/// Flags, volumes and delays are sent as the byte that they are.
pub proof fn flags_are_bytes(
    sequence: RecordingSequence,
    types: AllDeviceTypes,
    status: AudioStatus,
    flags: LatencyFlags,
    hec: HecState,
    hpd: HpdState,
    delay: Delay,
    level: AudioVolumeLevel,
)
    ensures
        sequence.encoded() == seq![sequence@],
        types.encoded() == seq![types@],
        status.encoded() == seq![status@],
        flags.encoded() == seq![flags@],
        hec.encoded() == seq![hec@],
        hpd.encoded() == seq![hpd@],
        delay.encoded() == seq![delay.value()],
        level.encoded() == seq![level.value()],
{
}

/// Hours and minutes are sent as two decimal digits in the halves of a byte.
pub proof fn times_are_decimal(hour: Hour, minute: Minute, hours: DurationHours)
    requires
        hour.valid(),
        minute.valid(),
        hours.valid(),
    ensures
        hour.encoded().len() == 1 && hour.encoded()[0] / 16 * 10 + hour.encoded()[0] % 16
            == hour.value() && hour.encoded()[0] % 16 < 10,
        minute.encoded().len() == 1 && minute.encoded()[0] / 16 * 10 + minute.encoded()[0] % 16
            == minute.value() && minute.encoded()[0] % 16 < 10,
        hours.encoded().len() == 1 && hours.encoded()[0] / 16 * 10 + hours.encoded()[0] % 16
            == hours.value() && hours.encoded()[0] % 16 < 10,
        hour.value() < 24 && minute.value() < 60 && hours.value() < 100,
{
}

/// Hours come before minutes.
pub proof fn hours_come_first(time: Time, duration: Duration)
    ensures
        time.encoded() == time.hour.encoded() + time.minute.encoded(),
        duration.encoded() == duration.hours.encoded() + duration.minutes.encoded(),
{
}

/// An analogue service is its kind of broadcast, its frequency and its system. A digital one is told
/// by its stream, its service or programme, and its network.
pub proof fn services_are_laid_out(
    analogue: AnalogueServiceId,
    arib: AribData,
    dvb: DvbData,
    atsc: AtscData,
)
    ensures
        analogue.encoded() == seq![
            analogue.broadcast_type.code(),
            (analogue.frequency / 256) as u8,
            (analogue.frequency % 256) as u8,
            analogue.broadcast_system.code(),
        ],
        arib.encoded() == seq![
            (arib.transport_stream_id / 256) as u8,
            (arib.transport_stream_id % 256) as u8,
            (arib.service_id / 256) as u8,
            (arib.service_id % 256) as u8,
            (arib.original_network_id / 256) as u8,
            (arib.original_network_id % 256) as u8,
        ],
        dvb.encoded() == seq![
            (dvb.transport_stream_id / 256) as u8,
            (dvb.transport_stream_id % 256) as u8,
            (dvb.service_id / 256) as u8,
            (dvb.service_id % 256) as u8,
            (dvb.original_network_id / 256) as u8,
            (dvb.original_network_id % 256) as u8,
        ],
        atsc.encoded() == seq![
            (atsc.transport_stream_id / 256) as u8,
            (atsc.transport_stream_id % 256) as u8,
            (atsc.program_number / 256) as u8,
            (atsc.program_number % 256) as u8,
            0u8,
            0u8,
        ],
{
    assert(analogue.encoded() =~= seq![
        analogue.broadcast_type.code(),
        (analogue.frequency / 256) as u8,
        (analogue.frequency % 256) as u8,
        analogue.broadcast_system.code(),
    ]);
    assert(arib.encoded() =~= seq![
        (arib.transport_stream_id / 256) as u8,
        (arib.transport_stream_id % 256) as u8,
        (arib.service_id / 256) as u8,
        (arib.service_id % 256) as u8,
        (arib.original_network_id / 256) as u8,
        (arib.original_network_id % 256) as u8,
    ]);
    assert(dvb.encoded() =~= seq![
        (dvb.transport_stream_id / 256) as u8,
        (dvb.transport_stream_id % 256) as u8,
        (dvb.service_id / 256) as u8,
        (dvb.service_id % 256) as u8,
        (dvb.original_network_id / 256) as u8,
        (dvb.original_network_id % 256) as u8,
    ]);
    assert(atsc.encoded() =~= seq![
        (atsc.transport_stream_id / 256) as u8,
        (atsc.transport_stream_id % 256) as u8,
        (atsc.program_number / 256) as u8,
        (atsc.program_number % 256) as u8,
        0u8,
        0u8,
    ]);
}

/// A digital service is the number of its system with what tells it there.
pub proof fn digital_services_name_their_system(id: DigitalServiceId)
    ensures
        id matches DigitalServiceId::AribGeneric(data) ==> id.encoded() == seq![0x00u8] +
            data.encoded(),
        id matches DigitalServiceId::AtscGeneric(data) ==> id.encoded() == seq![0x01u8] +
            data.encoded(),
        id matches DigitalServiceId::DvbGeneric(data) ==> id.encoded() == seq![0x02u8] +
            data.encoded(),
        id matches DigitalServiceId::AribBs(data) ==> id.encoded() == seq![0x08u8] + data.encoded(),
        id matches DigitalServiceId::AribCs(data) ==> id.encoded() == seq![0x09u8] + data.encoded(),
        id matches DigitalServiceId::AribT(data) ==> id.encoded() == seq![0x0au8] + data.encoded(),
        id matches DigitalServiceId::AtscCable(data) ==> id.encoded() == seq![0x10u8] +
            data.encoded(),
        id matches DigitalServiceId::AtscSatellite(data) ==> id.encoded() == seq![0x11u8] +
            data.encoded(),
        id matches DigitalServiceId::AtscTerrestrial(data) ==> id.encoded() == seq![0x12u8] +
            data.encoded(),
        id matches DigitalServiceId::DvbC(data) ==> id.encoded() == seq![0x18u8] + data.encoded(),
        id matches DigitalServiceId::DvbS(data) ==> id.encoded() == seq![0x19u8] + data.encoded(),
        id matches DigitalServiceId::DvbS2(data) ==> id.encoded() == seq![0x1au8] + data.encoded(),
        id matches DigitalServiceId::DvbT(data) ==> id.encoded() == seq![0x1bu8] + data.encoded(),
{
    reveal(wire);
}

/// A tuner says in its highest bit whether it records, in the others what it shows, and then the
/// service.
pub proof fn tuners_tell_their_service(info: TunerDeviceInfo)
    ensures
        info.encoded()[0] / 128 == (if info.recording {
            1int
        } else {
            0
        }),
        info.encoded()[0] % 128 == info.tuner_display_info.code(),
        info.encoded().skip(1) == info.service_id.encoded(),
        info.service_id matches ServiceId::Digital(id) ==> info.service_id.encoded()
            == id.encoded(),
        info.service_id matches ServiceId::Analogue(id) ==> info.service_id.encoded()
            == id.encoded(),
{
    assert(info.encoded().skip(1) =~= info.service_id.encoded());
}

/// A source of a recording is the number of its kind with what tells it there.
pub proof fn record_sources_name_their_kind(source: RecordSource, external: ExternalSource)
    ensures
        source is Own ==> source.encoded() == seq![0x01u8],
        source matches RecordSource::DigitalService(x) ==> source.encoded() == seq![0x02u8]
            + x.encoded(),
        source matches RecordSource::AnalogueService(x) ==> source.encoded() == seq![0x03u8]
            + x.encoded(),
        source matches RecordSource::ExternalPlug(x) ==> source.encoded() == seq![0x04u8]
            + x.encoded(),
        source matches RecordSource::ExternalPhysicalAddress(x) ==> source.encoded() == seq![0x05u8]
            + x.encoded(),
        external matches ExternalSource::Plug(x) ==> external.encoded() == x.encoded(),
        external matches ExternalSource::PhysicalAddress(x) ==> external.encoded() == x.encoded(),
{
    if source is Own {
        assert(source.encoded() =~= seq![0x01u8]);
    }
}

/// The numbers of what is said of a timer.
pub proof fn timer_results_have_numbers(info: TimerProgrammedInfo)
    ensures
        info matches TimerProgrammedInfo::Programmed(ProgrammedInfo::EnoughSpace) ==> info.code() ==
            0x18,
        info matches TimerProgrammedInfo::Programmed(ProgrammedInfo::NotEnoughSpace { .. }) ==>
            info.code() == 0x19,
        info matches TimerProgrammedInfo::Programmed(ProgrammedInfo::NoMediaInfo) ==> info.code() ==
            0x1a,
        info matches TimerProgrammedInfo::Programmed(ProgrammedInfo::MightNotBeEnoughSpace { .. })
            ==> info.code() == 0x1b,
        info matches TimerProgrammedInfo::NotProgrammed(NotProgrammedErrorInfo::NoFreeTimer) ==>
            info.code() == 0x01,
        info matches TimerProgrammedInfo::NotProgrammed(NotProgrammedErrorInfo::DateOutOfRange) ==>
            info.code() == 0x02,
        info matches
            TimerProgrammedInfo::NotProgrammed(NotProgrammedErrorInfo::RecordingSequenceError) ==>
            info.code() == 0x03,
        info matches TimerProgrammedInfo::NotProgrammed(NotProgrammedErrorInfo::InvalidExternalPlug)
            ==> info.code() == 0x04,
        info matches
            TimerProgrammedInfo::NotProgrammed(NotProgrammedErrorInfo::InvalidExternalPhysicalAddress)
            ==> info.code() == 0x05,
        info matches TimerProgrammedInfo::NotProgrammed(NotProgrammedErrorInfo::CaNotSupported) ==>
            info.code() == 0x06,
        info matches
            TimerProgrammedInfo::NotProgrammed(NotProgrammedErrorInfo::InsufficientCaEntitlements)
            ==> info.code() == 0x07,
        info matches
            TimerProgrammedInfo::NotProgrammed(NotProgrammedErrorInfo::ResolutionNotSupported) ==>
            info.code() == 0x08,
        info matches TimerProgrammedInfo::NotProgrammed(NotProgrammedErrorInfo::ParentalLock) ==>
            info.code() == 0x09,
        info matches TimerProgrammedInfo::NotProgrammed(NotProgrammedErrorInfo::ClockFailure) ==>
            info.code() == 0x0a,
        info matches TimerProgrammedInfo::NotProgrammed(NotProgrammedErrorInfo::Duplicate { .. })
            ==> info.code() == 0x0e,
{
}

/// The status of a timer says in its highest bit whether it overlaps another, in the next two what
/// medium there is, and in the others what is said of the timer. The duration that is left follows,
/// where it is known.
pub proof fn timer_states_are_laid_out(status: TimerStatusData)
    ensures
        status.encoded()[0] / 128 == (if status.overlap_warning {
            1int
        } else {
            0
        }),
        status.encoded()[0] / 32 % 4 == status.media_info.code(),
        status.encoded()[0] % 32 == status.programmed_info.code(),
        status.programmed_info matches TimerProgrammedInfo::Programmed(
            ProgrammedInfo::NotEnoughSpace { duration_available: Some(d) },
        ) ==> status.encoded().skip(1) == d.encoded(),
        status.programmed_info matches TimerProgrammedInfo::Programmed(
            ProgrammedInfo::MightNotBeEnoughSpace { duration_available: Some(d) },
        ) ==> status.encoded().skip(1) == d.encoded(),
        status.programmed_info matches TimerProgrammedInfo::NotProgrammed(
            NotProgrammedErrorInfo::Duplicate { duration_available: Some(d) },
        ) ==> status.encoded().skip(1) == d.encoded(),
        status.programmed_info.duration() is None ==> status.encoded().len() == 1,
{
    if let Some(d) = status.programmed_info.duration() {
        assert(status.encoded().skip(1) =~= d.encoded());
    }
}

/// Features are sent seven bits in a byte, with the highest bit set where more follow.
pub proof fn features_are_chained(chain: Chain)
    ensures
        chain.encoded().len() == 1 + chain.more@.len(),
        chain.encoded()[0] % 128 == chain.first % 128,
        chain.encoded()[0] >= 128 <==> chain.more@.len() > 0,
        forall|i: int|
            0 <= i < chain.more@.len() ==> {
                &&& #[trigger] chain.encoded()[i + 1] % 128 == chain.more@[i] % 128
                &&& chain.encoded()[i + 1] >= 128 <==> i + 1 < chain.more@.len()
            },
{
    assert(chain.all()[0] == chain.first);
    assert forall|i: int| 0 <= i < chain.more@.len() implies {
        &&& #[trigger] chain.encoded()[i + 1] % 128 == chain.more@[i] % 128
        &&& chain.encoded()[i + 1] >= 128 <==> i + 1 < chain.more@.len()
    } by {
        assert(chain.all()[i + 1] == chain.more@[i]);
    }
}

/// What a device says of its remote control begins with the number of a profile or the flags of a
/// source, and what it says of its features with their flags.
pub proof fn features_begin_with_flags(rc: RcProfile, features: DeviceFeatures)
    ensures
        rc.encoded().len() == 1 + rc.rc_profile_n@.len(),
        rc.rc_profile_1 matches RcProfile1::Tv(id) ==> rc.encoded()[0] % 128 == id.code(),
        rc.rc_profile_1 matches RcProfile1::Source(source) ==> rc.encoded()[0] % 128 == source@
            % 128,
        features.encoded().len() == 1 + features.device_features_n@.len(),
        features.encoded()[0] % 128 == features.device_features_1@ % 128,
{
    features_are_chained(rc.chain());
    features_are_chained(features.chain());
}

/// A channel says in its upper six bits whether it has one number or two, and then both, in ten bits
/// and in sixteen.
pub proof fn channels_are_laid_out(channel: ChannelId)
    requires
        channel.valid(),
    ensures
        channel.encoded().len() == 4,
        channel.encoded()[0] / 4 == channel.format(),
        channel.encoded()[0] % 4 * 256 + channel.encoded()[1] == channel.major(),
        channel.encoded()[2] * 256 + channel.encoded()[3] == channel.minor(),
{
}

/// The elements of a list are sent one behind the other: bytes as they are, addresses as two bytes
/// with the more significant one first, formats of sound as one byte and descriptions of sound as
/// three.
pub proof fn lists_are_sent_in_order<const S: usize>(
    bytes: BoundedBufferOperand<S, u8>,
    address: PhysicalAddress,
    format: AudioFormatIdAndCode,
    descriptor: [u8; 3],
)
    ensures
        bytes.encoded() == bytes@,
        address.chunk().len() == 2 && address.chunk()[0] * 256 + address.chunk()[1] == address.0,
        format.chunk() == seq![format@],
        descriptor.chunk() == descriptor@,
{
    bytes_are_joined(bytes@);
}

proof fn bytes_are_joined(bytes: Seq<u8>)
    ensures
        joined(bytes) == bytes,
    decreases bytes.len(),
{
    if bytes.len() > 0 {
        bytes_are_joined(bytes.drop_last());
        assert(bytes.drop_last() + seq![bytes.last()] =~= bytes);
    } else {
        assert(bytes =~= Seq::empty());
    }
}

/// The bytes of two lists, one behind the other, are those of both.
pub proof fn lists_are_joined<T: Chunk>(a: Seq<T>, b: Seq<T>)
    ensures
        joined(a + b) == joined(a) + joined(b),
        a.len() == 1 ==> joined(a) == a[0].chunk(),
    decreases b.len(),
{
    if b.len() > 0 {
        lists_are_joined(a, b.drop_last());
        assert((a + b).drop_last() =~= a + b.drop_last());
        assert(joined(a + b) =~= joined(a) + joined(b));
    } else {
        assert(a + b =~= a);
        assert(joined(a + b) =~= joined(a) + joined(b));
    }
    if a.len() == 1 {
        assert(a.drop_last() =~= Seq::<T>::empty());
        assert(joined(a.drop_last()) =~= Seq::<u8>::empty());
        assert(joined(a) =~= a[0].chunk());
    }
}

} // verus!
