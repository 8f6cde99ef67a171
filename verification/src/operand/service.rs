//! Broadcast services and other sources of a programme.

use vstd::prelude::*;

use crate::address::{big_endian, PhysicalAddress};
use crate::codec::{
    decoded_code, emit, ends, need, parse, parse_wire, sound, tail, too_short, whole, wire, Coded,
    OperandEncodable,
};
use crate::error::{bad_length, Error, ErrorView, Range, RangeView};
use crate::operand::enums::{
    AnalogueBroadcastType, BroadcastSystem, DigitalServiceBroadcastSystem, RecordSourceType,
};

verus! {

impl OperandEncodable for u16 {
    open spec fn valid(&self) -> bool {
        true
    }

    open spec fn encoded(&self) -> Seq<u8> {
        seq![(*self / 256) as u8, (*self % 256) as u8]
    }

    open spec fn lengths() -> RangeView {
        RangeView::AtLeast(2)
    }

    open spec fn decoded(bytes: Seq<u8>) -> Result<Self, ErrorView> {
        if bytes.len() < 2 {
            Err(too_short(2, bytes))
        } else {
            Ok(big_endian(bytes[0], bytes[1]))
        }
    }

    open spec fn delimited(&self) -> bool {
        true
    }

    open spec fn faithful(&self) -> bool {
        true
    }

    fn to_bytes(&self, buf: &mut Vec<u8>) {
        buf.push((*self / 256) as u8);
        buf.push((*self % 256) as u8);
    }

    fn len(&self) -> (n: usize) {
        2
    }

    fn expected_len() -> (r: Range) {
        Range::AtLeast(2)
    }

    fn try_from_bytes(bytes: &[u8]) -> (r: Result<Self, Error>) {
        match need(2, bytes) {
            Err(e) => Err(e),
            Ok(()) => Ok(bytes[0] as u16 * 256 + bytes[1] as u16),
        }
    }

    proof fn read_back(&self, rest: Seq<u8>) {
        assert((self.encoded() + rest)[0] == self.encoded()[0]);
        assert((self.encoded() + rest)[1] == self.encoded()[1]);
    }
}

/// An analogue service.
#[derive(Debug, Copy, Clone, PartialEq, Eq, Hash, Structural)]
pub struct AnalogueServiceId {
    pub broadcast_type: AnalogueBroadcastType,
    pub frequency: u16,
    pub broadcast_system: BroadcastSystem,
}

impl AnalogueServiceId {
    /// The fields, in the order in which they are sent.
    pub open spec fn parts(self) -> (AnalogueBroadcastType, (u16, BroadcastSystem)) {
        (self.broadcast_type, (self.frequency, self.broadcast_system))
    }
}

impl OperandEncodable for AnalogueServiceId {
    open spec fn valid(&self) -> bool {
        self.parts().valid()
    }

    open spec fn encoded(&self) -> Seq<u8> {
        self.parts().encoded()
    }

    open spec fn lengths() -> RangeView {
        <(AnalogueBroadcastType, (u16, BroadcastSystem))>::lengths()
    }

    open spec fn decoded(bytes: Seq<u8>) -> Result<Self, ErrorView> {
        match <(AnalogueBroadcastType, (u16, BroadcastSystem))>::decoded(bytes) {
            Ok((broadcast_type, (frequency, broadcast_system))) => Ok(AnalogueServiceId { broadcast_type, frequency, broadcast_system }),
            Err(e) => Err(e),
        }
    }

    open spec fn delimited(&self) -> bool {
        self.parts().delimited()
    }

    open spec fn faithful(&self) -> bool {
        self.parts().faithful()
    }

    fn to_bytes(&self, buf: &mut Vec<u8>) {
        (self.broadcast_type, (self.frequency, self.broadcast_system)).to_bytes(buf)
    }

    fn len(&self) -> (n: usize) {
        (self.broadcast_type, (self.frequency, self.broadcast_system)).len()
    }

    fn expected_len() -> (r: Range) {
        <(AnalogueBroadcastType, (u16, BroadcastSystem))>::expected_len()
    }

    fn try_from_bytes(bytes: &[u8]) -> (r: Result<Self, Error>) {
        match <(AnalogueBroadcastType, (u16, BroadcastSystem))>::try_from_bytes(bytes) {
            Ok((broadcast_type, (frequency, broadcast_system))) => Ok(AnalogueServiceId { broadcast_type, frequency, broadcast_system }),
            Err(e) => Err(e),
        }
    }

    proof fn read_back(&self, rest: Seq<u8>) {
        self.parts().read_back(rest);
    }
}

/// A service of an ARIB broadcast.
#[derive(Debug, Copy, Clone, PartialEq, Eq, Hash, Structural)]
pub struct AribData {
    pub transport_stream_id: u16,
    pub service_id: u16,
    pub original_network_id: u16,
}

impl AribData {
    /// The fields, in the order in which they are sent.
    pub open spec fn parts(self) -> (u16, (u16, u16)) {
        (self.transport_stream_id, (self.service_id, self.original_network_id))
    }
}

impl OperandEncodable for AribData {
    open spec fn valid(&self) -> bool {
        self.parts().valid()
    }

    open spec fn encoded(&self) -> Seq<u8> {
        self.parts().encoded()
    }

    open spec fn lengths() -> RangeView {
        <(u16, (u16, u16))>::lengths()
    }

    open spec fn decoded(bytes: Seq<u8>) -> Result<Self, ErrorView> {
        match <(u16, (u16, u16))>::decoded(bytes) {
            Ok((transport_stream_id, (service_id, original_network_id))) => Ok(AribData { transport_stream_id, service_id, original_network_id }),
            Err(e) => Err(e),
        }
    }

    open spec fn delimited(&self) -> bool {
        self.parts().delimited()
    }

    open spec fn faithful(&self) -> bool {
        self.parts().faithful()
    }

    fn to_bytes(&self, buf: &mut Vec<u8>) {
        (self.transport_stream_id, (self.service_id, self.original_network_id)).to_bytes(buf)
    }

    fn len(&self) -> (n: usize) {
        (self.transport_stream_id, (self.service_id, self.original_network_id)).len()
    }

    fn expected_len() -> (r: Range) {
        <(u16, (u16, u16))>::expected_len()
    }

    fn try_from_bytes(bytes: &[u8]) -> (r: Result<Self, Error>) {
        match <(u16, (u16, u16))>::try_from_bytes(bytes) {
            Ok((transport_stream_id, (service_id, original_network_id))) => Ok(AribData { transport_stream_id, service_id, original_network_id }),
            Err(e) => Err(e),
        }
    }

    proof fn read_back(&self, rest: Seq<u8>) {
        self.parts().read_back(rest);
    }
}

/// A service of a DVB broadcast.
#[derive(Debug, Copy, Clone, PartialEq, Eq, Hash, Structural)]
pub struct DvbData {
    pub transport_stream_id: u16,
    pub service_id: u16,
    pub original_network_id: u16,
}

impl DvbData {
    /// The fields, in the order in which they are sent.
    pub open spec fn parts(self) -> (u16, (u16, u16)) {
        (self.transport_stream_id, (self.service_id, self.original_network_id))
    }
}

impl OperandEncodable for DvbData {
    open spec fn valid(&self) -> bool {
        self.parts().valid()
    }

    open spec fn encoded(&self) -> Seq<u8> {
        self.parts().encoded()
    }

    open spec fn lengths() -> RangeView {
        <(u16, (u16, u16))>::lengths()
    }

    open spec fn decoded(bytes: Seq<u8>) -> Result<Self, ErrorView> {
        match <(u16, (u16, u16))>::decoded(bytes) {
            Ok((transport_stream_id, (service_id, original_network_id))) => Ok(DvbData { transport_stream_id, service_id, original_network_id }),
            Err(e) => Err(e),
        }
    }

    open spec fn delimited(&self) -> bool {
        self.parts().delimited()
    }

    open spec fn faithful(&self) -> bool {
        self.parts().faithful()
    }

    fn to_bytes(&self, buf: &mut Vec<u8>) {
        (self.transport_stream_id, (self.service_id, self.original_network_id)).to_bytes(buf)
    }

    fn len(&self) -> (n: usize) {
        (self.transport_stream_id, (self.service_id, self.original_network_id)).len()
    }

    fn expected_len() -> (r: Range) {
        <(u16, (u16, u16))>::expected_len()
    }

    fn try_from_bytes(bytes: &[u8]) -> (r: Result<Self, Error>) {
        match <(u16, (u16, u16))>::try_from_bytes(bytes) {
            Ok((transport_stream_id, (service_id, original_network_id))) => Ok(DvbData { transport_stream_id, service_id, original_network_id }),
            Err(e) => Err(e),
        }
    }

    proof fn read_back(&self, rest: Seq<u8>) {
        self.parts().read_back(rest);
    }
}

/// A service of an ATSC broadcast.
#[derive(Debug, Copy, Clone, PartialEq, Eq, Hash, Structural)]
pub struct AtscData {
    pub transport_stream_id: u16,
    pub program_number: u16,
}

/// The two numbers and two bytes of zero, so that all digital services take as many bytes.
impl OperandEncodable for AtscData {
    open spec fn valid(&self) -> bool {
        true
    }

    open spec fn encoded(&self) -> Seq<u8> {
        (self.transport_stream_id, self.program_number).encoded() + seq![0u8, 0u8]
    }

    open spec fn lengths() -> RangeView {
        RangeView::AtLeast(6)
    }

    open spec fn decoded(bytes: Seq<u8>) -> Result<Self, ErrorView> {
        if bytes.len() < 6 {
            Err(too_short(6, bytes))
        } else {
            Ok(
                AtscData {
                    transport_stream_id: big_endian(bytes[0], bytes[1]),
                    program_number: big_endian(bytes[2], bytes[3]),
                },
            )
        }
    }

    open spec fn delimited(&self) -> bool {
        true
    }

    open spec fn faithful(&self) -> bool {
        true
    }

    fn to_bytes(&self, buf: &mut Vec<u8>) {
        self.transport_stream_id.to_bytes(buf);
        self.program_number.to_bytes(buf);
        buf.push(0);
        buf.push(0);
    }

    fn len(&self) -> (n: usize) {
        6
    }

    fn expected_len() -> (r: Range) {
        Range::AtLeast(6)
    }

    fn try_from_bytes(bytes: &[u8]) -> (r: Result<Self, Error>) {
        match need(6, bytes) {
            Err(e) => Err(e),
            Ok(()) => Ok(
                AtscData {
                    transport_stream_id: bytes[0] as u16 * 256 + bytes[1] as u16,
                    program_number: bytes[2] as u16 * 256 + bytes[3] as u16,
                },
            ),
        }
    }

    proof fn read_back(&self, rest: Seq<u8>) {
        let bytes = self.encoded() + rest;
        assert(bytes[0] == (self.transport_stream_id / 256) as u8);
        assert(bytes[1] == (self.transport_stream_id % 256) as u8);
        assert(bytes[2] == (self.program_number / 256) as u8);
        assert(bytes[3] == (self.program_number % 256) as u8);
    }
}

/// A digital service.
#[derive(Debug, Copy, Clone, PartialEq, Eq, Hash, Structural)]
pub enum DigitalServiceId {
    AribGeneric(AribData),
    AtscGeneric(AtscData),
    DvbGeneric(DvbData),
    AribBs(AribData),
    AribCs(AribData),
    AribT(AribData),
    AtscCable(AtscData),
    AtscSatellite(AtscData),
    AtscTerrestrial(AtscData),
    DvbC(DvbData),
    DvbS(DvbData),
    DvbS2(DvbData),
    DvbT(DvbData),
}

impl DigitalServiceId {
    /// The system by which the service is broadcast.
    pub open spec fn system(self) -> DigitalServiceBroadcastSystem {
        match self {
            DigitalServiceId::AribGeneric(_) => DigitalServiceBroadcastSystem::AribGeneric,
            DigitalServiceId::AtscGeneric(_) => DigitalServiceBroadcastSystem::AtscGeneric,
            DigitalServiceId::DvbGeneric(_) => DigitalServiceBroadcastSystem::DvbGeneric,
            DigitalServiceId::AribBs(_) => DigitalServiceBroadcastSystem::AribBs,
            DigitalServiceId::AribCs(_) => DigitalServiceBroadcastSystem::AribCs,
            DigitalServiceId::AribT(_) => DigitalServiceBroadcastSystem::AribT,
            DigitalServiceId::AtscCable(_) => DigitalServiceBroadcastSystem::AtscCable,
            DigitalServiceId::AtscSatellite(_) => DigitalServiceBroadcastSystem::AtscSatellite,
            DigitalServiceId::AtscTerrestrial(_) => DigitalServiceBroadcastSystem::AtscTerrestrial,
            DigitalServiceId::DvbC(_) => DigitalServiceBroadcastSystem::DvbC,
            DigitalServiceId::DvbS(_) => DigitalServiceBroadcastSystem::DvbS,
            DigitalServiceId::DvbS2(_) => DigitalServiceBroadcastSystem::DvbS2,
            DigitalServiceId::DvbT(_) => DigitalServiceBroadcastSystem::DvbT,
        }
    }

    /// The bytes that tell the service within its system.
    pub open spec fn data(self) -> Seq<u8> {
        match self {
            DigitalServiceId::AribGeneric(data) => wire(data),
            DigitalServiceId::AtscGeneric(data) => wire(data),
            DigitalServiceId::DvbGeneric(data) => wire(data),
            DigitalServiceId::AribBs(data) => wire(data),
            DigitalServiceId::AribCs(data) => wire(data),
            DigitalServiceId::AribT(data) => wire(data),
            DigitalServiceId::AtscCable(data) => wire(data),
            DigitalServiceId::AtscSatellite(data) => wire(data),
            DigitalServiceId::AtscTerrestrial(data) => wire(data),
            DigitalServiceId::DvbC(data) => wire(data),
            DigitalServiceId::DvbS(data) => wire(data),
            DigitalServiceId::DvbS2(data) => wire(data),
            DigitalServiceId::DvbT(data) => wire(data),
        }
    }

    /// The system by which the service is broadcast.
    pub fn broadcast_system(&self) -> (r: DigitalServiceBroadcastSystem)
        ensures
            r == self.system(),
    {
        match self {
            DigitalServiceId::AribGeneric(_) => DigitalServiceBroadcastSystem::AribGeneric,
            DigitalServiceId::AtscGeneric(_) => DigitalServiceBroadcastSystem::AtscGeneric,
            DigitalServiceId::DvbGeneric(_) => DigitalServiceBroadcastSystem::DvbGeneric,
            DigitalServiceId::AribBs(_) => DigitalServiceBroadcastSystem::AribBs,
            DigitalServiceId::AribCs(_) => DigitalServiceBroadcastSystem::AribCs,
            DigitalServiceId::AribT(_) => DigitalServiceBroadcastSystem::AribT,
            DigitalServiceId::AtscCable(_) => DigitalServiceBroadcastSystem::AtscCable,
            DigitalServiceId::AtscSatellite(_) => DigitalServiceBroadcastSystem::AtscSatellite,
            DigitalServiceId::AtscTerrestrial(_) => DigitalServiceBroadcastSystem::AtscTerrestrial,
            DigitalServiceId::DvbC(_) => DigitalServiceBroadcastSystem::DvbC,
            DigitalServiceId::DvbS(_) => DigitalServiceBroadcastSystem::DvbS,
            DigitalServiceId::DvbS2(_) => DigitalServiceBroadcastSystem::DvbS2,
            DigitalServiceId::DvbT(_) => DigitalServiceBroadcastSystem::DvbT,
        }
    }
}

/// The service of a system that is told by some bytes.
pub open spec fn service_of(system: DigitalServiceBroadcastSystem, data: Seq<u8>) -> DigitalServiceId {
    match system {
        DigitalServiceBroadcastSystem::AribGeneric => DigitalServiceId::AribGeneric(parse::<AribData>(data)->Ok_0),
        DigitalServiceBroadcastSystem::AtscGeneric => DigitalServiceId::AtscGeneric(parse::<AtscData>(data)->Ok_0),
        DigitalServiceBroadcastSystem::DvbGeneric => DigitalServiceId::DvbGeneric(parse::<DvbData>(data)->Ok_0),
        DigitalServiceBroadcastSystem::AribBs => DigitalServiceId::AribBs(parse::<AribData>(data)->Ok_0),
        DigitalServiceBroadcastSystem::AribCs => DigitalServiceId::AribCs(parse::<AribData>(data)->Ok_0),
        DigitalServiceBroadcastSystem::AribT => DigitalServiceId::AribT(parse::<AribData>(data)->Ok_0),
        DigitalServiceBroadcastSystem::AtscCable => DigitalServiceId::AtscCable(parse::<AtscData>(data)->Ok_0),
        DigitalServiceBroadcastSystem::AtscSatellite => DigitalServiceId::AtscSatellite(parse::<AtscData>(data)->Ok_0),
        DigitalServiceBroadcastSystem::AtscTerrestrial => DigitalServiceId::AtscTerrestrial(parse::<AtscData>(data)->Ok_0),
        DigitalServiceBroadcastSystem::DvbC => DigitalServiceId::DvbC(parse::<DvbData>(data)->Ok_0),
        DigitalServiceBroadcastSystem::DvbS => DigitalServiceId::DvbS(parse::<DvbData>(data)->Ok_0),
        DigitalServiceBroadcastSystem::DvbS2 => DigitalServiceId::DvbS2(parse::<DvbData>(data)->Ok_0),
        DigitalServiceBroadcastSystem::DvbT => DigitalServiceId::DvbT(parse::<DvbData>(data)->Ok_0),
    }
}

/// Six bytes within a system give back what they were written from.
proof fn data_kept<T: OperandEncodable>(data: T, rest: Seq<u8>)
    requires
        data.valid(),
        data.faithful(),
        data.delimited(),
        data.encoded().len() == 6,
    ensures
        parse::<T>(wire(data) + rest) == Ok::<T, ErrorView>(data),
        wire(data).len() == 6,
{
    reveal(wire);
    reveal(sound);
    reveal(ends);
    reveal(whole);
    parse_wire(data, rest);
}

impl DigitalServiceId {
    /// The system of a service and the bytes within it give back the service.
    proof fn data_back(self, rest: Seq<u8>)
        ensures
            service_of(self.system(), self.data() + rest) == self,
            self.data().len() == 6,
    {
        match self {
            DigitalServiceId::AribGeneric(data) => data_kept(data, rest),
            DigitalServiceId::AtscGeneric(data) => data_kept(data, rest),
            DigitalServiceId::DvbGeneric(data) => data_kept(data, rest),
            DigitalServiceId::AribBs(data) => data_kept(data, rest),
            DigitalServiceId::AribCs(data) => data_kept(data, rest),
            DigitalServiceId::AribT(data) => data_kept(data, rest),
            DigitalServiceId::AtscCable(data) => data_kept(data, rest),
            DigitalServiceId::AtscSatellite(data) => data_kept(data, rest),
            DigitalServiceId::AtscTerrestrial(data) => data_kept(data, rest),
            DigitalServiceId::DvbC(data) => data_kept(data, rest),
            DigitalServiceId::DvbS(data) => data_kept(data, rest),
            DigitalServiceId::DvbS2(data) => data_kept(data, rest),
            DigitalServiceId::DvbT(data) => data_kept(data, rest),
        }
    }
}

fn word(bytes: &[u8], i: usize) -> (r: u16)
    requires
        i + 1 < bytes@.len(),
    ensures
        r == big_endian(bytes@[i as int], bytes@[i + 1]),
{
    bytes[i] as u16 * 256 + bytes[i + 1] as u16
}

fn read_arib(data: &[u8]) -> (r: AribData)
    requires
        data@.len() >= 6,
    ensures
        parse::<AribData>(data@) == Ok::<AribData, ErrorView>(r),
{
    proof {
        reveal(parse);
    }
    proof {
        assert(data@.len() == data.len());
        assert(data@.skip(2)[0] == data@[2] && data@.skip(2)[1] == data@[3]);
        assert(data@.skip(2).skip(2)[0] == data@[4] && data@.skip(2).skip(2)[1] == data@[5]);
    }
    AribData {
        transport_stream_id: word(data, 0),
        service_id: word(data, 2),
        original_network_id: word(data, 4),
    }
}

fn read_atsc(data: &[u8]) -> (r: AtscData)
    requires
        data@.len() >= 6,
    ensures
        parse::<AtscData>(data@) == Ok::<AtscData, ErrorView>(r),
{
    proof {
        reveal(parse);
    }
    AtscData { transport_stream_id: word(data, 0), program_number: word(data, 2) }
}

fn read_dvb(data: &[u8]) -> (r: DvbData)
    requires
        data@.len() >= 6,
    ensures
        parse::<DvbData>(data@) == Ok::<DvbData, ErrorView>(r),
{
    proof {
        reveal(parse);
    }
    proof {
        assert(data@.len() == data.len());
        assert(data@.skip(2)[0] == data@[2] && data@.skip(2)[1] == data@[3]);
        assert(data@.skip(2).skip(2)[0] == data@[4] && data@.skip(2).skip(2)[1] == data@[5]);
    }
    DvbData {
        transport_stream_id: word(data, 0),
        service_id: word(data, 2),
        original_network_id: word(data, 4),
    }
}

fn read_service(system: DigitalServiceBroadcastSystem, data: &[u8]) -> (r: DigitalServiceId)
    requires
        data@.len() >= 6,
    ensures
        r == service_of(system, data@),
{
    match system {
        DigitalServiceBroadcastSystem::AribGeneric => DigitalServiceId::AribGeneric(read_arib(data)),
        DigitalServiceBroadcastSystem::AtscGeneric => DigitalServiceId::AtscGeneric(read_atsc(data)),
        DigitalServiceBroadcastSystem::DvbGeneric => DigitalServiceId::DvbGeneric(read_dvb(data)),
        DigitalServiceBroadcastSystem::AribBs => DigitalServiceId::AribBs(read_arib(data)),
        DigitalServiceBroadcastSystem::AribCs => DigitalServiceId::AribCs(read_arib(data)),
        DigitalServiceBroadcastSystem::AribT => DigitalServiceId::AribT(read_arib(data)),
        DigitalServiceBroadcastSystem::AtscCable => DigitalServiceId::AtscCable(read_atsc(data)),
        DigitalServiceBroadcastSystem::AtscSatellite => DigitalServiceId::AtscSatellite(read_atsc(data)),
        DigitalServiceBroadcastSystem::AtscTerrestrial => DigitalServiceId::AtscTerrestrial(read_atsc(data)),
        DigitalServiceBroadcastSystem::DvbC => DigitalServiceId::DvbC(read_dvb(data)),
        DigitalServiceBroadcastSystem::DvbS => DigitalServiceId::DvbS(read_dvb(data)),
        DigitalServiceBroadcastSystem::DvbS2 => DigitalServiceId::DvbS2(read_dvb(data)),
        DigitalServiceBroadcastSystem::DvbT => DigitalServiceId::DvbT(read_dvb(data)),
    }
}

impl OperandEncodable for DigitalServiceId {
    open spec fn valid(&self) -> bool {
        true
    }

    open spec fn encoded(&self) -> Seq<u8> {
        seq![self.system().code()] + self.data()
    }

    open spec fn lengths() -> RangeView {
        RangeView::AtLeast(7)
    }

    open spec fn decoded(bytes: Seq<u8>) -> Result<Self, ErrorView> {
        if bytes.len() < 7 {
            Err(too_short(7, bytes))
        } else {
            match decoded_code::<DigitalServiceBroadcastSystem>(bytes[0]) {
                Ok(system) => Ok(service_of(system, bytes.skip(1))),
                Err(e) => Err(e),
            }
        }
    }

    open spec fn delimited(&self) -> bool {
        true
    }

    open spec fn faithful(&self) -> bool {
        true
    }

    fn to_bytes(&self, buf: &mut Vec<u8>) {
        buf.push(self.broadcast_system().to_primitive());
        match self {
            DigitalServiceId::AribGeneric(data) => emit(data, buf),
            DigitalServiceId::AtscGeneric(data) => emit(data, buf),
            DigitalServiceId::DvbGeneric(data) => emit(data, buf),
            DigitalServiceId::AribBs(data) => emit(data, buf),
            DigitalServiceId::AribCs(data) => emit(data, buf),
            DigitalServiceId::AribT(data) => emit(data, buf),
            DigitalServiceId::AtscCable(data) => emit(data, buf),
            DigitalServiceId::AtscSatellite(data) => emit(data, buf),
            DigitalServiceId::AtscTerrestrial(data) => emit(data, buf),
            DigitalServiceId::DvbC(data) => emit(data, buf),
            DigitalServiceId::DvbS(data) => emit(data, buf),
            DigitalServiceId::DvbS2(data) => emit(data, buf),
            DigitalServiceId::DvbT(data) => emit(data, buf),
        }
    }

    fn len(&self) -> (n: usize) {
        proof {
            self.data_back(Seq::empty());
        }
        7
    }

    fn expected_len() -> (r: Range) {
        Range::AtLeast(7)
    }

    fn try_from_bytes(bytes: &[u8]) -> (r: Result<Self, Error>) {
        match need(7, bytes) {
            Err(e) => Err(e),
            Ok(()) => match DigitalServiceBroadcastSystem::try_from_primitive(bytes[0]) {
                Ok(system) => {
                    let id: DigitalServiceId = read_service(system, tail(bytes, 1));
                    proof {
                        id.data_back(Seq::empty());
                    }
                    Ok(id)
                },
                Err(e) => Err(e),
            },
        }
    }

    proof fn read_back(&self, rest: Seq<u8>) {
        let bytes = self.encoded() + rest;
        assert(bytes[0] == self.system().code());
        assert(bytes.skip(1) =~= self.data() + rest);
        DigitalServiceBroadcastSystem::one_to_one();
        self.data_back(rest);
    }
}

/// An analogue or a digital service, told apart by the count of bytes.
#[derive(Debug, Copy, Clone, PartialEq, Eq, Hash, Structural)]
pub enum ServiceId {
    Digital(DigitalServiceId),
    Analogue(AnalogueServiceId),
}

impl OperandEncodable for ServiceId {
    open spec fn valid(&self) -> bool {
        true
    }

    open spec fn encoded(&self) -> Seq<u8> {
        match self {
            ServiceId::Digital(id) => id.encoded(),
            ServiceId::Analogue(id) => id.encoded(),
        }
    }

    open spec fn lengths() -> RangeView {
        RangeView::Only(seq![4usize, 7usize])
    }

    open spec fn decoded(bytes: Seq<u8>) -> Result<Self, ErrorView> {
        if bytes.len() == 4 {
            match AnalogueServiceId::decoded(bytes) {
                Ok(id) => Ok(ServiceId::Analogue(id)),
                Err(e) => Err(e),
            }
        } else if bytes.len() == 7 {
            match DigitalServiceId::decoded(bytes) {
                Ok(id) => Ok(ServiceId::Digital(id)),
                Err(e) => Err(e),
            }
        } else {
            Err(bad_length(Self::lengths(), bytes.len()))
        }
    }

    open spec fn delimited(&self) -> bool {
        false
    }

    open spec fn faithful(&self) -> bool {
        true
    }

    fn to_bytes(&self, buf: &mut Vec<u8>) {
        match self {
            ServiceId::Digital(id) => id.to_bytes(buf),
            ServiceId::Analogue(id) => id.to_bytes(buf),
        }
    }

    fn len(&self) -> (n: usize) {
        match self {
            ServiceId::Digital(id) => id.len(),
            ServiceId::Analogue(id) => id.len(),
        }
    }

    fn expected_len() -> (r: Range) {
        Range::Only(vec![4usize, 7usize])
    }

    fn try_from_bytes(bytes: &[u8]) -> (r: Result<Self, Error>) {
        if bytes.len() == 4 {
            match AnalogueServiceId::try_from_bytes(bytes) {
                Ok(id) => Ok(ServiceId::Analogue(id)),
                Err(e) => Err(e),
            }
        } else if bytes.len() == 7 {
            match DigitalServiceId::try_from_bytes(bytes) {
                Ok(id) => Ok(ServiceId::Digital(id)),
                Err(e) => Err(e),
            }
        } else {
            Err(
                Error::OutOfRange {
                    expected: Self::expected_len(),
                    got: bytes.len(),
                    quantity: "bytes",
                },
            )
        }
    }

    proof fn read_back(&self, rest: Seq<u8>) {
        let lens = seq![4usize, 7usize];
        assert(lens[0] == 4 && lens[1] == 7);
        assert(Self::lengths() == RangeView::Only(lens));
        match self {
            ServiceId::Digital(id) => {
                id.read_back(rest);
                id.data_back(rest);
            },
            ServiceId::Analogue(id) => id.read_back(rest),
        }
    }
}

/// What a tuner shows.
#[derive(Debug, Copy, Clone, PartialEq, Eq, Hash, Structural)]
pub enum TunerDisplayInfo {
    Digital,
    NotDisplayed,
    Analogue,
}

impl Coded for TunerDisplayInfo {
    open spec fn code(&self) -> u8 {
        match self {
            TunerDisplayInfo::Digital => 0x00,
            TunerDisplayInfo::NotDisplayed => 0x01,
            TunerDisplayInfo::Analogue => 0x02,
        }
    }

    open spec fn with_code(code: u8) -> Option<Self> {
        match code {
            0x00 => Some(TunerDisplayInfo::Digital),
            0x01 => Some(TunerDisplayInfo::NotDisplayed),
            0x02 => Some(TunerDisplayInfo::Analogue),
            _ => None,
        }
    }

    open spec fn label() -> Seq<char> {
        "TunerDisplayInfo"@
    }

    fn to_primitive(&self) -> (code: u8) {
        match self {
            TunerDisplayInfo::Digital => 0x00,
            TunerDisplayInfo::NotDisplayed => 0x01,
            TunerDisplayInfo::Analogue => 0x02,
        }
    }

    fn from_primitive(code: u8) -> (r: Option<Self>) {
        match code {
            0x00 => Some(TunerDisplayInfo::Digital),
            0x01 => Some(TunerDisplayInfo::NotDisplayed),
            0x02 => Some(TunerDisplayInfo::Analogue),
            _ => None,
        }
    }

    fn type_label() -> (r: &'static str) {
        "TunerDisplayInfo"
    }

    proof fn one_to_one() {
    }
}

/// What a tuner is doing.
#[derive(Debug, Copy, Clone, PartialEq, Eq, Hash, Structural)]
pub struct TunerDeviceInfo {
    pub recording: bool,
    pub tuner_display_info: TunerDisplayInfo,
    pub service_id: ServiceId,
}

impl OperandEncodable for TunerDeviceInfo {
    open spec fn valid(&self) -> bool {
        true
    }

    open spec fn encoded(&self) -> Seq<u8> {
        seq![
            (if self.recording {
                128 + self.tuner_display_info.code()
            } else {
                self.tuner_display_info.code() as int
            }) as u8,
        ] + self.service_id.encoded()
    }

    open spec fn lengths() -> RangeView {
        RangeView::AtLeast(5)
    }

    open spec fn decoded(bytes: Seq<u8>) -> Result<Self, ErrorView> {
        if bytes.len() < 5 {
            Err(too_short(5, bytes))
        } else {
            match decoded_code::<TunerDisplayInfo>(bytes[0] % 128) {
                Err(e) => Err(e),
                Ok(tuner_display_info) => match ServiceId::decoded(bytes.skip(1)) {
                    Err(e) => Err(e.shifted(1)),
                    Ok(service_id) => Ok(
                        TunerDeviceInfo {
                            recording: bytes[0] >= 128,
                            tuner_display_info,
                            service_id,
                        },
                    ),
                },
            }
        }
    }

    open spec fn delimited(&self) -> bool {
        false
    }

    open spec fn faithful(&self) -> bool {
        true
    }

    fn to_bytes(&self, buf: &mut Vec<u8>) {
        let info: u8 = self.tuner_display_info.to_primitive();
        buf.push(
            if self.recording {
                128 + info
            } else {
                info
            },
        );
        self.service_id.to_bytes(buf);
    }

    fn len(&self) -> (n: usize) {
        1 + self.service_id.len()
    }

    fn expected_len() -> (r: Range) {
        Range::AtLeast(5)
    }

    fn try_from_bytes(bytes: &[u8]) -> (r: Result<Self, Error>) {
        match need(5, bytes) {
            Err(e) => return Err(e),
            Ok(()) => {},
        }
        match TunerDisplayInfo::try_from_primitive(bytes[0] % 128) {
            Err(e) => Err(e),
            Ok(tuner_display_info) => match ServiceId::try_from_bytes(tail(bytes, 1)) {
                Err(e) => Err(e.shift(1)),
                Ok(service_id) => Ok(
                    TunerDeviceInfo { recording: bytes[0] >= 128, tuner_display_info, service_id },
                ),
            },
        }
    }

    proof fn read_back(&self, rest: Seq<u8>) {
        let bytes = self.encoded() + rest;
        assert(bytes[0] == self.encoded()[0]);
        assert(bytes.skip(1) =~= self.service_id.encoded() + rest);
        TunerDisplayInfo::one_to_one();
        self.service_id.read_back(rest);
    }
}

/// A source outside the recording device, told apart by the count of bytes.
#[derive(Debug, Copy, Clone, PartialEq, Eq, Hash, Structural)]
pub enum ExternalSource {
    Plug(u8),
    PhysicalAddress(PhysicalAddress),
}

impl OperandEncodable for ExternalSource {
    open spec fn valid(&self) -> bool {
        true
    }

    open spec fn encoded(&self) -> Seq<u8> {
        match self {
            ExternalSource::Plug(plug) => plug.encoded(),
            ExternalSource::PhysicalAddress(address) => address.encoded(),
        }
    }

    open spec fn lengths() -> RangeView {
        RangeView::Only(seq![1usize, 2usize])
    }

    open spec fn decoded(bytes: Seq<u8>) -> Result<Self, ErrorView> {
        if bytes.len() == 1 {
            Ok(ExternalSource::Plug(bytes[0]))
        } else if bytes.len() == 2 {
            Ok(ExternalSource::PhysicalAddress(PhysicalAddress(big_endian(bytes[0], bytes[1]))))
        } else {
            Err(bad_length(Self::lengths(), bytes.len()))
        }
    }

    open spec fn delimited(&self) -> bool {
        false
    }

    open spec fn faithful(&self) -> bool {
        true
    }

    fn to_bytes(&self, buf: &mut Vec<u8>) {
        match self {
            ExternalSource::Plug(plug) => plug.to_bytes(buf),
            ExternalSource::PhysicalAddress(address) => address.to_bytes(buf),
        }
    }

    fn len(&self) -> (n: usize) {
        match self {
            ExternalSource::Plug(_) => 1,
            ExternalSource::PhysicalAddress(_) => 2,
        }
    }

    fn expected_len() -> (r: Range) {
        Range::Only(vec![1usize, 2usize])
    }

    fn try_from_bytes(bytes: &[u8]) -> (r: Result<Self, Error>) {
        if bytes.len() == 1 {
            Ok(ExternalSource::Plug(bytes[0]))
        } else if bytes.len() == 2 {
            Ok(ExternalSource::PhysicalAddress(PhysicalAddress(word(bytes, 0))))
        } else {
            Err(
                Error::OutOfRange {
                    expected: Self::expected_len(),
                    got: bytes.len(),
                    quantity: "bytes",
                },
            )
        }
    }

    proof fn read_back(&self, rest: Seq<u8>) {
        let lens = seq![1usize, 2usize];
        assert(lens[0] == 1 && lens[1] == 2);
        assert(Self::lengths() == RangeView::Only(lens));
        assert(self.encoded() + rest =~= self.encoded());
    }
}

/// What to record.
#[derive(Debug, Copy, Clone, PartialEq, Eq, Hash, Structural)]
pub enum RecordSource {
    Own,
    DigitalService(DigitalServiceId),
    AnalogueService(AnalogueServiceId),
    ExternalPlug(u8),
    ExternalPhysicalAddress(PhysicalAddress),
}

impl RecordSource {
    /// The kind of the source.
    pub open spec fn kind(self) -> RecordSourceType {
        match self {
            RecordSource::Own => RecordSourceType::Own,
            RecordSource::DigitalService(_) => RecordSourceType::Digital,
            RecordSource::AnalogueService(_) => RecordSourceType::Analogue,
            RecordSource::ExternalPlug(_) => RecordSourceType::ExternalPlug,
            RecordSource::ExternalPhysicalAddress(_) => RecordSourceType::ExternalPhysicalAddress,
        }
    }

    /// The kind of the source.
    pub fn source_type(&self) -> (r: RecordSourceType)
        ensures
            r == self.kind(),
    {
        match self {
            RecordSource::Own => RecordSourceType::Own,
            RecordSource::DigitalService(_) => RecordSourceType::Digital,
            RecordSource::AnalogueService(_) => RecordSourceType::Analogue,
            RecordSource::ExternalPlug(_) => RecordSourceType::ExternalPlug,
            RecordSource::ExternalPhysicalAddress(_) => RecordSourceType::ExternalPhysicalAddress,
        }
    }
}

impl OperandEncodable for RecordSource {
    open spec fn valid(&self) -> bool {
        true
    }

    open spec fn encoded(&self) -> Seq<u8> {
        seq![self.kind().code()] + (match self {
            RecordSource::Own => Seq::empty(),
            RecordSource::DigitalService(x) => x.encoded(),
            RecordSource::AnalogueService(x) => x.encoded(),
            RecordSource::ExternalPlug(x) => x.encoded(),
            RecordSource::ExternalPhysicalAddress(x) => x.encoded(),
        })
    }

    open spec fn lengths() -> RangeView {
        RangeView::AtLeast(1)
    }

    open spec fn decoded(bytes: Seq<u8>) -> Result<Self, ErrorView> {
        if bytes.len() < 1 {
            Err(too_short(1, bytes))
        } else {
            match decoded_code::<RecordSourceType>(bytes[0]) {
                Err(e) => Err(e),
                Ok(kind) => match kind {
                    RecordSourceType::Own => Ok(RecordSource::Own),
                    RecordSourceType::Digital => match DigitalServiceId::decoded(bytes.skip(1)) {
                        Ok(x) => Ok(RecordSource::DigitalService(x)),
                        Err(e) => Err(e.shifted(1)),
                    },
                    RecordSourceType::Analogue => match AnalogueServiceId::decoded(bytes.skip(1)) {
                        Ok(x) => Ok(RecordSource::AnalogueService(x)),
                        Err(e) => Err(e.shifted(1)),
                    },
                    RecordSourceType::ExternalPlug => match u8::decoded(bytes.skip(1)) {
                        Ok(x) => Ok(RecordSource::ExternalPlug(x)),
                        Err(e) => Err(e.shifted(1)),
                    },
                    RecordSourceType::ExternalPhysicalAddress => match PhysicalAddress::decoded(bytes.skip(1)) {
                        Ok(x) => Ok(RecordSource::ExternalPhysicalAddress(x)),
                        Err(e) => Err(e.shifted(1)),
                    },
                },
            }
        }
    }

    open spec fn delimited(&self) -> bool {
        true
    }

    open spec fn faithful(&self) -> bool {
        true
    }

    fn to_bytes(&self, buf: &mut Vec<u8>) {
        buf.push(self.source_type().to_primitive());
        match self {
            RecordSource::Own => {},
            RecordSource::DigitalService(x) => x.to_bytes(buf),
            RecordSource::AnalogueService(x) => x.to_bytes(buf),
            RecordSource::ExternalPlug(x) => x.to_bytes(buf),
            RecordSource::ExternalPhysicalAddress(x) => x.to_bytes(buf),
        }
    }

    fn len(&self) -> (n: usize) {
        match self {
            RecordSource::Own => 1,
            RecordSource::DigitalService(x) => 1 + x.len(),
            RecordSource::AnalogueService(x) => 1 + x.len(),
            RecordSource::ExternalPlug(x) => 1 + x.len(),
            RecordSource::ExternalPhysicalAddress(x) => 1 + x.len(),
        }
    }

    fn expected_len() -> (r: Range) {
        Range::AtLeast(1)
    }

    fn try_from_bytes(bytes: &[u8]) -> (r: Result<Self, Error>) {
        match need(1, bytes) {
            Err(e) => Err(e),
            Ok(()) => match RecordSourceType::try_from_primitive(bytes[0]) {
                Err(e) => Err(e),
                Ok(kind) => match kind {
                    RecordSourceType::Own => Ok(RecordSource::Own),
                    RecordSourceType::Digital => match DigitalServiceId::try_from_bytes(tail(bytes, 1)) {
                        Ok(x) => Ok(RecordSource::DigitalService(x)),
                        Err(e) => Err(e.shift(1)),
                    },
                    RecordSourceType::Analogue => match AnalogueServiceId::try_from_bytes(tail(bytes, 1)) {
                        Ok(x) => Ok(RecordSource::AnalogueService(x)),
                        Err(e) => Err(e.shift(1)),
                    },
                    RecordSourceType::ExternalPlug => match u8::try_from_bytes(tail(bytes, 1)) {
                        Ok(x) => Ok(RecordSource::ExternalPlug(x)),
                        Err(e) => Err(e.shift(1)),
                    },
                    RecordSourceType::ExternalPhysicalAddress => match PhysicalAddress::try_from_bytes(tail(bytes, 1)) {
                        Ok(x) => Ok(RecordSource::ExternalPhysicalAddress(x)),
                        Err(e) => Err(e.shift(1)),
                    },
                },
            },
        }
    }

    proof fn read_back(&self, rest: Seq<u8>) {
        let bytes = self.encoded() + rest;
        assert(bytes[0] == self.kind().code());
        RecordSourceType::one_to_one();
        match self {
            RecordSource::Own => {},
            RecordSource::DigitalService(x) => {
                assert(bytes.skip(1) =~= x.encoded() + rest);
                x.read_back(rest);
            },
            RecordSource::AnalogueService(x) => {
                assert(bytes.skip(1) =~= x.encoded() + rest);
                x.read_back(rest);
            },
            RecordSource::ExternalPlug(x) => {
                assert(bytes.skip(1) =~= x.encoded() + rest);
                x.read_back(rest);
            },
            RecordSource::ExternalPhysicalAddress(x) => {
                assert(bytes.skip(1) =~= x.encoded() + rest);
                x.read_back(rest);
            },
        }
    }
}

} // verus!
