//! Messages of the capability discovery and control channel.

use vstd::prelude::*;

use crate::address::PhysicalAddress;
use crate::codec::{
    decoded_code, emit, ends, need, parse, parse_wire, read, sound, tail, too_short, whole, width,
    wire, Coded, OperandEncodable,
};
use crate::error::{outcome, Error, ErrorView, Range, RangeView};
use crate::operand::buffer::{BoundedBufferOperand, Chunk, Element};

verus! {

/// The states of the Ethernet channel, two bits each: of the channel, of the host, of the
/// connection to the outside, and an error code.
#[derive(Debug, Copy, Clone, PartialEq, Eq, Hash, Structural)]
pub struct HecState {
    bits: u8,
}

impl HecState {
    /// The bits.
    pub closed spec fn view(&self) -> u8 {
        self.bits
    }

    /// The value with some bits.
    pub closed spec fn of(bits: u8) -> HecState {
        HecState { bits }
    }

    /// Bits and values correspond one to one.
    pub broadcast proof fn bits_and_value(bits: u8)
        ensures
            (#[trigger] HecState::of(bits))@ == bits,
    {
    }

    /// The bits tell a value apart from others.
    pub proof fn bits_identify(self)
        ensures
            HecState::of(self@) == self,
    {
    }

    /// The value with some bits.
    pub fn from_bits(bits: u8) -> (r: HecState)
        ensures
            r@ == bits,
            r == HecState::of(bits),
    {
        HecState { bits }
    }

    /// The bits.
    pub fn bits(&self) -> (bits: u8)
        ensures
            bits == self@,
    {
        self.bits
    }
}

impl OperandEncodable for HecState {
    open spec fn valid(&self) -> bool {
        true
    }

    open spec fn encoded(&self) -> Seq<u8> {
        seq![self@]
    }

    open spec fn lengths() -> RangeView {
        RangeView::AtLeast(1)
    }

    open spec fn decoded(bytes: Seq<u8>) -> Result<Self, ErrorView> {
        if bytes.len() < 1 {
            Err(too_short(1, bytes))
        } else {
            Ok(HecState::of(bytes[0]))
        }
    }

    open spec fn delimited(&self) -> bool {
        true
    }

    open spec fn faithful(&self) -> bool {
        true
    }

    fn to_bytes(&self, buf: &mut Vec<u8>) {
        buf.push(self.bits);
    }

    fn len(&self) -> (n: usize) {
        1
    }

    fn expected_len() -> (r: Range) {
        Range::AtLeast(1)
    }

    fn try_from_bytes(bytes: &[u8]) -> (r: Result<Self, Error>) {
        match need(1, bytes) {
            Err(e) => Err(e),
            Ok(()) => Ok(HecState { bits: bytes[0] }),
        }
    }

    proof fn read_back(&self, rest: Seq<u8>) {
        assert((self.encoded() + rest)[0] == self.encoded()[0]);
        self.bits_identify();
    }
}

/// A state of the hot plug signal: four bits each for the port and its state, or for the state and
/// an error code.
#[derive(Debug, Copy, Clone, PartialEq, Eq, Hash, Structural)]
pub struct HpdState {
    bits: u8,
}

impl HpdState {
    /// The bits.
    pub closed spec fn view(&self) -> u8 {
        self.bits
    }

    /// The value with some bits.
    pub closed spec fn of(bits: u8) -> HpdState {
        HpdState { bits }
    }

    /// Bits and values correspond one to one.
    pub broadcast proof fn bits_and_value(bits: u8)
        ensures
            (#[trigger] HpdState::of(bits))@ == bits,
    {
    }

    /// The bits tell a value apart from others.
    pub proof fn bits_identify(self)
        ensures
            HpdState::of(self@) == self,
    {
    }

    /// The value with some bits.
    pub fn from_bits(bits: u8) -> (r: HpdState)
        ensures
            r@ == bits,
            r == HpdState::of(bits),
    {
        HpdState { bits }
    }

    /// The bits.
    pub fn bits(&self) -> (bits: u8)
        ensures
            bits == self@,
    {
        self.bits
    }
}

impl OperandEncodable for HpdState {
    open spec fn valid(&self) -> bool {
        true
    }

    open spec fn encoded(&self) -> Seq<u8> {
        seq![self@]
    }

    open spec fn lengths() -> RangeView {
        RangeView::AtLeast(1)
    }

    open spec fn decoded(bytes: Seq<u8>) -> Result<Self, ErrorView> {
        if bytes.len() < 1 {
            Err(too_short(1, bytes))
        } else {
            Ok(HpdState::of(bytes[0]))
        }
    }

    open spec fn delimited(&self) -> bool {
        true
    }

    open spec fn faithful(&self) -> bool {
        true
    }

    fn to_bytes(&self, buf: &mut Vec<u8>) {
        buf.push(self.bits);
    }

    fn len(&self) -> (n: usize) {
        1
    }

    fn expected_len() -> (r: Range) {
        Range::AtLeast(1)
    }

    fn try_from_bytes(bytes: &[u8]) -> (r: Result<Self, Error>) {
        match need(1, bytes) {
            Err(e) => Err(e),
            Ok(()) => Ok(HpdState { bits: bytes[0] }),
        }
    }

    proof fn read_back(&self, rest: Seq<u8>) {
        assert((self.encoded() + rest)[0] == self.encoded()[0]);
        self.bits_identify();
    }
}

/// What the Ethernet channel is told to do.
#[derive(Debug, Copy, Clone, PartialEq, Eq, Hash, Structural)]
pub enum HecSetState {
    Deactivate,
    Activate,
}

impl Coded for HecSetState {
    open spec fn code(&self) -> u8 {
        match self {
            HecSetState::Deactivate => 0x00,
            HecSetState::Activate => 0x01,
        }
    }

    open spec fn with_code(code: u8) -> Option<Self> {
        match code {
            0x00 => Some(HecSetState::Deactivate),
            0x01 => Some(HecSetState::Activate),
            _ => None,
        }
    }

    open spec fn label() -> Seq<char> {
        "HecSetState"@
    }

    fn to_primitive(&self) -> (code: u8) {
        match self {
            HecSetState::Deactivate => 0x00,
            HecSetState::Activate => 0x01,
        }
    }

    fn from_primitive(code: u8) -> (r: Option<Self>) {
        match code {
            0x00 => Some(HecSetState::Deactivate),
            0x01 => Some(HecSetState::Activate),
            _ => None,
        }
    }

    fn type_label() -> (r: &'static str) {
        "HecSetState"
    }

    proof fn one_to_one() {
    }
}

impl Element for PhysicalAddress {
    open spec fn blank() -> Self {
        PhysicalAddress(0)
    }

    fn blank_element() -> (r: Self) {
        PhysicalAddress(0)
    }
}

impl Chunk for PhysicalAddress {
    open spec fn width() -> nat {
        2
    }

    open spec fn chunk(&self) -> Seq<u8> {
        seq![(self.0 / 256) as u8, (self.0 % 256) as u8]
    }

    open spec fn of_chunk(bytes: Seq<u8>) -> Self {
        PhysicalAddress((bytes[0] * 256 + bytes[1]) as u16)
    }

    fn chunk_width() -> (n: usize) {
        2
    }

    fn put(&self, buf: &mut Vec<u8>) {
        buf.push((self.0 / 256) as u8);
        buf.push((self.0 % 256) as u8);
    }

    fn get(bytes: &[u8], at: usize) -> (r: Self) {
        PhysicalAddress(bytes[at] as u16 * 256 + bytes[at + 1] as u16)
    }

    proof fn chunk_and_back(&self) {
    }
}

/// A message of the channel.
#[derive(Debug, Copy, Clone, PartialEq, Eq, Hash)]
#[allow(inconsistent_fields)]
pub enum Message {
    HecInquireState {
        terminating_address1: PhysicalAddress,
        terminating_address2: PhysicalAddress,
    },
    HecReportState {
        target_address: PhysicalAddress,
        state: HecState,
        hec_field: Option<u16>,
    },
    HecSetStateAdjacent {
        terminating_address: PhysicalAddress,
        state: HecSetState,
    },
    HecSetState {
        terminating_address1: PhysicalAddress,
        terminating_address2: PhysicalAddress,
        state: HecSetState,
        further_addresses: BoundedBufferOperand<3, PhysicalAddress>,
    },
    HecRequestDeactivation {
        terminating_address1: PhysicalAddress,
        terminating_address2: PhysicalAddress,
        terminating_address3: PhysicalAddress,
    },
    HecNotifyAlive,
    HecDiscover,
    HpdSetState {
        state: HpdState,
    },
    HpdReportState {
        state: HpdState,
    },
}

/// The kind of a message.
#[derive(Debug, Copy, Clone, PartialEq, Eq, Hash, Structural)]
pub enum Opcode {
    HecInquireState,
    HecReportState,
    HecSetStateAdjacent,
    HecSetState,
    HecRequestDeactivation,
    HecNotifyAlive,
    HecDiscover,
    HpdSetState,
    HpdReportState,
}

impl Coded for Opcode {
    open spec fn code(&self) -> u8 {
        match self {
            Opcode::HecInquireState => 0x00,
            Opcode::HecReportState => 0x01,
            Opcode::HecSetStateAdjacent => 0x02,
            Opcode::HecSetState => 0x03,
            Opcode::HecRequestDeactivation => 0x04,
            Opcode::HecNotifyAlive => 0x05,
            Opcode::HecDiscover => 0x06,
            Opcode::HpdSetState => 0x10,
            Opcode::HpdReportState => 0x11,
        }
    }

    open spec fn with_code(code: u8) -> Option<Self> {
        match code {
            0x00 => Some(Opcode::HecInquireState),
            0x01 => Some(Opcode::HecReportState),
            0x02 => Some(Opcode::HecSetStateAdjacent),
            0x03 => Some(Opcode::HecSetState),
            0x04 => Some(Opcode::HecRequestDeactivation),
            0x05 => Some(Opcode::HecNotifyAlive),
            0x06 => Some(Opcode::HecDiscover),
            0x10 => Some(Opcode::HpdSetState),
            0x11 => Some(Opcode::HpdReportState),
            _ => None,
        }
    }

    open spec fn label() -> Seq<char> {
        "Opcode"@
    }

    fn to_primitive(&self) -> (code: u8) {
        match self {
            Opcode::HecInquireState => 0x00,
            Opcode::HecReportState => 0x01,
            Opcode::HecSetStateAdjacent => 0x02,
            Opcode::HecSetState => 0x03,
            Opcode::HecRequestDeactivation => 0x04,
            Opcode::HecNotifyAlive => 0x05,
            Opcode::HecDiscover => 0x06,
            Opcode::HpdSetState => 0x10,
            Opcode::HpdReportState => 0x11,
        }
    }

    fn from_primitive(code: u8) -> (r: Option<Self>) {
        match code {
            0x00 => Some(Opcode::HecInquireState),
            0x01 => Some(Opcode::HecReportState),
            0x02 => Some(Opcode::HecSetStateAdjacent),
            0x03 => Some(Opcode::HecSetState),
            0x04 => Some(Opcode::HecRequestDeactivation),
            0x05 => Some(Opcode::HecNotifyAlive),
            0x06 => Some(Opcode::HecDiscover),
            0x10 => Some(Opcode::HpdSetState),
            0x11 => Some(Opcode::HpdReportState),
            _ => None,
        }
    }

    fn type_label() -> (r: &'static str) {
        "Opcode"
    }

    proof fn one_to_one() {
    }
}

impl Message {
    /// The kind of the message.
    pub open spec fn kind(self) -> Opcode {
        match self {
            Message::HecInquireState { .. } => Opcode::HecInquireState,
            Message::HecReportState { .. } => Opcode::HecReportState,
            Message::HecSetStateAdjacent { .. } => Opcode::HecSetStateAdjacent,
            Message::HecSetState { .. } => Opcode::HecSetState,
            Message::HecRequestDeactivation { .. } => Opcode::HecRequestDeactivation,
            Message::HecNotifyAlive => Opcode::HecNotifyAlive,
            Message::HecDiscover => Opcode::HecDiscover,
            Message::HpdSetState { .. } => Opcode::HpdSetState,
            Message::HpdReportState { .. } => Opcode::HpdReportState,
        }
    }

    /// The bytes behind the opcode.
    pub open spec fn operands(self) -> Seq<u8> {
        match self {
            Message::HecInquireState {
                terminating_address1,
                terminating_address2,
            } => wire((terminating_address1, terminating_address2)),
            Message::HecReportState { target_address, state, hec_field } => wire(
                (target_address, (state, hec_field)),
            ),
            Message::HecSetStateAdjacent {
                terminating_address,
                state,
            } => wire((terminating_address, state)),
            Message::HecSetState {
                terminating_address1,
                terminating_address2,
                state,
                further_addresses,
            } => wire((terminating_address1, (terminating_address2, (state, further_addresses)))),
            Message::HecRequestDeactivation {
                terminating_address1,
                terminating_address2,
                terminating_address3,
            } => wire((terminating_address1, (terminating_address2, terminating_address3))),
            Message::HpdSetState { state } => wire(state),
            Message::HpdReportState { state } => wire(state),
            _ => Seq::empty(),
        }
    }

    /// What bytes behind an opcode stand for.
    pub open spec fn of_operands(kind: Opcode, bytes: Seq<u8>) -> Result<Message, ErrorView> {
        match kind {
            Opcode::HecInquireState => match parse::<(PhysicalAddress, PhysicalAddress)>(bytes) {
                Ok((terminating_address1, terminating_address2)) => Ok(
                    Message::HecInquireState { terminating_address1, terminating_address2 },
                ),
                Err(e) => Err(e.shifted(1)),
            },
            Opcode::HecReportState => match parse::<(
                PhysicalAddress,
                (HecState, Option<u16>),
            )>(bytes) {
                Ok((target_address, (state, hec_field))) => Ok(
                    Message::HecReportState { target_address, state, hec_field },
                ),
                Err(e) => Err(e.shifted(1)),
            },
            Opcode::HecSetStateAdjacent => match parse::<(PhysicalAddress, HecSetState)>(bytes) {
                Ok((terminating_address, state)) => Ok(
                    Message::HecSetStateAdjacent { terminating_address, state },
                ),
                Err(e) => Err(e.shifted(1)),
            },
            Opcode::HecSetState => match parse::<(
                PhysicalAddress,
                (PhysicalAddress, (HecSetState, BoundedBufferOperand<3, PhysicalAddress>)),
            )>(bytes) {
                Ok(
                    (terminating_address1, (terminating_address2, (state, further_addresses))),
                ) => Ok(
                    Message::HecSetState {
                        terminating_address1,
                        terminating_address2,
                        state,
                        further_addresses,
                    },
                ),
                Err(e) => Err(e.shifted(1)),
            },
            Opcode::HecRequestDeactivation => match parse::<(
                PhysicalAddress,
                (PhysicalAddress, PhysicalAddress),
            )>(bytes) {
                Ok((terminating_address1, (terminating_address2, terminating_address3))) => Ok(
                    Message::HecRequestDeactivation {
                        terminating_address1,
                        terminating_address2,
                        terminating_address3,
                    },
                ),
                Err(e) => Err(e.shifted(1)),
            },
            Opcode::HecNotifyAlive => Ok(Message::HecNotifyAlive),
            Opcode::HecDiscover => Ok(Message::HecDiscover),
            Opcode::HpdSetState => match parse::<HpdState>(bytes) {
                Ok(state) => Ok(Message::HpdSetState { state }),
                Err(e) => Err(e.shifted(1)),
            },
            Opcode::HpdReportState => match parse::<HpdState>(bytes) {
                Ok(state) => Ok(Message::HpdReportState { state }),
                Err(e) => Err(e.shifted(1)),
            },
        }
    }

    fn emit_operands(&self, buf: &mut Vec<u8>)
        ensures
            final(buf)@ == old(buf)@ + self.operands(),
            self.valid(),
    {
        match self {
            Message::HecInquireState { terminating_address1, terminating_address2 } => emit(
                &(*terminating_address1, *terminating_address2),
                buf,
            ),
            Message::HecReportState { target_address, state, hec_field } => emit(
                &(*target_address, (*state, *hec_field)),
                buf,
            ),
            Message::HecSetStateAdjacent { terminating_address, state } => emit(
                &(*terminating_address, *state),
                buf,
            ),
            Message::HecSetState {
                terminating_address1,
                terminating_address2,
                state,
                further_addresses,
            } => emit(
                &(*terminating_address1, (*terminating_address2, (*state, *further_addresses))),
                buf,
            ),
            Message::HecRequestDeactivation {
                terminating_address1,
                terminating_address2,
                terminating_address3,
            } => emit(
                &(*terminating_address1, (*terminating_address2, *terminating_address3)),
                buf,
            ),
            Message::HpdSetState { state } => emit(&*state, buf),
            Message::HpdReportState { state } => emit(&*state, buf),
            _ => {},
        }
    }

    fn operands_width(&self) -> (n: usize)
        requires
            self.operands().len() < usize::MAX,
        ensures
            n == self.operands().len(),
    {
        match self {
            Message::HecInquireState { terminating_address1, terminating_address2 } => width(
                &(*terminating_address1, *terminating_address2),
            ),
            Message::HecReportState { target_address, state, hec_field } => width(
                &(*target_address, (*state, *hec_field)),
            ),
            Message::HecSetStateAdjacent { terminating_address, state } => width(
                &(*terminating_address, *state),
            ),
            Message::HecSetState {
                terminating_address1,
                terminating_address2,
                state,
                further_addresses,
            } => width(
                &(*terminating_address1, (*terminating_address2, (*state, *further_addresses))),
            ),
            Message::HecRequestDeactivation {
                terminating_address1,
                terminating_address2,
                terminating_address3,
            } => width(&(*terminating_address1, (*terminating_address2, *terminating_address3))),
            Message::HpdSetState { state } => width(&*state),
            Message::HpdReportState { state } => width(&*state),
            _ => 0,
        }
    }

    fn read_operands(kind: Opcode, bytes: &[u8]) -> (r: Result<Message, Error>)
        ensures
            outcome(r) == Self::of_operands(kind, bytes@),
            r matches Ok(m) ==> m.valid() && m.kind() == kind && m.operands().len() <= bytes@.len(),
    {
        match kind {
            Opcode::HecInquireState => match read::<(PhysicalAddress, PhysicalAddress)>(bytes) {
                Ok((terminating_address1, terminating_address2)) => Ok(
                    Message::HecInquireState { terminating_address1, terminating_address2 },
                ),
                Err(e) => Err(e.shift(1)),
            },
            Opcode::HecReportState => match read::<(
                PhysicalAddress,
                (HecState, Option<u16>),
            )>(bytes) {
                Ok((target_address, (state, hec_field))) => Ok(
                    Message::HecReportState { target_address, state, hec_field },
                ),
                Err(e) => Err(e.shift(1)),
            },
            Opcode::HecSetStateAdjacent => match read::<(PhysicalAddress, HecSetState)>(bytes) {
                Ok((terminating_address, state)) => Ok(
                    Message::HecSetStateAdjacent { terminating_address, state },
                ),
                Err(e) => Err(e.shift(1)),
            },
            Opcode::HecSetState => match read::<(
                PhysicalAddress,
                (PhysicalAddress, (HecSetState, BoundedBufferOperand<3, PhysicalAddress>)),
            )>(bytes) {
                Ok(
                    (terminating_address1, (terminating_address2, (state, further_addresses))),
                ) => Ok(
                    Message::HecSetState {
                        terminating_address1,
                        terminating_address2,
                        state,
                        further_addresses,
                    },
                ),
                Err(e) => Err(e.shift(1)),
            },
            Opcode::HecRequestDeactivation => match read::<(
                PhysicalAddress,
                (PhysicalAddress, PhysicalAddress),
            )>(bytes) {
                Ok((terminating_address1, (terminating_address2, terminating_address3))) => Ok(
                    Message::HecRequestDeactivation {
                        terminating_address1,
                        terminating_address2,
                        terminating_address3,
                    },
                ),
                Err(e) => Err(e.shift(1)),
            },
            Opcode::HecNotifyAlive => Ok(Message::HecNotifyAlive),
            Opcode::HecDiscover => Ok(Message::HecDiscover),
            Opcode::HpdSetState => match read::<HpdState>(bytes) {
                Ok(state) => Ok(Message::HpdSetState { state }),
                Err(e) => Err(e.shift(1)),
            },
            Opcode::HpdReportState => match read::<HpdState>(bytes) {
                Ok(state) => Ok(Message::HpdReportState { state }),
                Err(e) => Err(e.shift(1)),
            },
        }
    }

    proof fn operands_back(self, rest: Seq<u8>)
        requires
            self.valid(),
            self.faithful(),
            self.delimited() || rest.len() == 0,
        ensures
            Self::of_operands(
                self.kind(),
                self.operands() + rest,
            ) == Ok::<Message, ErrorView>(self),
    {
        match self {
            Message::HecInquireState { terminating_address1, terminating_address2 } => parse_wire(
                (terminating_address1, terminating_address2),
                rest,
            ),
            Message::HecReportState { target_address, state, hec_field } => parse_wire(
                (target_address, (state, hec_field)),
                rest,
            ),
            Message::HecSetStateAdjacent { terminating_address, state } => parse_wire(
                (terminating_address, state),
                rest,
            ),
            Message::HecSetState {
                terminating_address1,
                terminating_address2,
                state,
                further_addresses,
            } => parse_wire(
                (terminating_address1, (terminating_address2, (state, further_addresses))),
                rest,
            ),
            Message::HecRequestDeactivation {
                terminating_address1,
                terminating_address2,
                terminating_address3,
            } => parse_wire(
                (terminating_address1, (terminating_address2, terminating_address3)),
                rest,
            ),
            Message::HpdSetState { state } => parse_wire(state, rest),
            Message::HpdReportState { state } => parse_wire(state, rest),
            _ => {},
        }
    }

    /// The bytes of a message hold all of it.
    pub proof fn holds_all(self)
        requires
            self.valid(),
        ensures
            self.faithful(),
    {
        reveal(whole);
        reveal(sound);
    }

    /// The kind of the message.
    pub fn opcode(&self) -> (r: Opcode)
        ensures
            r == self.kind(),
    {
        match self {
            Message::HecInquireState { .. } => Opcode::HecInquireState,
            Message::HecReportState { .. } => Opcode::HecReportState,
            Message::HecSetStateAdjacent { .. } => Opcode::HecSetStateAdjacent,
            Message::HecSetState { .. } => Opcode::HecSetState,
            Message::HecRequestDeactivation { .. } => Opcode::HecRequestDeactivation,
            Message::HecNotifyAlive => Opcode::HecNotifyAlive,
            Message::HecDiscover => Opcode::HecDiscover,
            Message::HpdSetState { .. } => Opcode::HpdSetState,
            Message::HpdReportState { .. } => Opcode::HpdReportState,
        }
    }
}

impl OperandEncodable for Message {
    open spec fn valid(&self) -> bool {
        match self {
            Message::HecInquireState { terminating_address1, terminating_address2 } => sound(
                (*terminating_address1, *terminating_address2),
            ),
            Message::HecReportState { target_address, state, hec_field } => sound(
                (*target_address, (*state, *hec_field)),
            ),
            Message::HecSetStateAdjacent { terminating_address, state } => sound(
                (*terminating_address, *state),
            ),
            Message::HecSetState {
                terminating_address1,
                terminating_address2,
                state,
                further_addresses,
            } => sound(
                (*terminating_address1, (*terminating_address2, (*state, *further_addresses))),
            ),
            Message::HecRequestDeactivation {
                terminating_address1,
                terminating_address2,
                terminating_address3,
            } => sound((*terminating_address1, (*terminating_address2, *terminating_address3))),
            Message::HpdSetState { state } => sound(*state),
            Message::HpdReportState { state } => sound(*state),
            _ => true,
        }
    }

    open spec fn encoded(&self) -> Seq<u8> {
        seq![self.kind().code()] + self.operands()
    }

    open spec fn lengths() -> RangeView {
        RangeView::AtLeast(1)
    }

    open spec fn decoded(bytes: Seq<u8>) -> Result<Self, ErrorView> {
        if bytes.len() < 1 {
            Err(too_short(1, bytes))
        } else {
            match decoded_code::<Opcode>(bytes[0]) {
                Err(e) => Err(e),
                Ok(kind) => Message::of_operands(kind, bytes.skip(1)),
            }
        }
    }

    open spec fn delimited(&self) -> bool {
        match self {
            Message::HecInquireState { terminating_address1, terminating_address2 } => ends(
                (*terminating_address1, *terminating_address2),
            ),
            Message::HecReportState { target_address, state, hec_field } => ends(
                (*target_address, (*state, *hec_field)),
            ),
            Message::HecSetStateAdjacent { terminating_address, state } => ends(
                (*terminating_address, *state),
            ),
            Message::HecSetState {
                terminating_address1,
                terminating_address2,
                state,
                further_addresses,
            } => ends(
                (*terminating_address1, (*terminating_address2, (*state, *further_addresses))),
            ),
            Message::HecRequestDeactivation {
                terminating_address1,
                terminating_address2,
                terminating_address3,
            } => ends((*terminating_address1, (*terminating_address2, *terminating_address3))),
            Message::HpdSetState { state } => ends(*state),
            Message::HpdReportState { state } => ends(*state),
            _ => true,
        }
    }

    open spec fn faithful(&self) -> bool {
        match self {
            Message::HecInquireState { terminating_address1, terminating_address2 } => whole(
                (*terminating_address1, *terminating_address2),
            ),
            Message::HecReportState { target_address, state, hec_field } => whole(
                (*target_address, (*state, *hec_field)),
            ),
            Message::HecSetStateAdjacent { terminating_address, state } => whole(
                (*terminating_address, *state),
            ),
            Message::HecSetState {
                terminating_address1,
                terminating_address2,
                state,
                further_addresses,
            } => whole(
                (*terminating_address1, (*terminating_address2, (*state, *further_addresses))),
            ),
            Message::HecRequestDeactivation {
                terminating_address1,
                terminating_address2,
                terminating_address3,
            } => whole((*terminating_address1, (*terminating_address2, *terminating_address3))),
            Message::HpdSetState { state } => whole(*state),
            Message::HpdReportState { state } => whole(*state),
            _ => true,
        }
    }

    fn to_bytes(&self, buf: &mut Vec<u8>) {
        buf.push(self.opcode().to_primitive());
        self.emit_operands(buf);
    }

    fn len(&self) -> (n: usize) {
        1 + self.operands_width()
    }

    fn expected_len() -> (r: Range) {
        Range::AtLeast(1)
    }

    fn try_from_bytes(bytes: &[u8]) -> (r: Result<Self, Error>) {
        match need(1, bytes) {
            Err(e) => return Err(e),
            Ok(()) => {},
        }
        match Opcode::try_from_primitive(bytes[0]) {
            Err(e) => Err(e),
            Ok(kind) => Message::read_operands(kind, tail(bytes, 1)),
        }
    }

    proof fn read_back(&self, rest: Seq<u8>) {
        let bytes = self.encoded() + rest;
        assert(bytes[0] == self.kind().code());
        assert(bytes.skip(1) =~= self.operands() + rest);
        Opcode::one_to_one();
        self.operands_back(rest);
    }
}

} // verus!
