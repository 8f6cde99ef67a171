//! Operands that pack several values into the bits of a byte.

use vstd::prelude::*;

use crate::codec::{need, too_short, Coded, OperandEncodable};
use crate::error::{Error, ErrorView, Range, RangeView};
use crate::operand::buffer::{Chunk, Element};
use crate::operand::raw::{first_three, first_three_exist};

verus! {

/// The days of the week on which to record, from Sunday in the lowest bit; none for once only.
#[derive(Debug, Copy, Clone, PartialEq, Eq, Hash, Structural)]
pub struct RecordingSequence {
    bits: u8,
}

impl RecordingSequence {
    /// The bits.
    pub closed spec fn view(&self) -> u8 {
        self.bits
    }

    /// The value with some bits.
    pub closed spec fn of(bits: u8) -> RecordingSequence {
        RecordingSequence { bits }
    }

    /// Bits and values correspond one to one.
    pub broadcast proof fn bits_and_value(bits: u8)
        ensures
            (#[trigger] RecordingSequence::of(bits))@ == bits,
    {
    }

    /// The bits tell a value apart from others.
    pub proof fn bits_identify(self)
        ensures
            RecordingSequence::of(self@) == self,
    {
    }

    /// The value with some bits.
    pub fn from_bits(bits: u8) -> (r: RecordingSequence)
        ensures
            r@ == bits,
            r == RecordingSequence::of(bits),
    {
        RecordingSequence { bits }
    }

    /// The bits.
    pub fn bits(&self) -> (bits: u8)
        ensures
            bits == self@,
    {
        self.bits
    }
}

impl OperandEncodable for RecordingSequence {
    open spec fn valid(&self) -> bool {
        true
    }

    open spec fn encoded(&self) -> Seq<u8> {
        seq![self@]
    }

    open spec fn lengths() -> RangeView {
        RangeView::AtLeast(1)
    }

    open spec fn decoded(bytes: Seq<u8>) -> Result<Self, ErrorView> {
        if bytes.len() < 1 {
            Err(too_short(1, bytes))
        } else {
            Ok(RecordingSequence::of(bytes[0]))
        }
    }

    open spec fn delimited(&self) -> bool {
        true
    }

    open spec fn faithful(&self) -> bool {
        true
    }

    fn to_bytes(&self, buf: &mut Vec<u8>) {
        buf.push(self.bits);
    }

    fn len(&self) -> (n: usize) {
        1
    }

    fn expected_len() -> (r: Range) {
        Range::AtLeast(1)
    }

    fn try_from_bytes(bytes: &[u8]) -> (r: Result<Self, Error>) {
        match need(1, bytes) {
            Err(e) => Err(e),
            Ok(()) => Ok(RecordingSequence { bits: bytes[0] }),
        }
    }

    proof fn read_back(&self, rest: Seq<u8>) {
        assert((self.encoded() + rest)[0] == self.encoded()[0]);
        self.bits_identify();
    }
}

/// Everything that a device is.
#[derive(Debug, Copy, Clone, PartialEq, Eq, Hash, Structural)]
pub struct AllDeviceTypes {
    bits: u8,
}

impl AllDeviceTypes {
    /// The bits.
    pub closed spec fn view(&self) -> u8 {
        self.bits
    }

    /// The value with some bits.
    pub closed spec fn of(bits: u8) -> AllDeviceTypes {
        AllDeviceTypes { bits }
    }

    /// Bits and values correspond one to one.
    pub broadcast proof fn bits_and_value(bits: u8)
        ensures
            (#[trigger] AllDeviceTypes::of(bits))@ == bits,
    {
    }

    /// The bits tell a value apart from others.
    pub proof fn bits_identify(self)
        ensures
            AllDeviceTypes::of(self@) == self,
    {
    }

    /// The value with some bits.
    pub fn from_bits(bits: u8) -> (r: AllDeviceTypes)
        ensures
            r@ == bits,
            r == AllDeviceTypes::of(bits),
    {
        AllDeviceTypes { bits }
    }

    /// The bits.
    pub fn bits(&self) -> (bits: u8)
        ensures
            bits == self@,
    {
        self.bits
    }
}

impl OperandEncodable for AllDeviceTypes {
    open spec fn valid(&self) -> bool {
        true
    }

    open spec fn encoded(&self) -> Seq<u8> {
        seq![self@]
    }

    open spec fn lengths() -> RangeView {
        RangeView::AtLeast(1)
    }

    open spec fn decoded(bytes: Seq<u8>) -> Result<Self, ErrorView> {
        if bytes.len() < 1 {
            Err(too_short(1, bytes))
        } else {
            Ok(AllDeviceTypes::of(bytes[0]))
        }
    }

    open spec fn delimited(&self) -> bool {
        true
    }

    open spec fn faithful(&self) -> bool {
        true
    }

    fn to_bytes(&self, buf: &mut Vec<u8>) {
        buf.push(self.bits);
    }

    fn len(&self) -> (n: usize) {
        1
    }

    fn expected_len() -> (r: Range) {
        Range::AtLeast(1)
    }

    fn try_from_bytes(bytes: &[u8]) -> (r: Result<Self, Error>) {
        match need(1, bytes) {
            Err(e) => Err(e),
            Ok(()) => Ok(AllDeviceTypes { bits: bytes[0] }),
        }
    }

    proof fn read_back(&self, rest: Seq<u8>) {
        assert((self.encoded() + rest)[0] == self.encoded()[0]);
        self.bits_identify();
    }
}

/// The menus that a source offers for its remote control; bit six marks a source.
#[derive(Debug, Copy, Clone, PartialEq, Eq, Hash, Structural)]
pub struct RcProfileSource {
    bits: u8,
}

impl RcProfileSource {
    /// The bits.
    pub closed spec fn view(&self) -> u8 {
        self.bits
    }

    /// The value with some bits.
    pub closed spec fn of(bits: u8) -> RcProfileSource {
        RcProfileSource { bits }
    }

    /// Bits and values correspond one to one.
    pub broadcast proof fn bits_and_value(bits: u8)
        ensures
            (#[trigger] RcProfileSource::of(bits))@ == bits,
    {
    }

    /// The bits tell a value apart from others.
    pub proof fn bits_identify(self)
        ensures
            RcProfileSource::of(self@) == self,
    {
    }

    /// The value with some bits.
    pub fn from_bits(bits: u8) -> (r: RcProfileSource)
        ensures
            r@ == bits,
            r == RcProfileSource::of(bits),
    {
        RcProfileSource { bits }
    }

    /// The bits.
    pub fn bits(&self) -> (bits: u8)
        ensures
            bits == self@,
    {
        self.bits
    }

    /// All flags.
    pub fn all() -> (r: RcProfileSource)
        ensures
            r@ == 0x5f,
            r == RcProfileSource::of(0x5f),
    {
        RcProfileSource { bits: 0x5f }
    }
}

/// What a device can do.
#[derive(Debug, Copy, Clone, PartialEq, Eq, Hash, Structural)]
pub struct DeviceFeatures1 {
    bits: u8,
}

impl DeviceFeatures1 {
    /// The bits.
    pub closed spec fn view(&self) -> u8 {
        self.bits
    }

    /// The value with some bits.
    pub closed spec fn of(bits: u8) -> DeviceFeatures1 {
        DeviceFeatures1 { bits }
    }

    /// Bits and values correspond one to one.
    pub broadcast proof fn bits_and_value(bits: u8)
        ensures
            (#[trigger] DeviceFeatures1::of(bits))@ == bits,
    {
    }

    /// The bits tell a value apart from others.
    pub proof fn bits_identify(self)
        ensures
            DeviceFeatures1::of(self@) == self,
    {
    }

    /// The value with some bits.
    pub fn from_bits(bits: u8) -> (r: DeviceFeatures1)
        ensures
            r@ == bits,
            r == DeviceFeatures1::of(bits),
    {
        DeviceFeatures1 { bits }
    }

    /// The bits.
    pub fn bits(&self) -> (bits: u8)
        ensures
            bits == self@,
    {
        self.bits
    }

    /// All flags.
    pub fn all() -> (r: DeviceFeatures1)
        ensures
            r@ == 0x7f,
            r == DeviceFeatures1::of(0x7f),
    {
        DeviceFeatures1 { bits: 0x7f }
    }
}

/// A volume in the lowest seven bits, and whether the sound is off.
#[derive(Debug, Copy, Clone, PartialEq, Eq, Hash, Structural)]
pub struct AudioStatus {
    bits: u8,
}

impl AudioStatus {
    /// The bits.
    pub closed spec fn view(&self) -> u8 {
        self.bits
    }

    /// The value with some bits.
    pub closed spec fn of(bits: u8) -> AudioStatus {
        AudioStatus { bits }
    }

    /// Bits and values correspond one to one.
    pub broadcast proof fn bits_and_value(bits: u8)
        ensures
            (#[trigger] AudioStatus::of(bits))@ == bits,
    {
    }

    /// The bits tell a value apart from others.
    pub proof fn bits_identify(self)
        ensures
            AudioStatus::of(self@) == self,
    {
    }

    /// The value with some bits.
    pub fn from_bits(bits: u8) -> (r: AudioStatus)
        ensures
            r@ == bits,
            r == AudioStatus::of(bits),
    {
        AudioStatus { bits }
    }

    /// The bits.
    pub fn bits(&self) -> (bits: u8)
        ensures
            bits == self@,
    {
        self.bits
    }
}

impl OperandEncodable for AudioStatus {
    open spec fn valid(&self) -> bool {
        true
    }

    open spec fn encoded(&self) -> Seq<u8> {
        seq![self@]
    }

    open spec fn lengths() -> RangeView {
        RangeView::AtLeast(1)
    }

    open spec fn decoded(bytes: Seq<u8>) -> Result<Self, ErrorView> {
        if bytes.len() < 1 {
            Err(too_short(1, bytes))
        } else {
            Ok(AudioStatus::of(bytes[0]))
        }
    }

    open spec fn delimited(&self) -> bool {
        true
    }

    open spec fn faithful(&self) -> bool {
        true
    }

    fn to_bytes(&self, buf: &mut Vec<u8>) {
        buf.push(self.bits);
    }

    fn len(&self) -> (n: usize) {
        1
    }

    fn expected_len() -> (r: Range) {
        Range::AtLeast(1)
    }

    fn try_from_bytes(bytes: &[u8]) -> (r: Result<Self, Error>) {
        match need(1, bytes) {
            Err(e) => Err(e),
            Ok(()) => Ok(AudioStatus { bits: bytes[0] }),
        }
    }

    proof fn read_back(&self, rest: Seq<u8>) {
        assert((self.encoded() + rest)[0] == self.encoded()[0]);
        self.bits_identify();
    }
}

impl AudioStatus {
    /// A volume of zero, with the sound on.
    pub fn new() -> (r: AudioStatus)
        ensures
            r@ == 0,
    {
        AudioStatus { bits: 0 }
    }

    /// The same with another volume.
    pub fn with_volume(self, volume: u8) -> (r: AudioStatus)
        requires
            volume < 128,
        ensures
            r@ == self@ / 128 * 128 + volume,
    {
        AudioStatus { bits: self.bits / 128 * 128 + volume }
    }

    /// The same with the sound off or on.
    pub fn with_mute(self, mute: bool) -> (r: AudioStatus)
        ensures
            r@ == self@ % 128 + (if mute { 128int } else { 0 }),
    {
        AudioStatus {
            bits: if mute {
                self.bits % 128 + 128
            } else {
                self.bits % 128
            },
        }
    }

    /// The volume.
    pub fn volume(&self) -> (r: u8)
        ensures
            r == self@ % 128,
    {
        self.bits % 128
    }

    /// Whether the sound is off.
    pub fn mute(&self) -> (r: bool)
        ensures
            r == (self@ >= 128),
    {
        self.bits >= 128
    }
}

/// Whether a delay of the sound makes up for that of the picture.
#[derive(Debug, Copy, Clone, PartialEq, Eq, Hash, Structural)]
pub enum AudioOutputCompensated {
    NotApplicable,
    Delay,
    NoDelay,
    PartialDelay,
}

impl Coded for AudioOutputCompensated {
    open spec fn code(&self) -> u8 {
        match self {
            AudioOutputCompensated::NotApplicable => 0x00,
            AudioOutputCompensated::Delay => 0x01,
            AudioOutputCompensated::NoDelay => 0x02,
            AudioOutputCompensated::PartialDelay => 0x03,
        }
    }

    open spec fn with_code(code: u8) -> Option<Self> {
        match code {
            0x00 => Some(AudioOutputCompensated::NotApplicable),
            0x01 => Some(AudioOutputCompensated::Delay),
            0x02 => Some(AudioOutputCompensated::NoDelay),
            0x03 => Some(AudioOutputCompensated::PartialDelay),
            _ => None,
        }
    }

    open spec fn label() -> Seq<char> {
        "AudioOutputCompensated"@
    }

    fn to_primitive(&self) -> (code: u8) {
        match self {
            AudioOutputCompensated::NotApplicable => 0x00,
            AudioOutputCompensated::Delay => 0x01,
            AudioOutputCompensated::NoDelay => 0x02,
            AudioOutputCompensated::PartialDelay => 0x03,
        }
    }

    fn from_primitive(code: u8) -> (r: Option<Self>) {
        match code {
            0x00 => Some(AudioOutputCompensated::NotApplicable),
            0x01 => Some(AudioOutputCompensated::Delay),
            0x02 => Some(AudioOutputCompensated::NoDelay),
            0x03 => Some(AudioOutputCompensated::PartialDelay),
            _ => None,
        }
    }

    fn type_label() -> (r: &'static str) {
        "AudioOutputCompensated"
    }

    proof fn one_to_one() {
    }
}

/// How sound is compensated in the lowest two bits, and whether the latency is low.
#[derive(Debug, Copy, Clone, PartialEq, Eq, Hash, Structural)]
pub struct LatencyFlags {
    bits: u8,
}

impl LatencyFlags {
    /// The bits.
    pub closed spec fn view(&self) -> u8 {
        self.bits
    }

    /// The value with some bits.
    pub closed spec fn of(bits: u8) -> LatencyFlags {
        LatencyFlags { bits }
    }

    /// Bits and values correspond one to one.
    pub broadcast proof fn bits_and_value(bits: u8)
        ensures
            (#[trigger] LatencyFlags::of(bits))@ == bits,
    {
    }

    /// The bits tell a value apart from others.
    pub proof fn bits_identify(self)
        ensures
            LatencyFlags::of(self@) == self,
    {
    }

    /// The value with some bits.
    pub fn from_bits(bits: u8) -> (r: LatencyFlags)
        ensures
            r@ == bits,
            r == LatencyFlags::of(bits),
    {
        LatencyFlags { bits }
    }

    /// The bits.
    pub fn bits(&self) -> (bits: u8)
        ensures
            bits == self@,
    {
        self.bits
    }
}

impl OperandEncodable for LatencyFlags {
    open spec fn valid(&self) -> bool {
        true
    }

    open spec fn encoded(&self) -> Seq<u8> {
        seq![self@]
    }

    open spec fn lengths() -> RangeView {
        RangeView::AtLeast(1)
    }

    open spec fn decoded(bytes: Seq<u8>) -> Result<Self, ErrorView> {
        if bytes.len() < 1 {
            Err(too_short(1, bytes))
        } else {
            Ok(LatencyFlags::of(bytes[0]))
        }
    }

    open spec fn delimited(&self) -> bool {
        true
    }

    open spec fn faithful(&self) -> bool {
        true
    }

    fn to_bytes(&self, buf: &mut Vec<u8>) {
        buf.push(self.bits);
    }

    fn len(&self) -> (n: usize) {
        1
    }

    fn expected_len() -> (r: Range) {
        Range::AtLeast(1)
    }

    fn try_from_bytes(bytes: &[u8]) -> (r: Result<Self, Error>) {
        match need(1, bytes) {
            Err(e) => Err(e),
            Ok(()) => Ok(LatencyFlags { bits: bytes[0] }),
        }
    }

    proof fn read_back(&self, rest: Seq<u8>) {
        assert((self.encoded() + rest)[0] == self.encoded()[0]);
        self.bits_identify();
    }
}

impl LatencyFlags {
    /// No flags.
    pub fn new() -> (r: LatencyFlags)
        ensures
            r@ == 0,
    {
        LatencyFlags { bits: 0 }
    }

    /// The same with another compensation.
    pub fn with_audio_out_compensated(self, value: AudioOutputCompensated) -> (r: LatencyFlags)
        ensures
            r@ == self@ / 4 * 4 + value.code(),
    {
        let code: u8 = value.to_primitive();
        LatencyFlags { bits: self.bits / 4 * 4 + code }
    }

    /// The same with low or ordinary latency.
    pub fn with_low_latency_mode(self, low: bool) -> (r: LatencyFlags)
        ensures
            r@ == self@ / 8 * 8 + self@ % 4 + (if low { 4int } else { 0 }),
    {
        LatencyFlags {
            bits: self.bits / 8 * 8 + self.bits % 4 + if low {
                4u8
            } else {
                0u8
            },
        }
    }

    /// How sound is compensated.
    pub fn audio_out_compensated(&self) -> (r: AudioOutputCompensated)
        ensures
            r.code() == self@ % 4,
    {
        match self.bits % 4 {
            0 => AudioOutputCompensated::NotApplicable,
            1 => AudioOutputCompensated::Delay,
            2 => AudioOutputCompensated::NoDelay,
            _ => AudioOutputCompensated::PartialDelay,
        }
    }

    /// Whether the latency is low.
    pub fn low_latency_mode(&self) -> (r: bool)
        ensures
            r == (self@ / 4 % 2 == 1),
    {
        self.bits / 4 % 2 == 1
    }
}

/// The standard that an audio format code refers to.
#[derive(Debug, Copy, Clone, PartialEq, Eq, Hash, Structural)]
pub enum AudioFormatId {
    CEA861,
    CEA861Cxt,
}

impl Coded for AudioFormatId {
    open spec fn code(&self) -> u8 {
        match self {
            AudioFormatId::CEA861 => 0x00,
            AudioFormatId::CEA861Cxt => 0x01,
        }
    }

    open spec fn with_code(code: u8) -> Option<Self> {
        match code {
            0x00 => Some(AudioFormatId::CEA861),
            0x01 => Some(AudioFormatId::CEA861Cxt),
            _ => None,
        }
    }

    open spec fn label() -> Seq<char> {
        "AudioFormatId"@
    }

    fn to_primitive(&self) -> (code: u8) {
        match self {
            AudioFormatId::CEA861 => 0x00,
            AudioFormatId::CEA861Cxt => 0x01,
        }
    }

    fn from_primitive(code: u8) -> (r: Option<Self>) {
        match code {
            0x00 => Some(AudioFormatId::CEA861),
            0x01 => Some(AudioFormatId::CEA861Cxt),
            _ => None,
        }
    }

    fn type_label() -> (r: &'static str) {
        "AudioFormatId"
    }

    proof fn one_to_one() {
    }
}

/// An audio format: its code in the lowest six bits, and the standard above.
#[derive(Debug, Copy, Clone, PartialEq, Eq, Hash, Structural)]
pub struct AudioFormatIdAndCode {
    bits: u8,
}

impl AudioFormatIdAndCode {
    /// The bits.
    pub closed spec fn view(&self) -> u8 {
        self.bits
    }

    /// The value with some bits.
    pub closed spec fn of(bits: u8) -> AudioFormatIdAndCode {
        AudioFormatIdAndCode { bits }
    }

    /// Bits and values correspond one to one.
    pub broadcast proof fn bits_and_value(bits: u8)
        ensures
            (#[trigger] AudioFormatIdAndCode::of(bits))@ == bits,
    {
    }

    /// The bits tell a value apart from others.
    pub proof fn bits_identify(self)
        ensures
            AudioFormatIdAndCode::of(self@) == self,
    {
    }

    /// The value with some bits.
    pub fn from_bits(bits: u8) -> (r: AudioFormatIdAndCode)
        ensures
            r@ == bits,
            r == AudioFormatIdAndCode::of(bits),
    {
        AudioFormatIdAndCode { bits }
    }

    /// The bits.
    pub fn bits(&self) -> (bits: u8)
        ensures
            bits == self@,
    {
        self.bits
    }
}

impl AudioFormatIdAndCode {
    /// Code zero of the first standard.
    pub fn new() -> (r: AudioFormatIdAndCode)
        ensures
            r@ == 0,
    {
        AudioFormatIdAndCode { bits: 0 }
    }

    /// The same with another code.
    pub fn with_code(self, code: u8) -> (r: AudioFormatIdAndCode)
        requires
            code < 64,
        ensures
            r@ == self@ / 64 * 64 + code,
    {
        AudioFormatIdAndCode { bits: self.bits / 64 * 64 + code }
    }

    /// The same of another standard.
    pub fn with_id(self, id: AudioFormatId) -> (r: AudioFormatIdAndCode)
        ensures
            r@ == id.code() * 64 + self@ % 64,
    {
        let code: u8 = id.to_primitive();
        AudioFormatIdAndCode { bits: code * 64 + self.bits % 64 }
    }
}

impl Element for AudioFormatIdAndCode {
    open spec fn blank() -> Self {
        AudioFormatIdAndCode::of(0)
    }

    fn blank_element() -> (r: Self) {
        AudioFormatIdAndCode { bits: 0 }
    }
}

impl Chunk for AudioFormatIdAndCode {
    open spec fn width() -> nat {
        1
    }

    open spec fn chunk(&self) -> Seq<u8> {
        seq![self@]
    }

    open spec fn of_chunk(bytes: Seq<u8>) -> Self {
        AudioFormatIdAndCode::of(bytes[0])
    }

    fn chunk_width() -> (n: usize) {
        1
    }

    fn put(&self, buf: &mut Vec<u8>) {
        buf.push(self.bits);
    }

    fn get(bytes: &[u8], at: usize) -> (r: Self) {
        AudioFormatIdAndCode { bits: bytes[at] }
    }

    proof fn chunk_and_back(&self) {
    }
}

/// A short audio descriptor.
pub type ShortAudioDescriptor = [u8; 3];

impl Element for [u8; 3] {
    open spec fn blank() -> Self {
        vstd::array::spec_array_fill_for_copy_type::<u8, 3>(0)
    }

    fn blank_element() -> (r: Self) {
        [0u8; 3]
    }
}

impl Chunk for [u8; 3] {
    open spec fn width() -> nat {
        3
    }

    open spec fn chunk(&self) -> Seq<u8> {
        self@
    }

    open spec fn of_chunk(bytes: Seq<u8>) -> Self {
        first_three(bytes)
    }

    fn chunk_width() -> (n: usize) {
        3
    }

    fn put(&self, buf: &mut Vec<u8>) {
        buf.push(self[0]);
        buf.push(self[1]);
        buf.push(self[2]);
        assert(self@ =~= seq![self[0], self[1], self[2]]);
    }

    fn get(bytes: &[u8], at: usize) -> (r: Self) {
        let r: [u8; 3] = [bytes[at], bytes[at + 1], bytes[at + 2]];
        proof {
            let chunk = bytes@.subrange(at as int, at + 3);
            assert(r@ =~= chunk.take(3));
            first_three_exist(chunk, r);
        }
        r
    }

    proof fn chunk_and_back(&self) {
        assert(self@.take(3) =~= self@);
        first_three_exist(self@, *self);
    }
}

} // verus!
