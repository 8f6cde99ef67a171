//! Addresses, identities and modes of devices.

use vstd::prelude::*;

use crate::codec::{need, too_short, Coded, OperandEncodable};
use crate::error::{outcome, Error, ErrorView, Range, RangeView};
use crate::operand::PrimaryDeviceType;

verus! {

/// The address of a device on the bus. The last one stands for a device without an address where it
/// sends, and for all devices where it receives.
#[derive(Debug, Copy, Clone, PartialEq, Eq, Hash, Structural)]
pub enum LogicalAddress {
    Tv,
    RecordingDevice1,
    RecordingDevice2,
    Tuner1,
    PlaybackDevice1,
    AudioSystem,
    Tuner2,
    Tuner3,
    PlaybackDevice2,
    RecordingDevice3,
    Tuner4,
    PlaybackDevice3,
    Backup1,
    Backup2,
    Specific,
    Unregistered,
}

impl Coded for LogicalAddress {
    open spec fn code(&self) -> u8 {
        match self {
            LogicalAddress::Tv => 0x00,
            LogicalAddress::RecordingDevice1 => 0x01,
            LogicalAddress::RecordingDevice2 => 0x02,
            LogicalAddress::Tuner1 => 0x03,
            LogicalAddress::PlaybackDevice1 => 0x04,
            LogicalAddress::AudioSystem => 0x05,
            LogicalAddress::Tuner2 => 0x06,
            LogicalAddress::Tuner3 => 0x07,
            LogicalAddress::PlaybackDevice2 => 0x08,
            LogicalAddress::RecordingDevice3 => 0x09,
            LogicalAddress::Tuner4 => 0x0a,
            LogicalAddress::PlaybackDevice3 => 0x0b,
            LogicalAddress::Backup1 => 0x0c,
            LogicalAddress::Backup2 => 0x0d,
            LogicalAddress::Specific => 0x0e,
            LogicalAddress::Unregistered => 0x0f,
        }
    }

    open spec fn with_code(code: u8) -> Option<Self> {
        match code {
            0x00 => Some(LogicalAddress::Tv),
            0x01 => Some(LogicalAddress::RecordingDevice1),
            0x02 => Some(LogicalAddress::RecordingDevice2),
            0x03 => Some(LogicalAddress::Tuner1),
            0x04 => Some(LogicalAddress::PlaybackDevice1),
            0x05 => Some(LogicalAddress::AudioSystem),
            0x06 => Some(LogicalAddress::Tuner2),
            0x07 => Some(LogicalAddress::Tuner3),
            0x08 => Some(LogicalAddress::PlaybackDevice2),
            0x09 => Some(LogicalAddress::RecordingDevice3),
            0x0a => Some(LogicalAddress::Tuner4),
            0x0b => Some(LogicalAddress::PlaybackDevice3),
            0x0c => Some(LogicalAddress::Backup1),
            0x0d => Some(LogicalAddress::Backup2),
            0x0e => Some(LogicalAddress::Specific),
            0x0f => Some(LogicalAddress::Unregistered),
            _ => None,
        }
    }

    open spec fn label() -> Seq<char> {
        "LogicalAddress"@
    }

    fn to_primitive(&self) -> (code: u8) {
        match self {
            LogicalAddress::Tv => 0x00,
            LogicalAddress::RecordingDevice1 => 0x01,
            LogicalAddress::RecordingDevice2 => 0x02,
            LogicalAddress::Tuner1 => 0x03,
            LogicalAddress::PlaybackDevice1 => 0x04,
            LogicalAddress::AudioSystem => 0x05,
            LogicalAddress::Tuner2 => 0x06,
            LogicalAddress::Tuner3 => 0x07,
            LogicalAddress::PlaybackDevice2 => 0x08,
            LogicalAddress::RecordingDevice3 => 0x09,
            LogicalAddress::Tuner4 => 0x0a,
            LogicalAddress::PlaybackDevice3 => 0x0b,
            LogicalAddress::Backup1 => 0x0c,
            LogicalAddress::Backup2 => 0x0d,
            LogicalAddress::Specific => 0x0e,
            LogicalAddress::Unregistered => 0x0f,
        }
    }

    fn from_primitive(code: u8) -> (r: Option<Self>) {
        match code {
            0x00 => Some(LogicalAddress::Tv),
            0x01 => Some(LogicalAddress::RecordingDevice1),
            0x02 => Some(LogicalAddress::RecordingDevice2),
            0x03 => Some(LogicalAddress::Tuner1),
            0x04 => Some(LogicalAddress::PlaybackDevice1),
            0x05 => Some(LogicalAddress::AudioSystem),
            0x06 => Some(LogicalAddress::Tuner2),
            0x07 => Some(LogicalAddress::Tuner3),
            0x08 => Some(LogicalAddress::PlaybackDevice2),
            0x09 => Some(LogicalAddress::RecordingDevice3),
            0x0a => Some(LogicalAddress::Tuner4),
            0x0b => Some(LogicalAddress::PlaybackDevice3),
            0x0c => Some(LogicalAddress::Backup1),
            0x0d => Some(LogicalAddress::Backup2),
            0x0e => Some(LogicalAddress::Specific),
            0x0f => Some(LogicalAddress::Unregistered),
            _ => None,
        }
    }

    fn type_label() -> (r: &'static str) {
        "LogicalAddress"
    }

    proof fn one_to_one() {
    }
}

impl LogicalAddress {
    /// All devices.
    #[allow(non_upper_case_globals)]
    pub const Broadcast: LogicalAddress = LogicalAddress::Unregistered;
}

impl Default for LogicalAddress {
    fn default() -> (r: Self)
        ensures
            r == LogicalAddress::Unregistered,
    {
        LogicalAddress::Unregistered
    }
}

/// The kind of logical address that a device asks for.
#[derive(Debug, Copy, Clone, PartialEq, Eq, Hash, Structural)]
pub enum LogicalAddressType {
    Tv,
    Record,
    Tuner,
    Playback,
    AudioSystem,
    Specific,
    Unregistered,
}

impl Coded for LogicalAddressType {
    open spec fn code(&self) -> u8 {
        match self {
            LogicalAddressType::Tv => 0x00,
            LogicalAddressType::Record => 0x01,
            LogicalAddressType::Tuner => 0x02,
            LogicalAddressType::Playback => 0x03,
            LogicalAddressType::AudioSystem => 0x04,
            LogicalAddressType::Specific => 0x05,
            LogicalAddressType::Unregistered => 0x06,
        }
    }

    open spec fn with_code(code: u8) -> Option<Self> {
        match code {
            0x00 => Some(LogicalAddressType::Tv),
            0x01 => Some(LogicalAddressType::Record),
            0x02 => Some(LogicalAddressType::Tuner),
            0x03 => Some(LogicalAddressType::Playback),
            0x04 => Some(LogicalAddressType::AudioSystem),
            0x05 => Some(LogicalAddressType::Specific),
            0x06 => Some(LogicalAddressType::Unregistered),
            _ => None,
        }
    }

    open spec fn label() -> Seq<char> {
        "LogicalAddressType"@
    }

    fn to_primitive(&self) -> (code: u8) {
        match self {
            LogicalAddressType::Tv => 0x00,
            LogicalAddressType::Record => 0x01,
            LogicalAddressType::Tuner => 0x02,
            LogicalAddressType::Playback => 0x03,
            LogicalAddressType::AudioSystem => 0x04,
            LogicalAddressType::Specific => 0x05,
            LogicalAddressType::Unregistered => 0x06,
        }
    }

    fn from_primitive(code: u8) -> (r: Option<Self>) {
        match code {
            0x00 => Some(LogicalAddressType::Tv),
            0x01 => Some(LogicalAddressType::Record),
            0x02 => Some(LogicalAddressType::Tuner),
            0x03 => Some(LogicalAddressType::Playback),
            0x04 => Some(LogicalAddressType::AudioSystem),
            0x05 => Some(LogicalAddressType::Specific),
            0x06 => Some(LogicalAddressType::Unregistered),
            _ => None,
        }
    }

    fn type_label() -> (r: &'static str) {
        "LogicalAddressType"
    }

    proof fn one_to_one() {
    }
}

impl LogicalAddressType {
    /// What a device with such an address mainly is.
    pub open spec fn device_type(self) -> Option<PrimaryDeviceType> {
        match self {
            LogicalAddressType::Tv => Some(PrimaryDeviceType::Tv),
            LogicalAddressType::Record => Some(PrimaryDeviceType::Recording),
            LogicalAddressType::Tuner => Some(PrimaryDeviceType::Tuner),
            LogicalAddressType::Playback => Some(PrimaryDeviceType::Playback),
            LogicalAddressType::AudioSystem => Some(PrimaryDeviceType::Audio),
            LogicalAddressType::Specific => Some(PrimaryDeviceType::Processor),
            LogicalAddressType::Unregistered => None,
        }
    }

    /// What a device with such an address mainly is.
    pub fn primary_device_type(self) -> (r: Option<PrimaryDeviceType>)
        ensures
            r == self.device_type(),
    {
        match self {
            LogicalAddressType::Tv => Some(PrimaryDeviceType::Tv),
            LogicalAddressType::Record => Some(PrimaryDeviceType::Recording),
            LogicalAddressType::Tuner => Some(PrimaryDeviceType::Tuner),
            LogicalAddressType::Playback => Some(PrimaryDeviceType::Playback),
            LogicalAddressType::AudioSystem => Some(PrimaryDeviceType::Audio),
            LogicalAddressType::Specific => Some(PrimaryDeviceType::Processor),
            LogicalAddressType::Unregistered => None,
        }
    }
}

impl Default for LogicalAddressType {
    fn default() -> (r: Self)
        ensures
            r == LogicalAddressType::Unregistered,
    {
        LogicalAddressType::Unregistered
    }
}

/// The place of a device in the tree of connections: four digits, one per level.
#[derive(Debug, Copy, Clone, PartialEq, Eq, Hash, Structural)]
pub struct PhysicalAddress(pub u16);

impl PhysicalAddress {
    /// Whether the place of the device is known.
    pub fn is_valid(&self) -> (r: bool)
        ensures
            r == (self.0 != 0xffff),
    {
        self.0 != 0xffff
    }

    /// Whether the device is the root of the tree, as a television is.
    pub fn is_root(&self) -> (r: bool)
        ensures
            r == (self.0 == 0),
    {
        self.0 == 0
    }
}

impl Default for PhysicalAddress {
    /// The address of a device whose place is not known.
    fn default() -> (r: Self)
        ensures
            r == PhysicalAddress(0xffff),
    {
        PhysicalAddress(0xffff)
    }
}

impl From<u16> for PhysicalAddress {
    fn from(address: u16) -> (r: Self) {
        PhysicalAddress(address)
    }
}

impl vstd::std_specs::convert::FromSpecImpl<u16> for PhysicalAddress {
    open spec fn obeys_from_spec() -> bool {
        true
    }

    open spec fn from_spec(address: u16) -> Self {
        PhysicalAddress(address)
    }
}

/// The number written in two bytes, the more significant one first.
pub open spec fn big_endian(hi: u8, lo: u8) -> u16 {
    (hi * 256 + lo) as u16
}

impl OperandEncodable for PhysicalAddress {
    open spec fn valid(&self) -> bool {
        true
    }

    open spec fn encoded(&self) -> Seq<u8> {
        seq![(self.0 / 256) as u8, (self.0 % 256) as u8]
    }

    open spec fn lengths() -> RangeView {
        RangeView::AtLeast(2)
    }

    open spec fn decoded(bytes: Seq<u8>) -> Result<Self, ErrorView> {
        if bytes.len() < 2 {
            Err(too_short(2, bytes))
        } else {
            Ok(PhysicalAddress(big_endian(bytes[0], bytes[1])))
        }
    }

    open spec fn delimited(&self) -> bool {
        true
    }

    open spec fn faithful(&self) -> bool {
        true
    }

    fn to_bytes(&self, buf: &mut Vec<u8>) {
        buf.push((self.0 / 256) as u8);
        buf.push((self.0 % 256) as u8);
    }

    fn len(&self) -> (n: usize) {
        2
    }

    fn expected_len() -> (r: Range) {
        Range::AtLeast(2)
    }

    fn try_from_bytes(bytes: &[u8]) -> (r: Result<Self, Error>) {
        match need(2, bytes) {
            Err(e) => Err(e),
            Ok(()) => Ok(PhysicalAddress(bytes[0] as u16 * 256 + bytes[1] as u16)),
        }
    }

    proof fn read_back(&self, rest: Seq<u8>) {
        assert((self.encoded() + rest)[0] == self.encoded()[0]);
        assert((self.encoded() + rest)[1] == self.encoded()[1]);
    }
}

/// The OUI of a vendor.
#[derive(Debug, Copy, Clone, PartialEq, Eq, Hash)]
pub struct VendorId(pub [u8; 3]);

/// What the kernel takes for the absence of a vendor.
pub const CEC_VENDOR_ID_NONE: u32 = 0xffff_ffff;

impl VendorId {
    /// The number that the kernel uses for the vendor.
    pub open spec fn number(self) -> int {
        self.0[0] * 65536 + self.0[1] * 256 + self.0[2]
    }

    /// The number that the kernel uses for the vendor.
    pub fn to_sys(self) -> (n: u32)
        ensures
            n == self.number(),
    {
        self.0[0] as u32 * 65536 + self.0[1] as u32 * 256 + self.0[2] as u32
    }

    /// The vendor behind a number of the kernel, if it stands for one.
    pub fn try_from_sys(n: u32) -> (r: Result<Option<VendorId>, Error>)
        ensures
            n == CEC_VENDOR_ID_NONE <==> r == Ok::<Option<VendorId>, Error>(None),
            n < 0x100_0000 ==> (r matches Ok(Some(v)) && v.number() == n),
            0x100_0000 <= n < CEC_VENDOR_ID_NONE ==> outcome(r) == Err::<
                Option<VendorId>,
                ErrorView,
            >(ErrorView::InvalidData),
    {
        if n == CEC_VENDOR_ID_NONE {
            Ok(None)
        } else if n < 0x100_0000 {
            Ok(Some(VendorId([(n / 65536) as u8, (n / 256 % 256) as u8, (n % 256) as u8])))
        } else {
            Err(Error::InvalidData)
        }
    }

    /// The kernel's number of a vendor is one of those that stand for a vendor, and tells the vendor
    /// apart from others.
    pub proof fn number_identifies(a: VendorId, b: VendorId)
        requires
            a.number() == b.number(),
        ensures
            0 <= a.number() < 0x100_0000,
            a == b,
    {
        assert(a.0[0] == b.0[0] && a.0[1] == b.0[1] && a.0[2] == b.0[2]);
        assert(a.0 =~= b.0);
    }
}

/// Whether a message goes to one device or to all of them.
#[derive(Debug, Copy, Clone, PartialEq, Eq, Hash, Structural)]
pub enum AddressingType {
    Direct,
    Broadcast,
    Either,
}

/// How long to wait for a message.
#[derive(Debug, Copy, Clone, PartialEq, Eq, Hash, Structural)]
pub struct Timeout {
    pub ms: u32,
}

impl Timeout {
    /// No wait.
    pub fn none() -> (r: Timeout)
        ensures
            r == (Timeout { ms: 0 }),
    {
        Timeout { ms: 0 }
    }

    /// The longest wait that the kernel grants for a reply.
    pub fn max() -> (r: Timeout)
        ensures
            r == (Timeout { ms: 1000 }),
    {
        Timeout { ms: 1000 }
    }

    /// A wait of some milliseconds.
    pub fn from_ms(ms: u32) -> (r: Timeout)
        ensures
            r == (Timeout { ms }),
    {
        Timeout { ms }
    }

    /// The wait in milliseconds.
    pub fn as_ms(&self) -> (ms: u32)
        ensures
            ms == self.ms,
    {
        self.ms
    }
}

/// Whether a device may send messages.
#[derive(Debug, Copy, Clone, PartialEq, Eq, Hash, Structural)]
pub enum InitiatorMode {
    Disabled,
    Enabled,
    Exclusive,
}

impl Coded for InitiatorMode {
    open spec fn code(&self) -> u8 {
        match self {
            InitiatorMode::Disabled => 0x00,
            InitiatorMode::Enabled => 0x01,
            InitiatorMode::Exclusive => 0x02,
        }
    }

    open spec fn with_code(code: u8) -> Option<Self> {
        match code {
            0x00 => Some(InitiatorMode::Disabled),
            0x01 => Some(InitiatorMode::Enabled),
            0x02 => Some(InitiatorMode::Exclusive),
            _ => None,
        }
    }

    open spec fn label() -> Seq<char> {
        "InitiatorMode"@
    }

    fn to_primitive(&self) -> (code: u8) {
        match self {
            InitiatorMode::Disabled => 0x00,
            InitiatorMode::Enabled => 0x01,
            InitiatorMode::Exclusive => 0x02,
        }
    }

    fn from_primitive(code: u8) -> (r: Option<Self>) {
        match code {
            0x00 => Some(InitiatorMode::Disabled),
            0x01 => Some(InitiatorMode::Enabled),
            0x02 => Some(InitiatorMode::Exclusive),
            _ => None,
        }
    }

    fn type_label() -> (r: &'static str) {
        "InitiatorMode"
    }

    proof fn one_to_one() {
    }
}

/// Which messages and events a device hands out.
#[derive(Debug, Copy, Clone, PartialEq, Eq, Hash, Structural)]
pub enum FollowerMode {
    Disabled,
    Enabled,
    Exclusive,
    ExclusivePassthru,
    MonitorPin,
    Monitor,
    MonitorAll,
}

impl Coded for FollowerMode {
    open spec fn code(&self) -> u8 {
        match self {
            FollowerMode::Disabled => 0x00,
            FollowerMode::Enabled => 0x01,
            FollowerMode::Exclusive => 0x02,
            FollowerMode::ExclusivePassthru => 0x03,
            FollowerMode::MonitorPin => 0x0d,
            FollowerMode::Monitor => 0x0e,
            FollowerMode::MonitorAll => 0x0f,
        }
    }

    open spec fn with_code(code: u8) -> Option<Self> {
        match code {
            0x00 => Some(FollowerMode::Disabled),
            0x01 => Some(FollowerMode::Enabled),
            0x02 => Some(FollowerMode::Exclusive),
            0x03 => Some(FollowerMode::ExclusivePassthru),
            0x0d => Some(FollowerMode::MonitorPin),
            0x0e => Some(FollowerMode::Monitor),
            0x0f => Some(FollowerMode::MonitorAll),
            _ => None,
        }
    }

    open spec fn label() -> Seq<char> {
        "FollowerMode"@
    }

    fn to_primitive(&self) -> (code: u8) {
        match self {
            FollowerMode::Disabled => 0x00,
            FollowerMode::Enabled => 0x01,
            FollowerMode::Exclusive => 0x02,
            FollowerMode::ExclusivePassthru => 0x03,
            FollowerMode::MonitorPin => 0x0d,
            FollowerMode::Monitor => 0x0e,
            FollowerMode::MonitorAll => 0x0f,
        }
    }

    fn from_primitive(code: u8) -> (r: Option<Self>) {
        match code {
            0x00 => Some(FollowerMode::Disabled),
            0x01 => Some(FollowerMode::Enabled),
            0x02 => Some(FollowerMode::Exclusive),
            0x03 => Some(FollowerMode::ExclusivePassthru),
            0x0d => Some(FollowerMode::MonitorPin),
            0x0e => Some(FollowerMode::Monitor),
            0x0f => Some(FollowerMode::MonitorAll),
            _ => None,
        }
    }

    fn type_label() -> (r: &'static str) {
        "FollowerMode"
    }

    proof fn one_to_one() {
    }
}

/// The digits of a number to the base 16.
proof fn mode_digits(upper: int, middle: int, low: int)
    requires
        0 <= upper,
        0 <= middle < 16,
        0 <= low < 16,
    ensures
        (upper * 256 + middle * 16 + low) % 16 == low,
        (upper * 256 + middle * 16 + low) / 16 % 16 == middle,
        (upper * 256 + middle * 16 + low) / 256 == upper,
{
    let n = upper * 256 + middle * 16 + low;
    assert(n / 16 == upper * 16 + middle);
}

/// How the kernel handles the messages of a file: the mode word, with the initiator's mode in the
/// lowest four bits and the follower's mode in the next four.
#[derive(Debug, Copy, Clone, PartialEq, Eq, Hash, Structural)]
pub struct CecMessageHandlingMode {
    pub word: u32,
}

impl CecMessageHandlingMode {
    /// The bits of the initiator's mode.
    pub open spec fn initiator_bits(self) -> u8 {
        (self.word % 16) as u8
    }

    /// The bits of the follower's mode.
    pub open spec fn follower_bits(self) -> u8 {
        (self.word / 16 % 16) as u8
    }

    /// Everything above the two modes.
    pub open spec fn other_bits(self) -> u32 {
        self.word / 256
    }

    /// The initiator's mode.
    pub fn initiator(self) -> (r: Result<InitiatorMode, Error>)
        ensures
            outcome(r) == crate::codec::decoded_code::<InitiatorMode>(self.initiator_bits()),
    {
        InitiatorMode::try_from_primitive((self.word % 16) as u8)
    }

    /// The follower's mode.
    pub fn follower(self) -> (r: Result<FollowerMode, Error>)
        ensures
            outcome(r) == crate::codec::decoded_code::<FollowerMode>(self.follower_bits()),
    {
        FollowerMode::try_from_primitive((self.word / 16 % 16) as u8)
    }

    /// The word with another initiator's mode.
    pub fn with_initiator(self, mode: InitiatorMode) -> (r: CecMessageHandlingMode)
        ensures
            r.initiator_bits() == mode.code(),
            r.follower_bits() == self.follower_bits(),
            r.other_bits() == self.other_bits(),
    {
        let code: u8 = mode.to_primitive();
        assert(code < 16);
        let upper: u32 = self.word / 16;
        let word: u32 = upper * 16 + code as u32;
        proof {
            mode_digits((upper / 16) as int, (upper % 16) as int, code as int);
            mode_digits((upper / 16) as int, (upper % 16) as int, (self.word % 16) as int);
        }
        CecMessageHandlingMode { word }
    }

    /// The word with another follower's mode.
    pub fn with_follower(self, mode: FollowerMode) -> (r: CecMessageHandlingMode)
        ensures
            r.initiator_bits() == self.initiator_bits(),
            r.follower_bits() == mode.code(),
            r.other_bits() == self.other_bits(),
    {
        let code: u8 = mode.to_primitive();
        assert(code < 16);
        let upper: u32 = self.word / 256;
        let word: u32 = upper * 256 + code as u32 * 16 + self.word % 16;
        proof {
            mode_digits(upper as int, code as int, (self.word % 16) as int);
        }
        CecMessageHandlingMode { word }
    }
}

/// A physical address is two bytes, the more significant one first.
pub proof fn physical_addresses_are_two_bytes(address: PhysicalAddress, hi: u8, lo: u8)
    ensures
        address.encoded().len() == 2,
        address.encoded()[0] * 256 + address.encoded()[1] == address.0,
        PhysicalAddress::decoded(seq![hi, lo]) == Ok::<PhysicalAddress, ErrorView>(
            PhysicalAddress((hi * 256 + lo) as u16),
        ),
        big_endian(hi, lo) == hi * 256 + lo,
{
}

/// What a device mainly is, by the kind of its logical address.
pub proof fn kinds_of_addresses_tell_devices()
    ensures
        LogicalAddressType::Tv.device_type() == Some(PrimaryDeviceType::Tv),
        LogicalAddressType::Record.device_type() == Some(PrimaryDeviceType::Recording),
        LogicalAddressType::Tuner.device_type() == Some(PrimaryDeviceType::Tuner),
        LogicalAddressType::Playback.device_type() == Some(PrimaryDeviceType::Playback),
        LogicalAddressType::AudioSystem.device_type() == Some(PrimaryDeviceType::Audio),
        LogicalAddressType::Specific.device_type() == Some(PrimaryDeviceType::Processor),
        LogicalAddressType::Unregistered.device_type() is None,
{
}

/// The number of a vendor has its three bytes as digits to the base 256.
pub proof fn vendors_are_numbered_by_their_bytes(vendor: VendorId)
    ensures
        vendor.number() / 65536 == vendor.0[0],
        vendor.number() / 256 % 256 == vendor.0[1],
        vendor.number() % 256 == vendor.0[2],
{
}

/// A mode word is made of what is above the modes, the follower's mode and the initiator's mode.
pub proof fn modes_make_up_the_word(mode: CecMessageHandlingMode)
    ensures
        mode.initiator_bits() < 16,
        mode.follower_bits() < 16,
        mode.word == mode.other_bits() * 256 + mode.follower_bits() * 16 + mode.initiator_bits(),
{
    let w = mode.word as int;
    assert(w / 16 / 16 == w / 256);
}

} // verus!
