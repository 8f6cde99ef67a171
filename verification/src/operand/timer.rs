//! What became of a timer that was set.

use vstd::prelude::*;

use crate::codec::{
    decoded_code, invalid_value, need, no_such, tail, too_short, Coded, OperandEncodable,
};
use crate::error::{Error, ErrorView, Range, RangeView};
use crate::operand::time::Duration;

verus! {

/// What is known of the medium to record on.
#[derive(Debug, Copy, Clone, PartialEq, Eq, Hash, Structural)]
pub enum MediaInfo {
    UnprotectedMedia,
    ProtectedMedia,
    NoMedia,
}

impl Coded for MediaInfo {
    open spec fn code(&self) -> u8 {
        match self {
            MediaInfo::UnprotectedMedia => 0x00,
            MediaInfo::ProtectedMedia => 0x01,
            MediaInfo::NoMedia => 0x02,
        }
    }

    open spec fn with_code(code: u8) -> Option<Self> {
        match code {
            0x00 => Some(MediaInfo::UnprotectedMedia),
            0x01 => Some(MediaInfo::ProtectedMedia),
            0x02 => Some(MediaInfo::NoMedia),
            _ => None,
        }
    }

    open spec fn label() -> Seq<char> {
        "MediaInfo"@
    }

    fn to_primitive(&self) -> (code: u8) {
        match self {
            MediaInfo::UnprotectedMedia => 0x00,
            MediaInfo::ProtectedMedia => 0x01,
            MediaInfo::NoMedia => 0x02,
        }
    }

    fn from_primitive(code: u8) -> (r: Option<Self>) {
        match code {
            0x00 => Some(MediaInfo::UnprotectedMedia),
            0x01 => Some(MediaInfo::ProtectedMedia),
            0x02 => Some(MediaInfo::NoMedia),
            _ => None,
        }
    }

    fn type_label() -> (r: &'static str) {
        "MediaInfo"
    }

    proof fn one_to_one() {
    }
}

/// Whether there is space for a programmed recording.
#[derive(Debug, Copy, Clone, PartialEq, Eq, Hash, Structural)]
pub enum ProgrammedInfo {
    EnoughSpace,
    NotEnoughSpace { duration_available: Option<Duration> },
    NoMediaInfo,
    MightNotBeEnoughSpace { duration_available: Option<Duration> },
}

/// Why a recording was not programmed.
#[derive(Debug, Copy, Clone, PartialEq, Eq, Hash, Structural)]
pub enum NotProgrammedErrorInfo {
    NoFreeTimer,
    DateOutOfRange,
    RecordingSequenceError,
    InvalidExternalPlug,
    InvalidExternalPhysicalAddress,
    CaNotSupported,
    InsufficientCaEntitlements,
    ResolutionNotSupported,
    ParentalLock,
    ClockFailure,
    Duplicate { duration_available: Option<Duration> },
}

/// Whether a recording was programmed.
#[derive(Debug, Copy, Clone, PartialEq, Eq, Hash, Structural)]
pub enum TimerProgrammedInfo {
    Programmed(ProgrammedInfo),
    NotProgrammed(NotProgrammedErrorInfo),
}

impl TimerProgrammedInfo {
    /// The number for what is known, with bit four for a programmed recording.
    pub open spec fn code(self) -> u8 {
        match self {
            TimerProgrammedInfo::Programmed(ProgrammedInfo::EnoughSpace) => 0x18,
            TimerProgrammedInfo::Programmed(ProgrammedInfo::NotEnoughSpace { .. }) => 0x19,
            TimerProgrammedInfo::Programmed(ProgrammedInfo::NoMediaInfo) => 0x1a,
            TimerProgrammedInfo::Programmed(ProgrammedInfo::MightNotBeEnoughSpace { .. }) => 0x1b,
            TimerProgrammedInfo::NotProgrammed(NotProgrammedErrorInfo::NoFreeTimer) => 0x01,
            TimerProgrammedInfo::NotProgrammed(NotProgrammedErrorInfo::DateOutOfRange) => 0x02,
            TimerProgrammedInfo::NotProgrammed(NotProgrammedErrorInfo::RecordingSequenceError) => 0x03,
            TimerProgrammedInfo::NotProgrammed(NotProgrammedErrorInfo::InvalidExternalPlug) => 0x04,
            TimerProgrammedInfo::NotProgrammed(NotProgrammedErrorInfo::InvalidExternalPhysicalAddress) => 0x05,
            TimerProgrammedInfo::NotProgrammed(NotProgrammedErrorInfo::CaNotSupported) => 0x06,
            TimerProgrammedInfo::NotProgrammed(NotProgrammedErrorInfo::InsufficientCaEntitlements) => 0x07,
            TimerProgrammedInfo::NotProgrammed(NotProgrammedErrorInfo::ResolutionNotSupported) => 0x08,
            TimerProgrammedInfo::NotProgrammed(NotProgrammedErrorInfo::ParentalLock) => 0x09,
            TimerProgrammedInfo::NotProgrammed(NotProgrammedErrorInfo::ClockFailure) => 0x0a,
            TimerProgrammedInfo::NotProgrammed(NotProgrammedErrorInfo::Duplicate { .. }) => 0x0e,
        }
    }

    /// The duration that is known.
    pub open spec fn duration(self) -> Option<Duration> {
        match self {
            TimerProgrammedInfo::Programmed(ProgrammedInfo::NotEnoughSpace { duration_available }) => duration_available,
            TimerProgrammedInfo::Programmed(ProgrammedInfo::MightNotBeEnoughSpace { duration_available }) => duration_available,
            TimerProgrammedInfo::NotProgrammed(NotProgrammedErrorInfo::Duplicate { duration_available }) => duration_available,
            _ => None,
        }
    }

    /// Whether a duration may follow.
    pub open spec fn takes_duration(self) -> bool {
        self.code() == 0x19 || self.code() == 0x1b || self.code() == 0x0e
    }

    /// What a number stands for, with a duration where it takes one.
    pub open spec fn with_code(code: u8, duration_available: Option<Duration>) -> Option<Self> {
        match code {
            0x18 => Some(TimerProgrammedInfo::Programmed(ProgrammedInfo::EnoughSpace)),
            0x19 => Some(TimerProgrammedInfo::Programmed(ProgrammedInfo::NotEnoughSpace { duration_available })),
            0x1a => Some(TimerProgrammedInfo::Programmed(ProgrammedInfo::NoMediaInfo)),
            0x1b => Some(TimerProgrammedInfo::Programmed(ProgrammedInfo::MightNotBeEnoughSpace { duration_available })),
            0x01 => Some(TimerProgrammedInfo::NotProgrammed(NotProgrammedErrorInfo::NoFreeTimer)),
            0x02 => Some(TimerProgrammedInfo::NotProgrammed(NotProgrammedErrorInfo::DateOutOfRange)),
            0x03 => Some(TimerProgrammedInfo::NotProgrammed(NotProgrammedErrorInfo::RecordingSequenceError)),
            0x04 => Some(TimerProgrammedInfo::NotProgrammed(NotProgrammedErrorInfo::InvalidExternalPlug)),
            0x05 => Some(TimerProgrammedInfo::NotProgrammed(NotProgrammedErrorInfo::InvalidExternalPhysicalAddress)),
            0x06 => Some(TimerProgrammedInfo::NotProgrammed(NotProgrammedErrorInfo::CaNotSupported)),
            0x07 => Some(TimerProgrammedInfo::NotProgrammed(NotProgrammedErrorInfo::InsufficientCaEntitlements)),
            0x08 => Some(TimerProgrammedInfo::NotProgrammed(NotProgrammedErrorInfo::ResolutionNotSupported)),
            0x09 => Some(TimerProgrammedInfo::NotProgrammed(NotProgrammedErrorInfo::ParentalLock)),
            0x0a => Some(TimerProgrammedInfo::NotProgrammed(NotProgrammedErrorInfo::ClockFailure)),
            0x0e => Some(TimerProgrammedInfo::NotProgrammed(NotProgrammedErrorInfo::Duplicate { duration_available })),
            _ => None,
        }
    }

    fn to_primitive(&self) -> (code: u8)
        ensures
            code == self.code(),
    {
        match self {
            TimerProgrammedInfo::Programmed(ProgrammedInfo::EnoughSpace) => 0x18,
            TimerProgrammedInfo::Programmed(ProgrammedInfo::NotEnoughSpace { .. }) => 0x19,
            TimerProgrammedInfo::Programmed(ProgrammedInfo::NoMediaInfo) => 0x1a,
            TimerProgrammedInfo::Programmed(ProgrammedInfo::MightNotBeEnoughSpace { .. }) => 0x1b,
            TimerProgrammedInfo::NotProgrammed(NotProgrammedErrorInfo::NoFreeTimer) => 0x01,
            TimerProgrammedInfo::NotProgrammed(NotProgrammedErrorInfo::DateOutOfRange) => 0x02,
            TimerProgrammedInfo::NotProgrammed(NotProgrammedErrorInfo::RecordingSequenceError) => 0x03,
            TimerProgrammedInfo::NotProgrammed(NotProgrammedErrorInfo::InvalidExternalPlug) => 0x04,
            TimerProgrammedInfo::NotProgrammed(NotProgrammedErrorInfo::InvalidExternalPhysicalAddress) => 0x05,
            TimerProgrammedInfo::NotProgrammed(NotProgrammedErrorInfo::CaNotSupported) => 0x06,
            TimerProgrammedInfo::NotProgrammed(NotProgrammedErrorInfo::InsufficientCaEntitlements) => 0x07,
            TimerProgrammedInfo::NotProgrammed(NotProgrammedErrorInfo::ResolutionNotSupported) => 0x08,
            TimerProgrammedInfo::NotProgrammed(NotProgrammedErrorInfo::ParentalLock) => 0x09,
            TimerProgrammedInfo::NotProgrammed(NotProgrammedErrorInfo::ClockFailure) => 0x0a,
            TimerProgrammedInfo::NotProgrammed(NotProgrammedErrorInfo::Duplicate { .. }) => 0x0e,
        }
    }

    fn known_duration(&self) -> (r: Option<Duration>)
        ensures
            r == self.duration(),
    {
        match self {
            TimerProgrammedInfo::Programmed(ProgrammedInfo::NotEnoughSpace { duration_available }) => *duration_available,
            TimerProgrammedInfo::Programmed(ProgrammedInfo::MightNotBeEnoughSpace { duration_available }) => *duration_available,
            TimerProgrammedInfo::NotProgrammed(NotProgrammedErrorInfo::Duplicate { duration_available }) => *duration_available,
            _ => None,
        }
    }

    fn from_primitive(code: u8, duration_available: Option<Duration>) -> (r: Option<Self>)
        ensures
            r == Self::with_code(code, duration_available),
    {
        match code {
            0x18 => Some(TimerProgrammedInfo::Programmed(ProgrammedInfo::EnoughSpace)),
            0x19 => Some(TimerProgrammedInfo::Programmed(ProgrammedInfo::NotEnoughSpace { duration_available })),
            0x1a => Some(TimerProgrammedInfo::Programmed(ProgrammedInfo::NoMediaInfo)),
            0x1b => Some(TimerProgrammedInfo::Programmed(ProgrammedInfo::MightNotBeEnoughSpace { duration_available })),
            0x01 => Some(TimerProgrammedInfo::NotProgrammed(NotProgrammedErrorInfo::NoFreeTimer)),
            0x02 => Some(TimerProgrammedInfo::NotProgrammed(NotProgrammedErrorInfo::DateOutOfRange)),
            0x03 => Some(TimerProgrammedInfo::NotProgrammed(NotProgrammedErrorInfo::RecordingSequenceError)),
            0x04 => Some(TimerProgrammedInfo::NotProgrammed(NotProgrammedErrorInfo::InvalidExternalPlug)),
            0x05 => Some(TimerProgrammedInfo::NotProgrammed(NotProgrammedErrorInfo::InvalidExternalPhysicalAddress)),
            0x06 => Some(TimerProgrammedInfo::NotProgrammed(NotProgrammedErrorInfo::CaNotSupported)),
            0x07 => Some(TimerProgrammedInfo::NotProgrammed(NotProgrammedErrorInfo::InsufficientCaEntitlements)),
            0x08 => Some(TimerProgrammedInfo::NotProgrammed(NotProgrammedErrorInfo::ResolutionNotSupported)),
            0x09 => Some(TimerProgrammedInfo::NotProgrammed(NotProgrammedErrorInfo::ParentalLock)),
            0x0a => Some(TimerProgrammedInfo::NotProgrammed(NotProgrammedErrorInfo::ClockFailure)),
            0x0e => Some(TimerProgrammedInfo::NotProgrammed(NotProgrammedErrorInfo::Duplicate { duration_available })),
            _ => None,
        }
    }
}

/// What became of a timer that was set.
#[derive(Debug, Copy, Clone, PartialEq, Eq, Hash, Structural)]
pub struct TimerStatusData {
    pub overlap_warning: bool,
    pub media_info: MediaInfo,
    pub programmed_info: TimerProgrammedInfo,
}

/// Whether a number of [`TimerProgrammedInfo`] takes a duration.
pub open spec fn duration_code(code: u8) -> bool {
    code == 0x19 || code == 0x1b || code == 0x0e
}

/// The duration behind the first byte of a status, if it takes one and there is one.
pub open spec fn status_duration(bytes: Seq<u8>) -> Result<Option<Duration>, ErrorView> {
    if duration_code(bytes[0] % 32) && bytes.len() >= 3 {
        match Duration::decoded(bytes.skip(1)) {
            Ok(d) => Ok(Some(d)),
            Err(e) => Err(e.shifted(1)),
        }
    } else {
        Ok(None)
    }
}

/// The three parts of the first byte can be told apart.
proof fn unpack(overlap: bool, media: u8, info: u8, byte: u8)
    requires
        media < 3,
        info < 32,
        byte == (if overlap { 128int } else { 0 }) + media * 32 + info,
    ensures
        byte % 32 == info,
        byte / 32 % 4 == media,
        (byte >= 128) == overlap,
{
}

impl OperandEncodable for TimerStatusData {
    open spec fn valid(&self) -> bool {
        self.programmed_info.duration() matches Some(d) ==> d.valid()
    }

    open spec fn encoded(&self) -> Seq<u8> {
        seq![
            ((if self.overlap_warning { 128int } else { 0 }) + self.media_info.code() * 32
                + self.programmed_info.code()) as u8,
        ] + (match self.programmed_info.duration() {
            Some(d) => d.encoded(),
            None => Seq::empty(),
        })
    }

    open spec fn lengths() -> RangeView {
        RangeView::AtLeast(1)
    }

    open spec fn decoded(bytes: Seq<u8>) -> Result<Self, ErrorView> {
        if bytes.len() < 1 {
            Err(too_short(1, bytes))
        } else {
            match decoded_code::<MediaInfo>(bytes[0] / 32 % 4) {
                Err(e) => Err(e),
                Ok(media_info) => match status_duration(bytes) {
                    Err(e) => Err(e),
                    Ok(duration) => match TimerProgrammedInfo::with_code(bytes[0] % 32, duration) {
                        Some(programmed_info) => Ok(
                            TimerStatusData {
                                overlap_warning: bytes[0] >= 128,
                                media_info,
                                programmed_info,
                            },
                        ),
                        None => Err(no_such("TimerProgrammedInfo"@, bytes[0] % 32)),
                    },
                },
            }
        }
    }

    open spec fn delimited(&self) -> bool {
        self.programmed_info.takes_duration() ==> self.programmed_info.duration() is Some
    }

    open spec fn faithful(&self) -> bool {
        true
    }

    fn to_bytes(&self, buf: &mut Vec<u8>) {
        let media: u8 = self.media_info.to_primitive();
        let info: u8 = self.programmed_info.to_primitive();
        let overlap: u8 = if self.overlap_warning {
            128
        } else {
            0
        };
        buf.push(overlap + media * 32 + info);
        if let Some(d) = self.programmed_info.known_duration() {
            d.to_bytes(buf);
        }
    }

    fn len(&self) -> (n: usize) {
        match self.programmed_info.known_duration() {
            Some(_) => 3,
            None => 1,
        }
    }

    fn expected_len() -> (r: Range) {
        Range::AtLeast(1)
    }

    fn try_from_bytes(bytes: &[u8]) -> (r: Result<Self, Error>) {
        match need(1, bytes) {
            Err(e) => return Err(e),
            Ok(()) => {},
        }
        let media_info: MediaInfo = match MediaInfo::try_from_primitive(bytes[0] / 32 % 4) {
            Err(e) => return Err(e),
            Ok(media_info) => media_info,
        };
        let code: u8 = bytes[0] % 32;
        let takes = code == 0x19 || code == 0x1b || code == 0x0e;
        let duration: Option<Duration> = if takes && bytes.len() >= 3 {
            match Duration::try_from_bytes(tail(bytes, 1)) {
                Err(e) => return Err(e.shift(1)),
                Ok(d) => Some(d),
            }
        } else {
            None
        };
        match TimerProgrammedInfo::from_primitive(code, duration) {
            Some(programmed_info) => Ok(
                TimerStatusData { overlap_warning: bytes[0] >= 128, media_info, programmed_info },
            ),
            None => Err(invalid_value("TimerProgrammedInfo", code)),
        }
    }

    proof fn read_back(&self, rest: Seq<u8>) {
        let bytes = self.encoded() + rest;
        assert(bytes[0] == self.encoded()[0]);
        unpack(
            self.overlap_warning,
            self.media_info.code(),
            self.programmed_info.code(),
            bytes[0],
        );
        MediaInfo::one_to_one();
        if let Some(d) = self.programmed_info.duration() {
            d.read_back(rest);
            assert(bytes.skip(1) =~= d.encoded() + rest);
        }
    }
}

} // verus!
