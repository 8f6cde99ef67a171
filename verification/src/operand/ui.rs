//! The buttons of a remote control.

use vstd::prelude::*;

use crate::codec::{invalid_value, need, no_such, tail, too_short, OperandEncodable};
use crate::error::{outcome, str_eq, Error, ErrorView, Range, RangeView};
use crate::operand::enums::{PlayMode, UiBroadcastType, UiSoundPresentationControl};

verus! {

/// A channel: a major number of ten bits, with or without a minor number.
#[derive(Debug, Copy, Clone, PartialEq, Eq, Hash, Structural)]
pub struct ChannelId {
    format: u8,
    major: u16,
    minor: u16,
}

impl ChannelId {
    #[verifier::type_invariant]
    spec fn in_range(self) -> bool {
        (self.format == 1 || self.format == 2) && self.major < 1024
    }

    /// How many numbers the channel has.
    pub closed spec fn format(&self) -> u8 {
        self.format
    }

    /// The major number.
    pub closed spec fn major(&self) -> u16 {
        self.major
    }

    /// The minor number.
    pub closed spec fn minor(&self) -> u16 {
        self.minor
    }

    /// The channel with some numbers.
    pub closed spec fn of(format: u8, major: u16, minor: u16) -> ChannelId {
        ChannelId { format, major, minor }
    }

    /// A channel with one number, or with two.
    pub fn new(major: u16, minor: Option<u16>) -> (r: Result<ChannelId, Error>)
        ensures
            if major < 1024 {
                r matches Ok(c) && c.major() == major && c.minor() == (match minor {
                    Some(minor) => minor,
                    None => 0,
                }) && c.format() == (if minor is Some { 2int } else { 1 })
            } else {
                r matches Err(e) && e@ == (ErrorView::OutOfRange {
                    expected: RangeView::AtMost(1023),
                    got: major as usize,
                    quantity: "channel"@,
                })
            },
    {
        match Range::AtMost(1023).check(major as usize, "channel") {
            Err(e) => Err(e),
            Ok(()) => Ok(
                match minor {
                    Some(minor) => ChannelId { format: 2, major, minor },
                    None => ChannelId { format: 1, major, minor: 0 },
                },
            ),
        }
    }
}

impl OperandEncodable for ChannelId {
    open spec fn valid(&self) -> bool {
        1 <= self.format() <= 2 && self.major() < 1024
    }

    open spec fn encoded(&self) -> Seq<u8> {
        seq![
            (self.format() * 4 + self.major() / 256) as u8,
            (self.major() % 256) as u8,
            (self.minor() / 256) as u8,
            (self.minor() % 256) as u8,
        ]
    }

    open spec fn lengths() -> RangeView {
        RangeView::AtLeast(4)
    }

    open spec fn decoded(bytes: Seq<u8>) -> Result<Self, ErrorView> {
        if bytes.len() < 4 {
            Err(too_short(4, bytes))
        } else if bytes[0] / 4 != 1 && bytes[0] / 4 != 2 {
            Err(no_such("ChannelIdFormat"@, (bytes[0] / 4) as u8))
        } else {
            Ok(
                ChannelId::of(
                    (bytes[0] / 4) as u8,
                    (bytes[0] % 4 * 256 + bytes[1]) as u16,
                    (bytes[2] * 256 + bytes[3]) as u16,
                ),
            )
        }
    }

    open spec fn delimited(&self) -> bool {
        true
    }

    open spec fn faithful(&self) -> bool {
        true
    }

    fn to_bytes(&self, buf: &mut Vec<u8>) {
        proof {
            use_type_invariant(self);
        }
        buf.push((self.format as u16 * 4 + self.major / 256) as u8);
        buf.push((self.major % 256) as u8);
        buf.push((self.minor / 256) as u8);
        buf.push((self.minor % 256) as u8);
    }

    fn len(&self) -> (n: usize) {
        4
    }

    fn expected_len() -> (r: Range) {
        Range::AtLeast(4)
    }

    fn try_from_bytes(bytes: &[u8]) -> (r: Result<Self, Error>) {
        match need(4, bytes) {
            Err(e) => return Err(e),
            Ok(()) => {},
        }
        let format: u8 = bytes[0] / 4;
        if format != 1 && format != 2 {
            return Err(invalid_value("ChannelIdFormat", format));
        }
        Ok(
            ChannelId {
                format,
                major: (bytes[0] % 4) as u16 * 256 + bytes[1] as u16,
                minor: bytes[2] as u16 * 256 + bytes[3] as u16,
            },
        )
    }

    proof fn read_back(&self, rest: Seq<u8>) {
        let bytes = self.encoded() + rest;
        assert(bytes[0] == self.encoded()[0]);
        assert(bytes[1] == self.encoded()[1]);
        assert(bytes[2] == self.encoded()[2]);
        assert(bytes[3] == self.encoded()[3]);
    }
}

/// A button. A few take a parameter, which may be left out.
#[derive(Debug, Copy, Clone, PartialEq, Eq, Hash, Structural)]
pub enum UiCommand {
    Select,
    Up,
    Down,
    Left,
    Right,
    RightUp,
    RightDown,
    LeftUp,
    LeftDown,
    DeviceRootMenu,
    DeviceSetupMenu,
    ContentsMenu,
    FavoriteMenu,
    Back,
    MediaTopMenu,
    MediaContextSensitiveMenu,
    NumberEntryMode,
    Number11,
    Number12,
    Number0OrNumber10,
    Number1,
    Number2,
    Number3,
    Number4,
    Number5,
    Number6,
    Number7,
    Number8,
    Number9,
    Dot,
    Enter,
    Clear,
    NextFavorite,
    ChannelUp,
    ChannelDown,
    PreviousChannel,
    SoundSelect,
    InputSelect,
    DisplayInformation,
    Help,
    PageUp,
    PageDown,
    Power,
    VolumeUp,
    VolumeDown,
    Mute,
    Play,
    Stop,
    Pause,
    Record,
    Rewind,
    FastForward,
    Eject,
    SkipForward,
    SkipBackward,
    StopRecord,
    PauseRecord,
    Angle,
    SubPicture,
    VideoOnDemand,
    ElectronicProgramGuide,
    TimerProgramming,
    InitialConfiguration,
    SelectBroadcastType(Option<UiBroadcastType>),
    SelectSoundPresentation(Option<UiSoundPresentationControl>),
    AudioDescription,
    Internet,
    ThreeDMode,
    PlayFunction(Option<PlayMode>),
    PausePlayFunction,
    RecordFunction,
    PauseRecordFunction,
    StopFunction,
    MuteFunction,
    RestoreVolumeFunction,
    TuneFunction(Option<ChannelId>),
    SelectMediaFunction(Option<u8>),
    SelectAvInputFunction(Option<u8>),
    SelectAudioInputFunction(Option<u8>),
    PowerToggleFunction,
    PowerOffFunction,
    PowerOnFunction,
    F1Blue,
    F2Red,
    F3Green,
    F4Yellow,
    F5,
    Data,
}

impl UiCommand {
    /// The number of the button.
    pub open spec fn code(self) -> u8 {
        match self {
            UiCommand::Select => 0x00,
            UiCommand::Up => 0x01,
            UiCommand::Down => 0x02,
            UiCommand::Left => 0x03,
            UiCommand::Right => 0x04,
            UiCommand::RightUp => 0x05,
            UiCommand::RightDown => 0x06,
            UiCommand::LeftUp => 0x07,
            UiCommand::LeftDown => 0x08,
            UiCommand::DeviceRootMenu => 0x09,
            UiCommand::DeviceSetupMenu => 0x0a,
            UiCommand::ContentsMenu => 0x0b,
            UiCommand::FavoriteMenu => 0x0c,
            UiCommand::Back => 0x0d,
            UiCommand::MediaTopMenu => 0x10,
            UiCommand::MediaContextSensitiveMenu => 0x11,
            UiCommand::NumberEntryMode => 0x1d,
            UiCommand::Number11 => 0x1e,
            UiCommand::Number12 => 0x1f,
            UiCommand::Number0OrNumber10 => 0x20,
            UiCommand::Number1 => 0x21,
            UiCommand::Number2 => 0x22,
            UiCommand::Number3 => 0x23,
            UiCommand::Number4 => 0x24,
            UiCommand::Number5 => 0x25,
            UiCommand::Number6 => 0x26,
            UiCommand::Number7 => 0x27,
            UiCommand::Number8 => 0x28,
            UiCommand::Number9 => 0x29,
            UiCommand::Dot => 0x2a,
            UiCommand::Enter => 0x2b,
            UiCommand::Clear => 0x2c,
            UiCommand::NextFavorite => 0x2f,
            UiCommand::ChannelUp => 0x30,
            UiCommand::ChannelDown => 0x31,
            UiCommand::PreviousChannel => 0x32,
            UiCommand::SoundSelect => 0x33,
            UiCommand::InputSelect => 0x34,
            UiCommand::DisplayInformation => 0x35,
            UiCommand::Help => 0x36,
            UiCommand::PageUp => 0x37,
            UiCommand::PageDown => 0x38,
            UiCommand::Power => 0x40,
            UiCommand::VolumeUp => 0x41,
            UiCommand::VolumeDown => 0x42,
            UiCommand::Mute => 0x43,
            UiCommand::Play => 0x44,
            UiCommand::Stop => 0x45,
            UiCommand::Pause => 0x46,
            UiCommand::Record => 0x47,
            UiCommand::Rewind => 0x48,
            UiCommand::FastForward => 0x49,
            UiCommand::Eject => 0x4a,
            UiCommand::SkipForward => 0x4b,
            UiCommand::SkipBackward => 0x4c,
            UiCommand::StopRecord => 0x4d,
            UiCommand::PauseRecord => 0x4e,
            UiCommand::Angle => 0x50,
            UiCommand::SubPicture => 0x51,
            UiCommand::VideoOnDemand => 0x52,
            UiCommand::ElectronicProgramGuide => 0x53,
            UiCommand::TimerProgramming => 0x54,
            UiCommand::InitialConfiguration => 0x55,
            UiCommand::SelectBroadcastType(_) => 0x56,
            UiCommand::SelectSoundPresentation(_) => 0x57,
            UiCommand::AudioDescription => 0x58,
            UiCommand::Internet => 0x59,
            UiCommand::ThreeDMode => 0x5a,
            UiCommand::PlayFunction(_) => 0x60,
            UiCommand::PausePlayFunction => 0x61,
            UiCommand::RecordFunction => 0x62,
            UiCommand::PauseRecordFunction => 0x63,
            UiCommand::StopFunction => 0x64,
            UiCommand::MuteFunction => 0x65,
            UiCommand::RestoreVolumeFunction => 0x66,
            UiCommand::TuneFunction(_) => 0x67,
            UiCommand::SelectMediaFunction(_) => 0x68,
            UiCommand::SelectAvInputFunction(_) => 0x69,
            UiCommand::SelectAudioInputFunction(_) => 0x6a,
            UiCommand::PowerToggleFunction => 0x6b,
            UiCommand::PowerOffFunction => 0x6c,
            UiCommand::PowerOnFunction => 0x6d,
            UiCommand::F1Blue => 0x71,
            UiCommand::F2Red => 0x72,
            UiCommand::F3Green => 0x73,
            UiCommand::F4Yellow => 0x74,
            UiCommand::F5 => 0x75,
            UiCommand::Data => 0x76,
        }
    }

    /// The bytes of the parameter.
    pub open spec fn parameter(self) -> Seq<u8> {
        match self {
            UiCommand::SelectBroadcastType(p) => p.encoded(),
            UiCommand::SelectSoundPresentation(p) => p.encoded(),
            UiCommand::PlayFunction(p) => p.encoded(),
            UiCommand::TuneFunction(p) => p.encoded(),
            UiCommand::SelectMediaFunction(p) => p.encoded(),
            UiCommand::SelectAvInputFunction(p) => p.encoded(),
            UiCommand::SelectAudioInputFunction(p) => p.encoded(),
            _ => Seq::empty(),
        }
    }

    /// Whether a parameter is left out.
    pub open spec fn lacks_parameter(self) -> bool {
        match self {
            UiCommand::SelectBroadcastType(p) => p is None,
            UiCommand::SelectSoundPresentation(p) => p is None,
            UiCommand::PlayFunction(p) => p is None,
            UiCommand::TuneFunction(p) => p is None,
            UiCommand::SelectMediaFunction(p) => p is None,
            UiCommand::SelectAvInputFunction(p) => p is None,
            UiCommand::SelectAudioInputFunction(p) => p is None,
            _ => false,
        }
    }

    /// The button with a number, without a parameter.
    pub open spec fn with_code(code: u8) -> Option<UiCommand> {
        match code {
            0x00 => Some(UiCommand::Select),
            0x01 => Some(UiCommand::Up),
            0x02 => Some(UiCommand::Down),
            0x03 => Some(UiCommand::Left),
            0x04 => Some(UiCommand::Right),
            0x05 => Some(UiCommand::RightUp),
            0x06 => Some(UiCommand::RightDown),
            0x07 => Some(UiCommand::LeftUp),
            0x08 => Some(UiCommand::LeftDown),
            0x09 => Some(UiCommand::DeviceRootMenu),
            0x0a => Some(UiCommand::DeviceSetupMenu),
            0x0b => Some(UiCommand::ContentsMenu),
            0x0c => Some(UiCommand::FavoriteMenu),
            0x0d => Some(UiCommand::Back),
            0x10 => Some(UiCommand::MediaTopMenu),
            0x11 => Some(UiCommand::MediaContextSensitiveMenu),
            0x1d => Some(UiCommand::NumberEntryMode),
            0x1e => Some(UiCommand::Number11),
            0x1f => Some(UiCommand::Number12),
            0x20 => Some(UiCommand::Number0OrNumber10),
            0x21 => Some(UiCommand::Number1),
            0x22 => Some(UiCommand::Number2),
            0x23 => Some(UiCommand::Number3),
            0x24 => Some(UiCommand::Number4),
            0x25 => Some(UiCommand::Number5),
            0x26 => Some(UiCommand::Number6),
            0x27 => Some(UiCommand::Number7),
            0x28 => Some(UiCommand::Number8),
            0x29 => Some(UiCommand::Number9),
            0x2a => Some(UiCommand::Dot),
            0x2b => Some(UiCommand::Enter),
            0x2c => Some(UiCommand::Clear),
            0x2f => Some(UiCommand::NextFavorite),
            0x30 => Some(UiCommand::ChannelUp),
            0x31 => Some(UiCommand::ChannelDown),
            0x32 => Some(UiCommand::PreviousChannel),
            0x33 => Some(UiCommand::SoundSelect),
            0x34 => Some(UiCommand::InputSelect),
            0x35 => Some(UiCommand::DisplayInformation),
            0x36 => Some(UiCommand::Help),
            0x37 => Some(UiCommand::PageUp),
            0x38 => Some(UiCommand::PageDown),
            0x40 => Some(UiCommand::Power),
            0x41 => Some(UiCommand::VolumeUp),
            0x42 => Some(UiCommand::VolumeDown),
            0x43 => Some(UiCommand::Mute),
            0x44 => Some(UiCommand::Play),
            0x45 => Some(UiCommand::Stop),
            0x46 => Some(UiCommand::Pause),
            0x47 => Some(UiCommand::Record),
            0x48 => Some(UiCommand::Rewind),
            0x49 => Some(UiCommand::FastForward),
            0x4a => Some(UiCommand::Eject),
            0x4b => Some(UiCommand::SkipForward),
            0x4c => Some(UiCommand::SkipBackward),
            0x4d => Some(UiCommand::StopRecord),
            0x4e => Some(UiCommand::PauseRecord),
            0x50 => Some(UiCommand::Angle),
            0x51 => Some(UiCommand::SubPicture),
            0x52 => Some(UiCommand::VideoOnDemand),
            0x53 => Some(UiCommand::ElectronicProgramGuide),
            0x54 => Some(UiCommand::TimerProgramming),
            0x55 => Some(UiCommand::InitialConfiguration),
            0x56 => Some(UiCommand::SelectBroadcastType(None)),
            0x57 => Some(UiCommand::SelectSoundPresentation(None)),
            0x58 => Some(UiCommand::AudioDescription),
            0x59 => Some(UiCommand::Internet),
            0x5a => Some(UiCommand::ThreeDMode),
            0x60 => Some(UiCommand::PlayFunction(None)),
            0x61 => Some(UiCommand::PausePlayFunction),
            0x62 => Some(UiCommand::RecordFunction),
            0x63 => Some(UiCommand::PauseRecordFunction),
            0x64 => Some(UiCommand::StopFunction),
            0x65 => Some(UiCommand::MuteFunction),
            0x66 => Some(UiCommand::RestoreVolumeFunction),
            0x67 => Some(UiCommand::TuneFunction(None)),
            0x68 => Some(UiCommand::SelectMediaFunction(None)),
            0x69 => Some(UiCommand::SelectAvInputFunction(None)),
            0x6a => Some(UiCommand::SelectAudioInputFunction(None)),
            0x6b => Some(UiCommand::PowerToggleFunction),
            0x6c => Some(UiCommand::PowerOffFunction),
            0x6d => Some(UiCommand::PowerOnFunction),
            0x71 => Some(UiCommand::F1Blue),
            0x72 => Some(UiCommand::F2Red),
            0x73 => Some(UiCommand::F3Green),
            0x74 => Some(UiCommand::F4Yellow),
            0x75 => Some(UiCommand::F5),
            0x76 => Some(UiCommand::Data),
            _ => None,
        }
    }

    /// The button with a parameter in place of the one it has.
    pub open spec fn with_parameter(self, bytes: Seq<u8>) -> Result<UiCommand, ErrorView> {
        match self {
            UiCommand::SelectBroadcastType(_) => match Option::<UiBroadcastType>::decoded(bytes) {
                Ok(p) => Ok(UiCommand::SelectBroadcastType(p)),
                Err(e) => Err(e.shifted(1)),
            },
            UiCommand::SelectSoundPresentation(_) => match Option::<UiSoundPresentationControl>::decoded(bytes) {
                Ok(p) => Ok(UiCommand::SelectSoundPresentation(p)),
                Err(e) => Err(e.shifted(1)),
            },
            UiCommand::PlayFunction(_) => match Option::<PlayMode>::decoded(bytes) {
                Ok(p) => Ok(UiCommand::PlayFunction(p)),
                Err(e) => Err(e.shifted(1)),
            },
            UiCommand::TuneFunction(_) => match Option::<ChannelId>::decoded(bytes) {
                Ok(p) => Ok(UiCommand::TuneFunction(p)),
                Err(e) => Err(e.shifted(1)),
            },
            UiCommand::SelectMediaFunction(_) => match Option::<u8>::decoded(bytes) {
                Ok(p) => Ok(UiCommand::SelectMediaFunction(p)),
                Err(e) => Err(e.shifted(1)),
            },
            UiCommand::SelectAvInputFunction(_) => match Option::<u8>::decoded(bytes) {
                Ok(p) => Ok(UiCommand::SelectAvInputFunction(p)),
                Err(e) => Err(e.shifted(1)),
            },
            UiCommand::SelectAudioInputFunction(_) => match Option::<u8>::decoded(bytes) {
                Ok(p) => Ok(UiCommand::SelectAudioInputFunction(p)),
                Err(e) => Err(e.shifted(1)),
            },
            _ => Ok(self),
        }
    }

    /// The number of the button.
    pub fn to_primitive(&self) -> (code: u8)
        ensures
            code == self.code(),
    {
        match self {
            UiCommand::Select => 0x00,
            UiCommand::Up => 0x01,
            UiCommand::Down => 0x02,
            UiCommand::Left => 0x03,
            UiCommand::Right => 0x04,
            UiCommand::RightUp => 0x05,
            UiCommand::RightDown => 0x06,
            UiCommand::LeftUp => 0x07,
            UiCommand::LeftDown => 0x08,
            UiCommand::DeviceRootMenu => 0x09,
            UiCommand::DeviceSetupMenu => 0x0a,
            UiCommand::ContentsMenu => 0x0b,
            UiCommand::FavoriteMenu => 0x0c,
            UiCommand::Back => 0x0d,
            UiCommand::MediaTopMenu => 0x10,
            UiCommand::MediaContextSensitiveMenu => 0x11,
            UiCommand::NumberEntryMode => 0x1d,
            UiCommand::Number11 => 0x1e,
            UiCommand::Number12 => 0x1f,
            UiCommand::Number0OrNumber10 => 0x20,
            UiCommand::Number1 => 0x21,
            UiCommand::Number2 => 0x22,
            UiCommand::Number3 => 0x23,
            UiCommand::Number4 => 0x24,
            UiCommand::Number5 => 0x25,
            UiCommand::Number6 => 0x26,
            UiCommand::Number7 => 0x27,
            UiCommand::Number8 => 0x28,
            UiCommand::Number9 => 0x29,
            UiCommand::Dot => 0x2a,
            UiCommand::Enter => 0x2b,
            UiCommand::Clear => 0x2c,
            UiCommand::NextFavorite => 0x2f,
            UiCommand::ChannelUp => 0x30,
            UiCommand::ChannelDown => 0x31,
            UiCommand::PreviousChannel => 0x32,
            UiCommand::SoundSelect => 0x33,
            UiCommand::InputSelect => 0x34,
            UiCommand::DisplayInformation => 0x35,
            UiCommand::Help => 0x36,
            UiCommand::PageUp => 0x37,
            UiCommand::PageDown => 0x38,
            UiCommand::Power => 0x40,
            UiCommand::VolumeUp => 0x41,
            UiCommand::VolumeDown => 0x42,
            UiCommand::Mute => 0x43,
            UiCommand::Play => 0x44,
            UiCommand::Stop => 0x45,
            UiCommand::Pause => 0x46,
            UiCommand::Record => 0x47,
            UiCommand::Rewind => 0x48,
            UiCommand::FastForward => 0x49,
            UiCommand::Eject => 0x4a,
            UiCommand::SkipForward => 0x4b,
            UiCommand::SkipBackward => 0x4c,
            UiCommand::StopRecord => 0x4d,
            UiCommand::PauseRecord => 0x4e,
            UiCommand::Angle => 0x50,
            UiCommand::SubPicture => 0x51,
            UiCommand::VideoOnDemand => 0x52,
            UiCommand::ElectronicProgramGuide => 0x53,
            UiCommand::TimerProgramming => 0x54,
            UiCommand::InitialConfiguration => 0x55,
            UiCommand::SelectBroadcastType(_) => 0x56,
            UiCommand::SelectSoundPresentation(_) => 0x57,
            UiCommand::AudioDescription => 0x58,
            UiCommand::Internet => 0x59,
            UiCommand::ThreeDMode => 0x5a,
            UiCommand::PlayFunction(_) => 0x60,
            UiCommand::PausePlayFunction => 0x61,
            UiCommand::RecordFunction => 0x62,
            UiCommand::PauseRecordFunction => 0x63,
            UiCommand::StopFunction => 0x64,
            UiCommand::MuteFunction => 0x65,
            UiCommand::RestoreVolumeFunction => 0x66,
            UiCommand::TuneFunction(_) => 0x67,
            UiCommand::SelectMediaFunction(_) => 0x68,
            UiCommand::SelectAvInputFunction(_) => 0x69,
            UiCommand::SelectAudioInputFunction(_) => 0x6a,
            UiCommand::PowerToggleFunction => 0x6b,
            UiCommand::PowerOffFunction => 0x6c,
            UiCommand::PowerOnFunction => 0x6d,
            UiCommand::F1Blue => 0x71,
            UiCommand::F2Red => 0x72,
            UiCommand::F3Green => 0x73,
            UiCommand::F4Yellow => 0x74,
            UiCommand::F5 => 0x75,
            UiCommand::Data => 0x76,
        }
    }

    /// The button with a number, without a parameter.
    pub fn from_primitive(code: u8) -> (r: Option<UiCommand>)
        ensures
            r == Self::with_code(code),
    {
        match code {
            0x00 => Some(UiCommand::Select),
            0x01 => Some(UiCommand::Up),
            0x02 => Some(UiCommand::Down),
            0x03 => Some(UiCommand::Left),
            0x04 => Some(UiCommand::Right),
            0x05 => Some(UiCommand::RightUp),
            0x06 => Some(UiCommand::RightDown),
            0x07 => Some(UiCommand::LeftUp),
            0x08 => Some(UiCommand::LeftDown),
            0x09 => Some(UiCommand::DeviceRootMenu),
            0x0a => Some(UiCommand::DeviceSetupMenu),
            0x0b => Some(UiCommand::ContentsMenu),
            0x0c => Some(UiCommand::FavoriteMenu),
            0x0d => Some(UiCommand::Back),
            0x10 => Some(UiCommand::MediaTopMenu),
            0x11 => Some(UiCommand::MediaContextSensitiveMenu),
            0x1d => Some(UiCommand::NumberEntryMode),
            0x1e => Some(UiCommand::Number11),
            0x1f => Some(UiCommand::Number12),
            0x20 => Some(UiCommand::Number0OrNumber10),
            0x21 => Some(UiCommand::Number1),
            0x22 => Some(UiCommand::Number2),
            0x23 => Some(UiCommand::Number3),
            0x24 => Some(UiCommand::Number4),
            0x25 => Some(UiCommand::Number5),
            0x26 => Some(UiCommand::Number6),
            0x27 => Some(UiCommand::Number7),
            0x28 => Some(UiCommand::Number8),
            0x29 => Some(UiCommand::Number9),
            0x2a => Some(UiCommand::Dot),
            0x2b => Some(UiCommand::Enter),
            0x2c => Some(UiCommand::Clear),
            0x2f => Some(UiCommand::NextFavorite),
            0x30 => Some(UiCommand::ChannelUp),
            0x31 => Some(UiCommand::ChannelDown),
            0x32 => Some(UiCommand::PreviousChannel),
            0x33 => Some(UiCommand::SoundSelect),
            0x34 => Some(UiCommand::InputSelect),
            0x35 => Some(UiCommand::DisplayInformation),
            0x36 => Some(UiCommand::Help),
            0x37 => Some(UiCommand::PageUp),
            0x38 => Some(UiCommand::PageDown),
            0x40 => Some(UiCommand::Power),
            0x41 => Some(UiCommand::VolumeUp),
            0x42 => Some(UiCommand::VolumeDown),
            0x43 => Some(UiCommand::Mute),
            0x44 => Some(UiCommand::Play),
            0x45 => Some(UiCommand::Stop),
            0x46 => Some(UiCommand::Pause),
            0x47 => Some(UiCommand::Record),
            0x48 => Some(UiCommand::Rewind),
            0x49 => Some(UiCommand::FastForward),
            0x4a => Some(UiCommand::Eject),
            0x4b => Some(UiCommand::SkipForward),
            0x4c => Some(UiCommand::SkipBackward),
            0x4d => Some(UiCommand::StopRecord),
            0x4e => Some(UiCommand::PauseRecord),
            0x50 => Some(UiCommand::Angle),
            0x51 => Some(UiCommand::SubPicture),
            0x52 => Some(UiCommand::VideoOnDemand),
            0x53 => Some(UiCommand::ElectronicProgramGuide),
            0x54 => Some(UiCommand::TimerProgramming),
            0x55 => Some(UiCommand::InitialConfiguration),
            0x56 => Some(UiCommand::SelectBroadcastType(None)),
            0x57 => Some(UiCommand::SelectSoundPresentation(None)),
            0x58 => Some(UiCommand::AudioDescription),
            0x59 => Some(UiCommand::Internet),
            0x5a => Some(UiCommand::ThreeDMode),
            0x60 => Some(UiCommand::PlayFunction(None)),
            0x61 => Some(UiCommand::PausePlayFunction),
            0x62 => Some(UiCommand::RecordFunction),
            0x63 => Some(UiCommand::PauseRecordFunction),
            0x64 => Some(UiCommand::StopFunction),
            0x65 => Some(UiCommand::MuteFunction),
            0x66 => Some(UiCommand::RestoreVolumeFunction),
            0x67 => Some(UiCommand::TuneFunction(None)),
            0x68 => Some(UiCommand::SelectMediaFunction(None)),
            0x69 => Some(UiCommand::SelectAvInputFunction(None)),
            0x6a => Some(UiCommand::SelectAudioInputFunction(None)),
            0x6b => Some(UiCommand::PowerToggleFunction),
            0x6c => Some(UiCommand::PowerOffFunction),
            0x6d => Some(UiCommand::PowerOnFunction),
            0x71 => Some(UiCommand::F1Blue),
            0x72 => Some(UiCommand::F2Red),
            0x73 => Some(UiCommand::F3Green),
            0x74 => Some(UiCommand::F4Yellow),
            0x75 => Some(UiCommand::F5),
            0x76 => Some(UiCommand::Data),
            _ => None,
        }
    }

    fn read_parameter(self, bytes: &[u8]) -> (r: Result<UiCommand, Error>)
        ensures
            outcome(r) == self.with_parameter(bytes@),
            r matches Ok(c) ==> c.valid() && c.parameter().len() <= bytes@.len() && c.code()
                == self.code(),
    {
        match self {
            UiCommand::SelectBroadcastType(_) => match Option::<UiBroadcastType>::try_from_bytes(bytes) {
                Ok(p) => Ok(UiCommand::SelectBroadcastType(p)),
                Err(e) => Err(e.shift(1)),
            },
            UiCommand::SelectSoundPresentation(_) => match Option::<UiSoundPresentationControl>::try_from_bytes(bytes) {
                Ok(p) => Ok(UiCommand::SelectSoundPresentation(p)),
                Err(e) => Err(e.shift(1)),
            },
            UiCommand::PlayFunction(_) => match Option::<PlayMode>::try_from_bytes(bytes) {
                Ok(p) => Ok(UiCommand::PlayFunction(p)),
                Err(e) => Err(e.shift(1)),
            },
            UiCommand::TuneFunction(_) => match Option::<ChannelId>::try_from_bytes(bytes) {
                Ok(p) => Ok(UiCommand::TuneFunction(p)),
                Err(e) => Err(e.shift(1)),
            },
            UiCommand::SelectMediaFunction(_) => match Option::<u8>::try_from_bytes(bytes) {
                Ok(p) => Ok(UiCommand::SelectMediaFunction(p)),
                Err(e) => Err(e.shift(1)),
            },
            UiCommand::SelectAvInputFunction(_) => match Option::<u8>::try_from_bytes(bytes) {
                Ok(p) => Ok(UiCommand::SelectAvInputFunction(p)),
                Err(e) => Err(e.shift(1)),
            },
            UiCommand::SelectAudioInputFunction(_) => match Option::<u8>::try_from_bytes(bytes) {
                Ok(p) => Ok(UiCommand::SelectAudioInputFunction(p)),
                Err(e) => Err(e.shift(1)),
            },
            command => Ok(command),
        }
    }
}

impl OperandEncodable for UiCommand {
    open spec fn valid(&self) -> bool {
        self matches UiCommand::TuneFunction(Some(channel)) ==> channel.valid()
    }

    open spec fn encoded(&self) -> Seq<u8> {
        seq![self.code()] + self.parameter()
    }

    open spec fn lengths() -> RangeView {
        RangeView::AtLeast(1)
    }

    open spec fn decoded(bytes: Seq<u8>) -> Result<Self, ErrorView> {
        if bytes.len() < 1 {
            Err(too_short(1, bytes))
        } else {
            match UiCommand::with_code(bytes[0]) {
                None => Err(no_such("UiCommand"@, bytes[0])),
                Some(command) => command.with_parameter(bytes.skip(1)),
            }
        }
    }

    open spec fn delimited(&self) -> bool {
        !self.lacks_parameter()
    }

    open spec fn faithful(&self) -> bool {
        true
    }

    fn to_bytes(&self, buf: &mut Vec<u8>) {
        buf.push(self.to_primitive());
        match self {
            UiCommand::SelectBroadcastType(p) => p.to_bytes(buf),
            UiCommand::SelectSoundPresentation(p) => p.to_bytes(buf),
            UiCommand::PlayFunction(p) => p.to_bytes(buf),
            UiCommand::TuneFunction(p) => p.to_bytes(buf),
            UiCommand::SelectMediaFunction(p) => p.to_bytes(buf),
            UiCommand::SelectAvInputFunction(p) => p.to_bytes(buf),
            UiCommand::SelectAudioInputFunction(p) => p.to_bytes(buf),
            _ => {},
        }
    }

    fn len(&self) -> (n: usize) {
        match self {
            UiCommand::SelectBroadcastType(p) => 1 + p.len(),
            UiCommand::SelectSoundPresentation(p) => 1 + p.len(),
            UiCommand::PlayFunction(p) => 1 + p.len(),
            UiCommand::TuneFunction(p) => 1 + p.len(),
            UiCommand::SelectMediaFunction(p) => 1 + p.len(),
            UiCommand::SelectAvInputFunction(p) => 1 + p.len(),
            UiCommand::SelectAudioInputFunction(p) => 1 + p.len(),
            _ => 1,
        }
    }

    fn expected_len() -> (r: Range) {
        Range::AtLeast(1)
    }

    fn try_from_bytes(bytes: &[u8]) -> (r: Result<Self, Error>) {
        match need(1, bytes) {
            Err(e) => return Err(e),
            Ok(()) => {},
        }
        match UiCommand::from_primitive(bytes[0]) {
            None => Err(invalid_value("UiCommand", bytes[0])),
            Some(command) => command.read_parameter(tail(bytes, 1)),
        }
    }

    proof fn read_back(&self, rest: Seq<u8>) {
        let bytes = self.encoded() + rest;
        assert(bytes[0] == self.code());
        assert(bytes.skip(1) =~= self.parameter() + rest);
        match self {
            UiCommand::SelectBroadcastType(p) => p.read_back(rest),
            UiCommand::SelectSoundPresentation(p) => p.read_back(rest),
            UiCommand::PlayFunction(p) => p.read_back(rest),
            UiCommand::TuneFunction(p) => p.read_back(rest),
            UiCommand::SelectMediaFunction(p) => p.read_back(rest),
            UiCommand::SelectAvInputFunction(p) => p.read_back(rest),
            UiCommand::SelectAudioInputFunction(p) => p.read_back(rest),
            _ => {},
        }
    }
}

/// The button with a name. Buttons that take a parameter are named without one.
pub open spec fn named(name: Seq<char>) -> Option<UiCommand> {
    if name == "select"@ {
        Some(UiCommand::Select)
    } else if name == "ok"@ {
        Some(UiCommand::Select)
    } else if name == "up"@ {
        Some(UiCommand::Up)
    } else if name == "down"@ {
        Some(UiCommand::Down)
    } else if name == "left"@ {
        Some(UiCommand::Left)
    } else if name == "right"@ {
        Some(UiCommand::Right)
    } else if name == "right-up"@ {
        Some(UiCommand::RightUp)
    } else if name == "right-down"@ {
        Some(UiCommand::RightDown)
    } else if name == "left-up"@ {
        Some(UiCommand::LeftUp)
    } else if name == "left-down"@ {
        Some(UiCommand::LeftDown)
    } else if name == "device-root-menu"@ {
        Some(UiCommand::DeviceRootMenu)
    } else if name == "device-setup-menu"@ {
        Some(UiCommand::DeviceSetupMenu)
    } else if name == "contents-menu"@ {
        Some(UiCommand::ContentsMenu)
    } else if name == "favorite-menu"@ {
        Some(UiCommand::FavoriteMenu)
    } else if name == "back"@ {
        Some(UiCommand::Back)
    } else if name == "exit"@ {
        Some(UiCommand::Back)
    } else if name == "media-top-menu"@ {
        Some(UiCommand::MediaTopMenu)
    } else if name == "media-context-sensitive-menu"@ {
        Some(UiCommand::MediaContextSensitiveMenu)
    } else if name == "number-entry-mode"@ {
        Some(UiCommand::NumberEntryMode)
    } else if name == "11"@ {
        Some(UiCommand::Number11)
    } else if name == "12"@ {
        Some(UiCommand::Number12)
    } else if name == "0"@ {
        Some(UiCommand::Number0OrNumber10)
    } else if name == "10"@ {
        Some(UiCommand::Number0OrNumber10)
    } else if name == "1"@ {
        Some(UiCommand::Number1)
    } else if name == "2"@ {
        Some(UiCommand::Number2)
    } else if name == "3"@ {
        Some(UiCommand::Number3)
    } else if name == "4"@ {
        Some(UiCommand::Number4)
    } else if name == "5"@ {
        Some(UiCommand::Number5)
    } else if name == "6"@ {
        Some(UiCommand::Number6)
    } else if name == "7"@ {
        Some(UiCommand::Number7)
    } else if name == "8"@ {
        Some(UiCommand::Number8)
    } else if name == "9"@ {
        Some(UiCommand::Number9)
    } else if name == "dot"@ {
        Some(UiCommand::Dot)
    } else if name == "enter"@ {
        Some(UiCommand::Enter)
    } else if name == "clear"@ {
        Some(UiCommand::Clear)
    } else if name == "next-favorite"@ {
        Some(UiCommand::NextFavorite)
    } else if name == "channel-up"@ {
        Some(UiCommand::ChannelUp)
    } else if name == "channel-down"@ {
        Some(UiCommand::ChannelDown)
    } else if name == "previous-channel"@ {
        Some(UiCommand::PreviousChannel)
    } else if name == "sound-select"@ {
        Some(UiCommand::SoundSelect)
    } else if name == "input-select"@ {
        Some(UiCommand::InputSelect)
    } else if name == "display-information"@ {
        Some(UiCommand::DisplayInformation)
    } else if name == "help"@ {
        Some(UiCommand::Help)
    } else if name == "page-up"@ {
        Some(UiCommand::PageUp)
    } else if name == "page-down"@ {
        Some(UiCommand::PageDown)
    } else if name == "power"@ {
        Some(UiCommand::Power)
    } else if name == "volume-up"@ {
        Some(UiCommand::VolumeUp)
    } else if name == "volume-down"@ {
        Some(UiCommand::VolumeDown)
    } else if name == "mute"@ {
        Some(UiCommand::Mute)
    } else if name == "play"@ {
        Some(UiCommand::Play)
    } else if name == "stop"@ {
        Some(UiCommand::Stop)
    } else if name == "pause"@ {
        Some(UiCommand::Pause)
    } else if name == "record"@ {
        Some(UiCommand::Record)
    } else if name == "rewind"@ {
        Some(UiCommand::Rewind)
    } else if name == "fast-forward"@ {
        Some(UiCommand::FastForward)
    } else if name == "eject"@ {
        Some(UiCommand::Eject)
    } else if name == "skip-forward"@ {
        Some(UiCommand::SkipForward)
    } else if name == "skip-backward"@ {
        Some(UiCommand::SkipBackward)
    } else if name == "stop-record"@ {
        Some(UiCommand::StopRecord)
    } else if name == "pause-record"@ {
        Some(UiCommand::PauseRecord)
    } else if name == "angle"@ {
        Some(UiCommand::Angle)
    } else if name == "sub-picture"@ {
        Some(UiCommand::SubPicture)
    } else if name == "video-on-demand"@ {
        Some(UiCommand::VideoOnDemand)
    } else if name == "electronic-program-guide"@ {
        Some(UiCommand::ElectronicProgramGuide)
    } else if name == "timer-programming"@ {
        Some(UiCommand::TimerProgramming)
    } else if name == "initial-configuration"@ {
        Some(UiCommand::InitialConfiguration)
    } else if name == "select-broadcast-type"@ {
        Some(UiCommand::SelectBroadcastType(None))
    } else if name == "select-sound-presentation"@ {
        Some(UiCommand::SelectSoundPresentation(None))
    } else if name == "audio-description"@ {
        Some(UiCommand::AudioDescription)
    } else if name == "internet"@ {
        Some(UiCommand::Internet)
    } else if name == "3d-mode"@ {
        Some(UiCommand::ThreeDMode)
    } else if name == "play-function"@ {
        Some(UiCommand::PlayFunction(None))
    } else if name == "pause-play-function"@ {
        Some(UiCommand::PausePlayFunction)
    } else if name == "record-function"@ {
        Some(UiCommand::RecordFunction)
    } else if name == "pause-record-function"@ {
        Some(UiCommand::PauseRecordFunction)
    } else if name == "stop-function"@ {
        Some(UiCommand::StopFunction)
    } else if name == "mute-function"@ {
        Some(UiCommand::MuteFunction)
    } else if name == "restore-volume-function"@ {
        Some(UiCommand::RestoreVolumeFunction)
    } else if name == "tune-function"@ {
        Some(UiCommand::TuneFunction(None))
    } else if name == "select-media-function"@ {
        Some(UiCommand::SelectMediaFunction(None))
    } else if name == "select-av-input-function"@ {
        Some(UiCommand::SelectAvInputFunction(None))
    } else if name == "select-audio-input-function"@ {
        Some(UiCommand::SelectAudioInputFunction(None))
    } else if name == "power-toggle-function"@ {
        Some(UiCommand::PowerToggleFunction)
    } else if name == "power-off-function"@ {
        Some(UiCommand::PowerOffFunction)
    } else if name == "power-on-function"@ {
        Some(UiCommand::PowerOnFunction)
    } else if name == "f1"@ {
        Some(UiCommand::F1Blue)
    } else if name == "blue"@ {
        Some(UiCommand::F1Blue)
    } else if name == "f2"@ {
        Some(UiCommand::F2Red)
    } else if name == "red"@ {
        Some(UiCommand::F2Red)
    } else if name == "f3"@ {
        Some(UiCommand::F3Green)
    } else if name == "green"@ {
        Some(UiCommand::F3Green)
    } else if name == "f4"@ {
        Some(UiCommand::F4Yellow)
    } else if name == "yellow"@ {
        Some(UiCommand::F4Yellow)
    } else if name == "f5"@ {
        Some(UiCommand::F5)
    } else if name == "data"@ {
        Some(UiCommand::Data)
    } else {
        None
    }
}

impl UiCommand {
    /// The button with a name.
    pub fn from_str(name: &str) -> (r: Result<UiCommand, Error>)
        ensures
            outcome(r) == (match named(name@) {
                Some(command) => Ok(command),
                None => Err(ErrorView::InvalidValueForType { ty: "UiCommand"@, value: name@ }),
            }),
    {
        let command = if str_eq(name, "select") {
            UiCommand::Select
        } else if str_eq(name, "ok") {
            UiCommand::Select
        } else if str_eq(name, "up") {
            UiCommand::Up
        } else if str_eq(name, "down") {
            UiCommand::Down
        } else if str_eq(name, "left") {
            UiCommand::Left
        } else if str_eq(name, "right") {
            UiCommand::Right
        } else if str_eq(name, "right-up") {
            UiCommand::RightUp
        } else if str_eq(name, "right-down") {
            UiCommand::RightDown
        } else if str_eq(name, "left-up") {
            UiCommand::LeftUp
        } else if str_eq(name, "left-down") {
            UiCommand::LeftDown
        } else if str_eq(name, "device-root-menu") {
            UiCommand::DeviceRootMenu
        } else if str_eq(name, "device-setup-menu") {
            UiCommand::DeviceSetupMenu
        } else if str_eq(name, "contents-menu") {
            UiCommand::ContentsMenu
        } else if str_eq(name, "favorite-menu") {
            UiCommand::FavoriteMenu
        } else if str_eq(name, "back") {
            UiCommand::Back
        } else if str_eq(name, "exit") {
            UiCommand::Back
        } else if str_eq(name, "media-top-menu") {
            UiCommand::MediaTopMenu
        } else if str_eq(name, "media-context-sensitive-menu") {
            UiCommand::MediaContextSensitiveMenu
        } else if str_eq(name, "number-entry-mode") {
            UiCommand::NumberEntryMode
        } else if str_eq(name, "11") {
            UiCommand::Number11
        } else if str_eq(name, "12") {
            UiCommand::Number12
        } else if str_eq(name, "0") {
            UiCommand::Number0OrNumber10
        } else if str_eq(name, "10") {
            UiCommand::Number0OrNumber10
        } else if str_eq(name, "1") {
            UiCommand::Number1
        } else if str_eq(name, "2") {
            UiCommand::Number2
        } else if str_eq(name, "3") {
            UiCommand::Number3
        } else if str_eq(name, "4") {
            UiCommand::Number4
        } else if str_eq(name, "5") {
            UiCommand::Number5
        } else if str_eq(name, "6") {
            UiCommand::Number6
        } else if str_eq(name, "7") {
            UiCommand::Number7
        } else if str_eq(name, "8") {
            UiCommand::Number8
        } else if str_eq(name, "9") {
            UiCommand::Number9
        } else if str_eq(name, "dot") {
            UiCommand::Dot
        } else if str_eq(name, "enter") {
            UiCommand::Enter
        } else if str_eq(name, "clear") {
            UiCommand::Clear
        } else if str_eq(name, "next-favorite") {
            UiCommand::NextFavorite
        } else if str_eq(name, "channel-up") {
            UiCommand::ChannelUp
        } else if str_eq(name, "channel-down") {
            UiCommand::ChannelDown
        } else if str_eq(name, "previous-channel") {
            UiCommand::PreviousChannel
        } else if str_eq(name, "sound-select") {
            UiCommand::SoundSelect
        } else if str_eq(name, "input-select") {
            UiCommand::InputSelect
        } else if str_eq(name, "display-information") {
            UiCommand::DisplayInformation
        } else if str_eq(name, "help") {
            UiCommand::Help
        } else if str_eq(name, "page-up") {
            UiCommand::PageUp
        } else if str_eq(name, "page-down") {
            UiCommand::PageDown
        } else if str_eq(name, "power") {
            UiCommand::Power
        } else if str_eq(name, "volume-up") {
            UiCommand::VolumeUp
        } else if str_eq(name, "volume-down") {
            UiCommand::VolumeDown
        } else if str_eq(name, "mute") {
            UiCommand::Mute
        } else if str_eq(name, "play") {
            UiCommand::Play
        } else if str_eq(name, "stop") {
            UiCommand::Stop
        } else if str_eq(name, "pause") {
            UiCommand::Pause
        } else if str_eq(name, "record") {
            UiCommand::Record
        } else if str_eq(name, "rewind") {
            UiCommand::Rewind
        } else if str_eq(name, "fast-forward") {
            UiCommand::FastForward
        } else if str_eq(name, "eject") {
            UiCommand::Eject
        } else if str_eq(name, "skip-forward") {
            UiCommand::SkipForward
        } else if str_eq(name, "skip-backward") {
            UiCommand::SkipBackward
        } else if str_eq(name, "stop-record") {
            UiCommand::StopRecord
        } else if str_eq(name, "pause-record") {
            UiCommand::PauseRecord
        } else if str_eq(name, "angle") {
            UiCommand::Angle
        } else if str_eq(name, "sub-picture") {
            UiCommand::SubPicture
        } else if str_eq(name, "video-on-demand") {
            UiCommand::VideoOnDemand
        } else if str_eq(name, "electronic-program-guide") {
            UiCommand::ElectronicProgramGuide
        } else if str_eq(name, "timer-programming") {
            UiCommand::TimerProgramming
        } else if str_eq(name, "initial-configuration") {
            UiCommand::InitialConfiguration
        } else if str_eq(name, "select-broadcast-type") {
            UiCommand::SelectBroadcastType(None)
        } else if str_eq(name, "select-sound-presentation") {
            UiCommand::SelectSoundPresentation(None)
        } else if str_eq(name, "audio-description") {
            UiCommand::AudioDescription
        } else if str_eq(name, "internet") {
            UiCommand::Internet
        } else if str_eq(name, "3d-mode") {
            UiCommand::ThreeDMode
        } else if str_eq(name, "play-function") {
            UiCommand::PlayFunction(None)
        } else if str_eq(name, "pause-play-function") {
            UiCommand::PausePlayFunction
        } else if str_eq(name, "record-function") {
            UiCommand::RecordFunction
        } else if str_eq(name, "pause-record-function") {
            UiCommand::PauseRecordFunction
        } else if str_eq(name, "stop-function") {
            UiCommand::StopFunction
        } else if str_eq(name, "mute-function") {
            UiCommand::MuteFunction
        } else if str_eq(name, "restore-volume-function") {
            UiCommand::RestoreVolumeFunction
        } else if str_eq(name, "tune-function") {
            UiCommand::TuneFunction(None)
        } else if str_eq(name, "select-media-function") {
            UiCommand::SelectMediaFunction(None)
        } else if str_eq(name, "select-av-input-function") {
            UiCommand::SelectAvInputFunction(None)
        } else if str_eq(name, "select-audio-input-function") {
            UiCommand::SelectAudioInputFunction(None)
        } else if str_eq(name, "power-toggle-function") {
            UiCommand::PowerToggleFunction
        } else if str_eq(name, "power-off-function") {
            UiCommand::PowerOffFunction
        } else if str_eq(name, "power-on-function") {
            UiCommand::PowerOnFunction
        } else if str_eq(name, "f1") {
            UiCommand::F1Blue
        } else if str_eq(name, "blue") {
            UiCommand::F1Blue
        } else if str_eq(name, "f2") {
            UiCommand::F2Red
        } else if str_eq(name, "red") {
            UiCommand::F2Red
        } else if str_eq(name, "f3") {
            UiCommand::F3Green
        } else if str_eq(name, "green") {
            UiCommand::F3Green
        } else if str_eq(name, "f4") {
            UiCommand::F4Yellow
        } else if str_eq(name, "yellow") {
            UiCommand::F4Yellow
        } else if str_eq(name, "f5") {
            UiCommand::F5
        } else if str_eq(name, "data") {
            UiCommand::Data
        } else {
            return Err(Error::InvalidValueForType { ty: "UiCommand", value: name.to_owned() });
        };
        Ok(command)
    }
}

/// The names of the buttons: a name that stands for a button is one of these of it.
pub proof fn names_stand_for_buttons(name: Seq<char>)
    ensures
        named(name) == Some(UiCommand::Select) ==> name == "select"@ || name == "ok"@,
        named(name) == Some(UiCommand::Up) ==> name == "up"@,
        named(name) == Some(UiCommand::Down) ==> name == "down"@,
        named(name) == Some(UiCommand::Left) ==> name == "left"@,
        named(name) == Some(UiCommand::Right) ==> name == "right"@,
        named(name) == Some(UiCommand::RightUp) ==> name == "right-up"@,
        named(name) == Some(UiCommand::RightDown) ==> name == "right-down"@,
        named(name) == Some(UiCommand::LeftUp) ==> name == "left-up"@,
        named(name) == Some(UiCommand::LeftDown) ==> name == "left-down"@,
        named(name) == Some(UiCommand::DeviceRootMenu) ==> name == "device-root-menu"@,
        named(name) == Some(UiCommand::DeviceSetupMenu) ==> name == "device-setup-menu"@,
        named(name) == Some(UiCommand::ContentsMenu) ==> name == "contents-menu"@,
        named(name) == Some(UiCommand::FavoriteMenu) ==> name == "favorite-menu"@,
        named(name) == Some(UiCommand::Back) ==> name == "back"@ || name == "exit"@,
        named(name) == Some(UiCommand::MediaTopMenu) ==> name == "media-top-menu"@,
        named(name) == Some(UiCommand::MediaContextSensitiveMenu) ==> name == "media-context-sensitive-menu"@,
        named(name) == Some(UiCommand::NumberEntryMode) ==> name == "number-entry-mode"@,
        named(name) == Some(UiCommand::Number11) ==> name == "11"@,
        named(name) == Some(UiCommand::Number12) ==> name == "12"@,
        named(name) == Some(UiCommand::Number0OrNumber10) ==> name == "0"@ || name == "10"@,
        named(name) == Some(UiCommand::Number1) ==> name == "1"@,
        named(name) == Some(UiCommand::Number2) ==> name == "2"@,
        named(name) == Some(UiCommand::Number3) ==> name == "3"@,
        named(name) == Some(UiCommand::Number4) ==> name == "4"@,
        named(name) == Some(UiCommand::Number5) ==> name == "5"@,
        named(name) == Some(UiCommand::Number6) ==> name == "6"@,
        named(name) == Some(UiCommand::Number7) ==> name == "7"@,
        named(name) == Some(UiCommand::Number8) ==> name == "8"@,
        named(name) == Some(UiCommand::Number9) ==> name == "9"@,
        named(name) == Some(UiCommand::Dot) ==> name == "dot"@,
        named(name) == Some(UiCommand::Enter) ==> name == "enter"@,
        named(name) == Some(UiCommand::Clear) ==> name == "clear"@,
        named(name) == Some(UiCommand::NextFavorite) ==> name == "next-favorite"@,
        named(name) == Some(UiCommand::ChannelUp) ==> name == "channel-up"@,
        named(name) == Some(UiCommand::ChannelDown) ==> name == "channel-down"@,
        named(name) == Some(UiCommand::PreviousChannel) ==> name == "previous-channel"@,
        named(name) == Some(UiCommand::SoundSelect) ==> name == "sound-select"@,
        named(name) == Some(UiCommand::InputSelect) ==> name == "input-select"@,
        named(name) == Some(UiCommand::DisplayInformation) ==> name == "display-information"@,
        named(name) == Some(UiCommand::Help) ==> name == "help"@,
        named(name) == Some(UiCommand::PageUp) ==> name == "page-up"@,
        named(name) == Some(UiCommand::PageDown) ==> name == "page-down"@,
        named(name) == Some(UiCommand::Power) ==> name == "power"@,
        named(name) == Some(UiCommand::VolumeUp) ==> name == "volume-up"@,
        named(name) == Some(UiCommand::VolumeDown) ==> name == "volume-down"@,
        named(name) == Some(UiCommand::Mute) ==> name == "mute"@,
        named(name) == Some(UiCommand::Play) ==> name == "play"@,
        named(name) == Some(UiCommand::Stop) ==> name == "stop"@,
        named(name) == Some(UiCommand::Pause) ==> name == "pause"@,
        named(name) == Some(UiCommand::Record) ==> name == "record"@,
        named(name) == Some(UiCommand::Rewind) ==> name == "rewind"@,
        named(name) == Some(UiCommand::FastForward) ==> name == "fast-forward"@,
        named(name) == Some(UiCommand::Eject) ==> name == "eject"@,
        named(name) == Some(UiCommand::SkipForward) ==> name == "skip-forward"@,
        named(name) == Some(UiCommand::SkipBackward) ==> name == "skip-backward"@,
        named(name) == Some(UiCommand::StopRecord) ==> name == "stop-record"@,
        named(name) == Some(UiCommand::PauseRecord) ==> name == "pause-record"@,
        named(name) == Some(UiCommand::Angle) ==> name == "angle"@,
        named(name) == Some(UiCommand::SubPicture) ==> name == "sub-picture"@,
        named(name) == Some(UiCommand::VideoOnDemand) ==> name == "video-on-demand"@,
        named(name) == Some(UiCommand::ElectronicProgramGuide) ==> name == "electronic-program-guide"@,
        named(name) == Some(UiCommand::TimerProgramming) ==> name == "timer-programming"@,
        named(name) == Some(UiCommand::InitialConfiguration) ==> name == "initial-configuration"@,
        named(name) == Some(UiCommand::SelectBroadcastType(None)) ==> name == "select-broadcast-type"@,
        named(name) == Some(UiCommand::SelectSoundPresentation(None)) ==> name == "select-sound-presentation"@,
        named(name) == Some(UiCommand::AudioDescription) ==> name == "audio-description"@,
        named(name) == Some(UiCommand::Internet) ==> name == "internet"@,
        named(name) == Some(UiCommand::ThreeDMode) ==> name == "3d-mode"@,
        named(name) == Some(UiCommand::PlayFunction(None)) ==> name == "play-function"@,
        named(name) == Some(UiCommand::PausePlayFunction) ==> name == "pause-play-function"@,
        named(name) == Some(UiCommand::RecordFunction) ==> name == "record-function"@,
        named(name) == Some(UiCommand::PauseRecordFunction) ==> name == "pause-record-function"@,
        named(name) == Some(UiCommand::StopFunction) ==> name == "stop-function"@,
        named(name) == Some(UiCommand::MuteFunction) ==> name == "mute-function"@,
        named(name) == Some(UiCommand::RestoreVolumeFunction) ==> name == "restore-volume-function"@,
        named(name) == Some(UiCommand::TuneFunction(None)) ==> name == "tune-function"@,
        named(name) == Some(UiCommand::SelectMediaFunction(None)) ==> name == "select-media-function"@,
        named(name) == Some(UiCommand::SelectAvInputFunction(None)) ==> name == "select-av-input-function"@,
        named(name) == Some(UiCommand::SelectAudioInputFunction(None)) ==> name == "select-audio-input-function"@,
        named(name) == Some(UiCommand::PowerToggleFunction) ==> name == "power-toggle-function"@,
        named(name) == Some(UiCommand::PowerOffFunction) ==> name == "power-off-function"@,
        named(name) == Some(UiCommand::PowerOnFunction) ==> name == "power-on-function"@,
        named(name) == Some(UiCommand::F1Blue) ==> name == "f1"@ || name == "blue"@,
        named(name) == Some(UiCommand::F2Red) ==> name == "f2"@ || name == "red"@,
        named(name) == Some(UiCommand::F3Green) ==> name == "f3"@ || name == "green"@,
        named(name) == Some(UiCommand::F4Yellow) ==> name == "f4"@ || name == "yellow"@,
        named(name) == Some(UiCommand::F5) ==> name == "f5"@,
        named(name) == Some(UiCommand::Data) ==> name == "data"@,
{
}

/// Each of the names of buttons stands for one.
pub proof fn buttons_have_names(name: Seq<char>)
    ensures
        name == "select"@ ==> named(name) is Some,
        name == "ok"@ ==> named(name) is Some,
        name == "up"@ ==> named(name) is Some,
        name == "down"@ ==> named(name) is Some,
        name == "left"@ ==> named(name) is Some,
        name == "right"@ ==> named(name) is Some,
        name == "right-up"@ ==> named(name) is Some,
        name == "right-down"@ ==> named(name) is Some,
        name == "left-up"@ ==> named(name) is Some,
        name == "left-down"@ ==> named(name) is Some,
        name == "device-root-menu"@ ==> named(name) is Some,
        name == "device-setup-menu"@ ==> named(name) is Some,
        name == "contents-menu"@ ==> named(name) is Some,
        name == "favorite-menu"@ ==> named(name) is Some,
        name == "back"@ ==> named(name) is Some,
        name == "exit"@ ==> named(name) is Some,
        name == "media-top-menu"@ ==> named(name) is Some,
        name == "media-context-sensitive-menu"@ ==> named(name) is Some,
        name == "number-entry-mode"@ ==> named(name) is Some,
        name == "11"@ ==> named(name) is Some,
        name == "12"@ ==> named(name) is Some,
        name == "0"@ ==> named(name) is Some,
        name == "10"@ ==> named(name) is Some,
        name == "1"@ ==> named(name) is Some,
        name == "2"@ ==> named(name) is Some,
        name == "3"@ ==> named(name) is Some,
        name == "4"@ ==> named(name) is Some,
        name == "5"@ ==> named(name) is Some,
        name == "6"@ ==> named(name) is Some,
        name == "7"@ ==> named(name) is Some,
        name == "8"@ ==> named(name) is Some,
        name == "9"@ ==> named(name) is Some,
        name == "dot"@ ==> named(name) is Some,
        name == "enter"@ ==> named(name) is Some,
        name == "clear"@ ==> named(name) is Some,
        name == "next-favorite"@ ==> named(name) is Some,
        name == "channel-up"@ ==> named(name) is Some,
        name == "channel-down"@ ==> named(name) is Some,
        name == "previous-channel"@ ==> named(name) is Some,
        name == "sound-select"@ ==> named(name) is Some,
        name == "input-select"@ ==> named(name) is Some,
        name == "display-information"@ ==> named(name) is Some,
        name == "help"@ ==> named(name) is Some,
        name == "page-up"@ ==> named(name) is Some,
        name == "page-down"@ ==> named(name) is Some,
        name == "power"@ ==> named(name) is Some,
        name == "volume-up"@ ==> named(name) is Some,
        name == "volume-down"@ ==> named(name) is Some,
        name == "mute"@ ==> named(name) is Some,
        name == "play"@ ==> named(name) is Some,
        name == "stop"@ ==> named(name) is Some,
        name == "pause"@ ==> named(name) is Some,
        name == "record"@ ==> named(name) is Some,
        name == "rewind"@ ==> named(name) is Some,
        name == "fast-forward"@ ==> named(name) is Some,
        name == "eject"@ ==> named(name) is Some,
        name == "skip-forward"@ ==> named(name) is Some,
        name == "skip-backward"@ ==> named(name) is Some,
        name == "stop-record"@ ==> named(name) is Some,
        name == "pause-record"@ ==> named(name) is Some,
        name == "angle"@ ==> named(name) is Some,
        name == "sub-picture"@ ==> named(name) is Some,
        name == "video-on-demand"@ ==> named(name) is Some,
        name == "electronic-program-guide"@ ==> named(name) is Some,
        name == "timer-programming"@ ==> named(name) is Some,
        name == "initial-configuration"@ ==> named(name) is Some,
        name == "select-broadcast-type"@ ==> named(name) is Some,
        name == "select-sound-presentation"@ ==> named(name) is Some,
        name == "audio-description"@ ==> named(name) is Some,
        name == "internet"@ ==> named(name) is Some,
        name == "3d-mode"@ ==> named(name) is Some,
        name == "play-function"@ ==> named(name) is Some,
        name == "pause-play-function"@ ==> named(name) is Some,
        name == "record-function"@ ==> named(name) is Some,
        name == "pause-record-function"@ ==> named(name) is Some,
        name == "stop-function"@ ==> named(name) is Some,
        name == "mute-function"@ ==> named(name) is Some,
        name == "restore-volume-function"@ ==> named(name) is Some,
        name == "tune-function"@ ==> named(name) is Some,
        name == "select-media-function"@ ==> named(name) is Some,
        name == "select-av-input-function"@ ==> named(name) is Some,
        name == "select-audio-input-function"@ ==> named(name) is Some,
        name == "power-toggle-function"@ ==> named(name) is Some,
        name == "power-off-function"@ ==> named(name) is Some,
        name == "power-on-function"@ ==> named(name) is Some,
        name == "f1"@ ==> named(name) is Some,
        name == "blue"@ ==> named(name) is Some,
        name == "f2"@ ==> named(name) is Some,
        name == "red"@ ==> named(name) is Some,
        name == "f3"@ ==> named(name) is Some,
        name == "green"@ ==> named(name) is Some,
        name == "f4"@ ==> named(name) is Some,
        name == "yellow"@ ==> named(name) is Some,
        name == "f5"@ ==> named(name) is Some,
        name == "data"@ ==> named(name) is Some,
{
}

} // verus!
