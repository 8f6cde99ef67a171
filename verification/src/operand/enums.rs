//! Operands that are one of a list of numbers.

use vstd::prelude::*;

use crate::codec::Coded;

verus! {

/// Why a device refuses a message.
#[derive(Debug, Copy, Clone, PartialEq, Eq, Hash, Structural)]
pub enum AbortReason {
    UnrecognizedOp,
    IncorrectMode,
    NoSource,
    InvalidOperand,
    Refused,
    Undetermined,
}

impl Coded for AbortReason {
    open spec fn code(&self) -> u8 {
        match self {
            AbortReason::UnrecognizedOp => 0x00,
            AbortReason::IncorrectMode => 0x01,
            AbortReason::NoSource => 0x02,
            AbortReason::InvalidOperand => 0x03,
            AbortReason::Refused => 0x04,
            AbortReason::Undetermined => 0x05,
        }
    }

    open spec fn with_code(code: u8) -> Option<Self> {
        match code {
            0x00 => Some(AbortReason::UnrecognizedOp),
            0x01 => Some(AbortReason::IncorrectMode),
            0x02 => Some(AbortReason::NoSource),
            0x03 => Some(AbortReason::InvalidOperand),
            0x04 => Some(AbortReason::Refused),
            0x05 => Some(AbortReason::Undetermined),
            _ => None,
        }
    }

    open spec fn label() -> Seq<char> {
        "AbortReason"@
    }

    fn to_primitive(&self) -> (code: u8) {
        match self {
            AbortReason::UnrecognizedOp => 0x00,
            AbortReason::IncorrectMode => 0x01,
            AbortReason::NoSource => 0x02,
            AbortReason::InvalidOperand => 0x03,
            AbortReason::Refused => 0x04,
            AbortReason::Undetermined => 0x05,
        }
    }

    fn from_primitive(code: u8) -> (r: Option<Self>) {
        match code {
            0x00 => Some(AbortReason::UnrecognizedOp),
            0x01 => Some(AbortReason::IncorrectMode),
            0x02 => Some(AbortReason::NoSource),
            0x03 => Some(AbortReason::InvalidOperand),
            0x04 => Some(AbortReason::Refused),
            0x05 => Some(AbortReason::Undetermined),
            _ => None,
        }
    }

    fn type_label() -> (r: &'static str) {
        "AbortReason"
    }

    proof fn one_to_one() {
    }
}

/// How an analogue broadcast arrives.
#[derive(Debug, Copy, Clone, PartialEq, Eq, Hash, Structural)]
pub enum AnalogueBroadcastType {
    Cable,
    Satellite,
    Terrestrial,
}

impl Coded for AnalogueBroadcastType {
    open spec fn code(&self) -> u8 {
        match self {
            AnalogueBroadcastType::Cable => 0x00,
            AnalogueBroadcastType::Satellite => 0x01,
            AnalogueBroadcastType::Terrestrial => 0x02,
        }
    }

    open spec fn with_code(code: u8) -> Option<Self> {
        match code {
            0x00 => Some(AnalogueBroadcastType::Cable),
            0x01 => Some(AnalogueBroadcastType::Satellite),
            0x02 => Some(AnalogueBroadcastType::Terrestrial),
            _ => None,
        }
    }

    open spec fn label() -> Seq<char> {
        "AnalogueBroadcastType"@
    }

    fn to_primitive(&self) -> (code: u8) {
        match self {
            AnalogueBroadcastType::Cable => 0x00,
            AnalogueBroadcastType::Satellite => 0x01,
            AnalogueBroadcastType::Terrestrial => 0x02,
        }
    }

    fn from_primitive(code: u8) -> (r: Option<Self>) {
        match code {
            0x00 => Some(AnalogueBroadcastType::Cable),
            0x01 => Some(AnalogueBroadcastType::Satellite),
            0x02 => Some(AnalogueBroadcastType::Terrestrial),
            _ => None,
        }
    }

    fn type_label() -> (r: &'static str) {
        "AnalogueBroadcastType"
    }

    proof fn one_to_one() {
    }
}

/// How fast an audio source is to play.
#[derive(Debug, Copy, Clone, PartialEq, Eq, Hash, Structural)]
pub enum AudioRate {
    Off,
    WideStandard,
    WideFast,
    WideSlow,
    NarrowStandard,
    NarrowFast,
    NarrowSlow,
}

impl Coded for AudioRate {
    open spec fn code(&self) -> u8 {
        match self {
            AudioRate::Off => 0x00,
            AudioRate::WideStandard => 0x01,
            AudioRate::WideFast => 0x02,
            AudioRate::WideSlow => 0x03,
            AudioRate::NarrowStandard => 0x04,
            AudioRate::NarrowFast => 0x05,
            AudioRate::NarrowSlow => 0x06,
        }
    }

    open spec fn with_code(code: u8) -> Option<Self> {
        match code {
            0x00 => Some(AudioRate::Off),
            0x01 => Some(AudioRate::WideStandard),
            0x02 => Some(AudioRate::WideFast),
            0x03 => Some(AudioRate::WideSlow),
            0x04 => Some(AudioRate::NarrowStandard),
            0x05 => Some(AudioRate::NarrowFast),
            0x06 => Some(AudioRate::NarrowSlow),
            _ => None,
        }
    }

    open spec fn label() -> Seq<char> {
        "AudioRate"@
    }

    fn to_primitive(&self) -> (code: u8) {
        match self {
            AudioRate::Off => 0x00,
            AudioRate::WideStandard => 0x01,
            AudioRate::WideFast => 0x02,
            AudioRate::WideSlow => 0x03,
            AudioRate::NarrowStandard => 0x04,
            AudioRate::NarrowFast => 0x05,
            AudioRate::NarrowSlow => 0x06,
        }
    }

    fn from_primitive(code: u8) -> (r: Option<Self>) {
        match code {
            0x00 => Some(AudioRate::Off),
            0x01 => Some(AudioRate::WideStandard),
            0x02 => Some(AudioRate::WideFast),
            0x03 => Some(AudioRate::WideSlow),
            0x04 => Some(AudioRate::NarrowStandard),
            0x05 => Some(AudioRate::NarrowFast),
            0x06 => Some(AudioRate::NarrowSlow),
            _ => None,
        }
    }

    fn type_label() -> (r: &'static str) {
        "AudioRate"
    }

    proof fn one_to_one() {
    }
}

/// The system of an analogue broadcast.
#[derive(Debug, Copy, Clone, PartialEq, Eq, Hash, Structural)]
pub enum BroadcastSystem {
    PalBG,
    SecamLq,
    PalM,
    NtscM,
    PalI,
    SecamDK,
    SecamBG,
    SecamL,
    PalDK,
    Other,
}

impl Coded for BroadcastSystem {
    open spec fn code(&self) -> u8 {
        match self {
            BroadcastSystem::PalBG => 0x00,
            BroadcastSystem::SecamLq => 0x01,
            BroadcastSystem::PalM => 0x02,
            BroadcastSystem::NtscM => 0x03,
            BroadcastSystem::PalI => 0x04,
            BroadcastSystem::SecamDK => 0x05,
            BroadcastSystem::SecamBG => 0x06,
            BroadcastSystem::SecamL => 0x07,
            BroadcastSystem::PalDK => 0x08,
            BroadcastSystem::Other => 0x1f,
        }
    }

    open spec fn with_code(code: u8) -> Option<Self> {
        match code {
            0x00 => Some(BroadcastSystem::PalBG),
            0x01 => Some(BroadcastSystem::SecamLq),
            0x02 => Some(BroadcastSystem::PalM),
            0x03 => Some(BroadcastSystem::NtscM),
            0x04 => Some(BroadcastSystem::PalI),
            0x05 => Some(BroadcastSystem::SecamDK),
            0x06 => Some(BroadcastSystem::SecamBG),
            0x07 => Some(BroadcastSystem::SecamL),
            0x08 => Some(BroadcastSystem::PalDK),
            0x1f => Some(BroadcastSystem::Other),
            _ => None,
        }
    }

    open spec fn label() -> Seq<char> {
        "BroadcastSystem"@
    }

    fn to_primitive(&self) -> (code: u8) {
        match self {
            BroadcastSystem::PalBG => 0x00,
            BroadcastSystem::SecamLq => 0x01,
            BroadcastSystem::PalM => 0x02,
            BroadcastSystem::NtscM => 0x03,
            BroadcastSystem::PalI => 0x04,
            BroadcastSystem::SecamDK => 0x05,
            BroadcastSystem::SecamBG => 0x06,
            BroadcastSystem::SecamL => 0x07,
            BroadcastSystem::PalDK => 0x08,
            BroadcastSystem::Other => 0x1f,
        }
    }

    fn from_primitive(code: u8) -> (r: Option<Self>) {
        match code {
            0x00 => Some(BroadcastSystem::PalBG),
            0x01 => Some(BroadcastSystem::SecamLq),
            0x02 => Some(BroadcastSystem::PalM),
            0x03 => Some(BroadcastSystem::NtscM),
            0x04 => Some(BroadcastSystem::PalI),
            0x05 => Some(BroadcastSystem::SecamDK),
            0x06 => Some(BroadcastSystem::SecamBG),
            0x07 => Some(BroadcastSystem::SecamL),
            0x08 => Some(BroadcastSystem::PalDK),
            0x1f => Some(BroadcastSystem::Other),
            _ => None,
        }
    }

    fn type_label() -> (r: &'static str) {
        "BroadcastSystem"
    }

    proof fn one_to_one() {
    }
}

/// The day on which a timer starts.
#[derive(Debug, Copy, Clone, PartialEq, Eq, Hash, Structural)]
pub enum DayOfMonth {
    Day1,
    Day2,
    Day3,
    Day4,
    Day5,
    Day6,
    Day7,
    Day8,
    Day9,
    Day10,
    Day11,
    Day12,
    Day13,
    Day14,
    Day15,
    Day16,
    Day17,
    Day18,
    Day19,
    Day20,
    Day21,
    Day22,
    Day23,
    Day24,
    Day25,
    Day26,
    Day27,
    Day28,
    Day29,
    Day30,
    Day31,
}

impl Coded for DayOfMonth {
    open spec fn code(&self) -> u8 {
        match self {
            DayOfMonth::Day1 => 0x01,
            DayOfMonth::Day2 => 0x02,
            DayOfMonth::Day3 => 0x03,
            DayOfMonth::Day4 => 0x04,
            DayOfMonth::Day5 => 0x05,
            DayOfMonth::Day6 => 0x06,
            DayOfMonth::Day7 => 0x07,
            DayOfMonth::Day8 => 0x08,
            DayOfMonth::Day9 => 0x09,
            DayOfMonth::Day10 => 0x0a,
            DayOfMonth::Day11 => 0x0b,
            DayOfMonth::Day12 => 0x0c,
            DayOfMonth::Day13 => 0x0d,
            DayOfMonth::Day14 => 0x0e,
            DayOfMonth::Day15 => 0x0f,
            DayOfMonth::Day16 => 0x10,
            DayOfMonth::Day17 => 0x11,
            DayOfMonth::Day18 => 0x12,
            DayOfMonth::Day19 => 0x13,
            DayOfMonth::Day20 => 0x14,
            DayOfMonth::Day21 => 0x15,
            DayOfMonth::Day22 => 0x16,
            DayOfMonth::Day23 => 0x17,
            DayOfMonth::Day24 => 0x18,
            DayOfMonth::Day25 => 0x19,
            DayOfMonth::Day26 => 0x1a,
            DayOfMonth::Day27 => 0x1b,
            DayOfMonth::Day28 => 0x1c,
            DayOfMonth::Day29 => 0x1d,
            DayOfMonth::Day30 => 0x1e,
            DayOfMonth::Day31 => 0x1f,
        }
    }

    open spec fn with_code(code: u8) -> Option<Self> {
        match code {
            0x01 => Some(DayOfMonth::Day1),
            0x02 => Some(DayOfMonth::Day2),
            0x03 => Some(DayOfMonth::Day3),
            0x04 => Some(DayOfMonth::Day4),
            0x05 => Some(DayOfMonth::Day5),
            0x06 => Some(DayOfMonth::Day6),
            0x07 => Some(DayOfMonth::Day7),
            0x08 => Some(DayOfMonth::Day8),
            0x09 => Some(DayOfMonth::Day9),
            0x0a => Some(DayOfMonth::Day10),
            0x0b => Some(DayOfMonth::Day11),
            0x0c => Some(DayOfMonth::Day12),
            0x0d => Some(DayOfMonth::Day13),
            0x0e => Some(DayOfMonth::Day14),
            0x0f => Some(DayOfMonth::Day15),
            0x10 => Some(DayOfMonth::Day16),
            0x11 => Some(DayOfMonth::Day17),
            0x12 => Some(DayOfMonth::Day18),
            0x13 => Some(DayOfMonth::Day19),
            0x14 => Some(DayOfMonth::Day20),
            0x15 => Some(DayOfMonth::Day21),
            0x16 => Some(DayOfMonth::Day22),
            0x17 => Some(DayOfMonth::Day23),
            0x18 => Some(DayOfMonth::Day24),
            0x19 => Some(DayOfMonth::Day25),
            0x1a => Some(DayOfMonth::Day26),
            0x1b => Some(DayOfMonth::Day27),
            0x1c => Some(DayOfMonth::Day28),
            0x1d => Some(DayOfMonth::Day29),
            0x1e => Some(DayOfMonth::Day30),
            0x1f => Some(DayOfMonth::Day31),
            _ => None,
        }
    }

    open spec fn label() -> Seq<char> {
        "DayOfMonth"@
    }

    fn to_primitive(&self) -> (code: u8) {
        match self {
            DayOfMonth::Day1 => 0x01,
            DayOfMonth::Day2 => 0x02,
            DayOfMonth::Day3 => 0x03,
            DayOfMonth::Day4 => 0x04,
            DayOfMonth::Day5 => 0x05,
            DayOfMonth::Day6 => 0x06,
            DayOfMonth::Day7 => 0x07,
            DayOfMonth::Day8 => 0x08,
            DayOfMonth::Day9 => 0x09,
            DayOfMonth::Day10 => 0x0a,
            DayOfMonth::Day11 => 0x0b,
            DayOfMonth::Day12 => 0x0c,
            DayOfMonth::Day13 => 0x0d,
            DayOfMonth::Day14 => 0x0e,
            DayOfMonth::Day15 => 0x0f,
            DayOfMonth::Day16 => 0x10,
            DayOfMonth::Day17 => 0x11,
            DayOfMonth::Day18 => 0x12,
            DayOfMonth::Day19 => 0x13,
            DayOfMonth::Day20 => 0x14,
            DayOfMonth::Day21 => 0x15,
            DayOfMonth::Day22 => 0x16,
            DayOfMonth::Day23 => 0x17,
            DayOfMonth::Day24 => 0x18,
            DayOfMonth::Day25 => 0x19,
            DayOfMonth::Day26 => 0x1a,
            DayOfMonth::Day27 => 0x1b,
            DayOfMonth::Day28 => 0x1c,
            DayOfMonth::Day29 => 0x1d,
            DayOfMonth::Day30 => 0x1e,
            DayOfMonth::Day31 => 0x1f,
        }
    }

    fn from_primitive(code: u8) -> (r: Option<Self>) {
        match code {
            0x01 => Some(DayOfMonth::Day1),
            0x02 => Some(DayOfMonth::Day2),
            0x03 => Some(DayOfMonth::Day3),
            0x04 => Some(DayOfMonth::Day4),
            0x05 => Some(DayOfMonth::Day5),
            0x06 => Some(DayOfMonth::Day6),
            0x07 => Some(DayOfMonth::Day7),
            0x08 => Some(DayOfMonth::Day8),
            0x09 => Some(DayOfMonth::Day9),
            0x0a => Some(DayOfMonth::Day10),
            0x0b => Some(DayOfMonth::Day11),
            0x0c => Some(DayOfMonth::Day12),
            0x0d => Some(DayOfMonth::Day13),
            0x0e => Some(DayOfMonth::Day14),
            0x0f => Some(DayOfMonth::Day15),
            0x10 => Some(DayOfMonth::Day16),
            0x11 => Some(DayOfMonth::Day17),
            0x12 => Some(DayOfMonth::Day18),
            0x13 => Some(DayOfMonth::Day19),
            0x14 => Some(DayOfMonth::Day20),
            0x15 => Some(DayOfMonth::Day21),
            0x16 => Some(DayOfMonth::Day22),
            0x17 => Some(DayOfMonth::Day23),
            0x18 => Some(DayOfMonth::Day24),
            0x19 => Some(DayOfMonth::Day25),
            0x1a => Some(DayOfMonth::Day26),
            0x1b => Some(DayOfMonth::Day27),
            0x1c => Some(DayOfMonth::Day28),
            0x1d => Some(DayOfMonth::Day29),
            0x1e => Some(DayOfMonth::Day30),
            0x1f => Some(DayOfMonth::Day31),
            _ => None,
        }
    }

    fn type_label() -> (r: &'static str) {
        "DayOfMonth"
    }

    proof fn one_to_one() {
    }
}

/// The month in which a timer starts.
#[derive(Debug, Copy, Clone, PartialEq, Eq, Hash, Structural)]
pub enum MonthOfYear {
    January,
    February,
    March,
    April,
    May,
    June,
    July,
    August,
    September,
    October,
    November,
    December,
}

impl Coded for MonthOfYear {
    open spec fn code(&self) -> u8 {
        match self {
            MonthOfYear::January => 0x01,
            MonthOfYear::February => 0x02,
            MonthOfYear::March => 0x03,
            MonthOfYear::April => 0x04,
            MonthOfYear::May => 0x05,
            MonthOfYear::June => 0x06,
            MonthOfYear::July => 0x07,
            MonthOfYear::August => 0x08,
            MonthOfYear::September => 0x09,
            MonthOfYear::October => 0x0a,
            MonthOfYear::November => 0x0b,
            MonthOfYear::December => 0x0c,
        }
    }

    open spec fn with_code(code: u8) -> Option<Self> {
        match code {
            0x01 => Some(MonthOfYear::January),
            0x02 => Some(MonthOfYear::February),
            0x03 => Some(MonthOfYear::March),
            0x04 => Some(MonthOfYear::April),
            0x05 => Some(MonthOfYear::May),
            0x06 => Some(MonthOfYear::June),
            0x07 => Some(MonthOfYear::July),
            0x08 => Some(MonthOfYear::August),
            0x09 => Some(MonthOfYear::September),
            0x0a => Some(MonthOfYear::October),
            0x0b => Some(MonthOfYear::November),
            0x0c => Some(MonthOfYear::December),
            _ => None,
        }
    }

    open spec fn label() -> Seq<char> {
        "MonthOfYear"@
    }

    fn to_primitive(&self) -> (code: u8) {
        match self {
            MonthOfYear::January => 0x01,
            MonthOfYear::February => 0x02,
            MonthOfYear::March => 0x03,
            MonthOfYear::April => 0x04,
            MonthOfYear::May => 0x05,
            MonthOfYear::June => 0x06,
            MonthOfYear::July => 0x07,
            MonthOfYear::August => 0x08,
            MonthOfYear::September => 0x09,
            MonthOfYear::October => 0x0a,
            MonthOfYear::November => 0x0b,
            MonthOfYear::December => 0x0c,
        }
    }

    fn from_primitive(code: u8) -> (r: Option<Self>) {
        match code {
            0x01 => Some(MonthOfYear::January),
            0x02 => Some(MonthOfYear::February),
            0x03 => Some(MonthOfYear::March),
            0x04 => Some(MonthOfYear::April),
            0x05 => Some(MonthOfYear::May),
            0x06 => Some(MonthOfYear::June),
            0x07 => Some(MonthOfYear::July),
            0x08 => Some(MonthOfYear::August),
            0x09 => Some(MonthOfYear::September),
            0x0a => Some(MonthOfYear::October),
            0x0b => Some(MonthOfYear::November),
            0x0c => Some(MonthOfYear::December),
            _ => None,
        }
    }

    fn type_label() -> (r: &'static str) {
        "MonthOfYear"
    }

    proof fn one_to_one() {
    }
}

/// What a deck is told to do.
#[derive(Debug, Copy, Clone, PartialEq, Eq, Hash, Structural)]
pub enum DeckControlMode {
    SkipForward,
    SkipReverse,
    Stop,
    Eject,
}

impl Coded for DeckControlMode {
    open spec fn code(&self) -> u8 {
        match self {
            DeckControlMode::SkipForward => 0x01,
            DeckControlMode::SkipReverse => 0x02,
            DeckControlMode::Stop => 0x03,
            DeckControlMode::Eject => 0x04,
        }
    }

    open spec fn with_code(code: u8) -> Option<Self> {
        match code {
            0x01 => Some(DeckControlMode::SkipForward),
            0x02 => Some(DeckControlMode::SkipReverse),
            0x03 => Some(DeckControlMode::Stop),
            0x04 => Some(DeckControlMode::Eject),
            _ => None,
        }
    }

    open spec fn label() -> Seq<char> {
        "DeckControlMode"@
    }

    fn to_primitive(&self) -> (code: u8) {
        match self {
            DeckControlMode::SkipForward => 0x01,
            DeckControlMode::SkipReverse => 0x02,
            DeckControlMode::Stop => 0x03,
            DeckControlMode::Eject => 0x04,
        }
    }

    fn from_primitive(code: u8) -> (r: Option<Self>) {
        match code {
            0x01 => Some(DeckControlMode::SkipForward),
            0x02 => Some(DeckControlMode::SkipReverse),
            0x03 => Some(DeckControlMode::Stop),
            0x04 => Some(DeckControlMode::Eject),
            _ => None,
        }
    }

    fn type_label() -> (r: &'static str) {
        "DeckControlMode"
    }

    proof fn one_to_one() {
    }
}

/// What a deck is doing.
#[derive(Debug, Copy, Clone, PartialEq, Eq, Hash, Structural)]
pub enum DeckInfo {
    Play,
    Record,
    PlayReverse,
    Still,
    Slow,
    SlowReverse,
    FastForward,
    FastReverse,
    NoMedia,
    Stop,
    SkipForward,
    SkipReverse,
    IndexSearchForward,
    IndexSearchReverse,
    Other,
}

impl Coded for DeckInfo {
    open spec fn code(&self) -> u8 {
        match self {
            DeckInfo::Play => 0x11,
            DeckInfo::Record => 0x12,
            DeckInfo::PlayReverse => 0x13,
            DeckInfo::Still => 0x14,
            DeckInfo::Slow => 0x15,
            DeckInfo::SlowReverse => 0x16,
            DeckInfo::FastForward => 0x17,
            DeckInfo::FastReverse => 0x18,
            DeckInfo::NoMedia => 0x19,
            DeckInfo::Stop => 0x1a,
            DeckInfo::SkipForward => 0x1b,
            DeckInfo::SkipReverse => 0x1c,
            DeckInfo::IndexSearchForward => 0x1d,
            DeckInfo::IndexSearchReverse => 0x1e,
            DeckInfo::Other => 0x1f,
        }
    }

    open spec fn with_code(code: u8) -> Option<Self> {
        match code {
            0x11 => Some(DeckInfo::Play),
            0x12 => Some(DeckInfo::Record),
            0x13 => Some(DeckInfo::PlayReverse),
            0x14 => Some(DeckInfo::Still),
            0x15 => Some(DeckInfo::Slow),
            0x16 => Some(DeckInfo::SlowReverse),
            0x17 => Some(DeckInfo::FastForward),
            0x18 => Some(DeckInfo::FastReverse),
            0x19 => Some(DeckInfo::NoMedia),
            0x1a => Some(DeckInfo::Stop),
            0x1b => Some(DeckInfo::SkipForward),
            0x1c => Some(DeckInfo::SkipReverse),
            0x1d => Some(DeckInfo::IndexSearchForward),
            0x1e => Some(DeckInfo::IndexSearchReverse),
            0x1f => Some(DeckInfo::Other),
            _ => None,
        }
    }

    open spec fn label() -> Seq<char> {
        "DeckInfo"@
    }

    fn to_primitive(&self) -> (code: u8) {
        match self {
            DeckInfo::Play => 0x11,
            DeckInfo::Record => 0x12,
            DeckInfo::PlayReverse => 0x13,
            DeckInfo::Still => 0x14,
            DeckInfo::Slow => 0x15,
            DeckInfo::SlowReverse => 0x16,
            DeckInfo::FastForward => 0x17,
            DeckInfo::FastReverse => 0x18,
            DeckInfo::NoMedia => 0x19,
            DeckInfo::Stop => 0x1a,
            DeckInfo::SkipForward => 0x1b,
            DeckInfo::SkipReverse => 0x1c,
            DeckInfo::IndexSearchForward => 0x1d,
            DeckInfo::IndexSearchReverse => 0x1e,
            DeckInfo::Other => 0x1f,
        }
    }

    fn from_primitive(code: u8) -> (r: Option<Self>) {
        match code {
            0x11 => Some(DeckInfo::Play),
            0x12 => Some(DeckInfo::Record),
            0x13 => Some(DeckInfo::PlayReverse),
            0x14 => Some(DeckInfo::Still),
            0x15 => Some(DeckInfo::Slow),
            0x16 => Some(DeckInfo::SlowReverse),
            0x17 => Some(DeckInfo::FastForward),
            0x18 => Some(DeckInfo::FastReverse),
            0x19 => Some(DeckInfo::NoMedia),
            0x1a => Some(DeckInfo::Stop),
            0x1b => Some(DeckInfo::SkipForward),
            0x1c => Some(DeckInfo::SkipReverse),
            0x1d => Some(DeckInfo::IndexSearchForward),
            0x1e => Some(DeckInfo::IndexSearchReverse),
            0x1f => Some(DeckInfo::Other),
            _ => None,
        }
    }

    fn type_label() -> (r: &'static str) {
        "DeckInfo"
    }

    proof fn one_to_one() {
    }
}

/// The system of a digital broadcast.
#[derive(Debug, Copy, Clone, PartialEq, Eq, Hash, Structural)]
pub enum DigitalServiceBroadcastSystem {
    AribGeneric,
    AtscGeneric,
    DvbGeneric,
    AribBs,
    AribCs,
    AribT,
    AtscCable,
    AtscSatellite,
    AtscTerrestrial,
    DvbC,
    DvbS,
    DvbS2,
    DvbT,
}

impl Coded for DigitalServiceBroadcastSystem {
    open spec fn code(&self) -> u8 {
        match self {
            DigitalServiceBroadcastSystem::AribGeneric => 0x00,
            DigitalServiceBroadcastSystem::AtscGeneric => 0x01,
            DigitalServiceBroadcastSystem::DvbGeneric => 0x02,
            DigitalServiceBroadcastSystem::AribBs => 0x08,
            DigitalServiceBroadcastSystem::AribCs => 0x09,
            DigitalServiceBroadcastSystem::AribT => 0x0a,
            DigitalServiceBroadcastSystem::AtscCable => 0x10,
            DigitalServiceBroadcastSystem::AtscSatellite => 0x11,
            DigitalServiceBroadcastSystem::AtscTerrestrial => 0x12,
            DigitalServiceBroadcastSystem::DvbC => 0x18,
            DigitalServiceBroadcastSystem::DvbS => 0x19,
            DigitalServiceBroadcastSystem::DvbS2 => 0x1a,
            DigitalServiceBroadcastSystem::DvbT => 0x1b,
        }
    }

    open spec fn with_code(code: u8) -> Option<Self> {
        match code {
            0x00 => Some(DigitalServiceBroadcastSystem::AribGeneric),
            0x01 => Some(DigitalServiceBroadcastSystem::AtscGeneric),
            0x02 => Some(DigitalServiceBroadcastSystem::DvbGeneric),
            0x08 => Some(DigitalServiceBroadcastSystem::AribBs),
            0x09 => Some(DigitalServiceBroadcastSystem::AribCs),
            0x0a => Some(DigitalServiceBroadcastSystem::AribT),
            0x10 => Some(DigitalServiceBroadcastSystem::AtscCable),
            0x11 => Some(DigitalServiceBroadcastSystem::AtscSatellite),
            0x12 => Some(DigitalServiceBroadcastSystem::AtscTerrestrial),
            0x18 => Some(DigitalServiceBroadcastSystem::DvbC),
            0x19 => Some(DigitalServiceBroadcastSystem::DvbS),
            0x1a => Some(DigitalServiceBroadcastSystem::DvbS2),
            0x1b => Some(DigitalServiceBroadcastSystem::DvbT),
            _ => None,
        }
    }

    open spec fn label() -> Seq<char> {
        "DigitalServiceBroadcastSystem"@
    }

    fn to_primitive(&self) -> (code: u8) {
        match self {
            DigitalServiceBroadcastSystem::AribGeneric => 0x00,
            DigitalServiceBroadcastSystem::AtscGeneric => 0x01,
            DigitalServiceBroadcastSystem::DvbGeneric => 0x02,
            DigitalServiceBroadcastSystem::AribBs => 0x08,
            DigitalServiceBroadcastSystem::AribCs => 0x09,
            DigitalServiceBroadcastSystem::AribT => 0x0a,
            DigitalServiceBroadcastSystem::AtscCable => 0x10,
            DigitalServiceBroadcastSystem::AtscSatellite => 0x11,
            DigitalServiceBroadcastSystem::AtscTerrestrial => 0x12,
            DigitalServiceBroadcastSystem::DvbC => 0x18,
            DigitalServiceBroadcastSystem::DvbS => 0x19,
            DigitalServiceBroadcastSystem::DvbS2 => 0x1a,
            DigitalServiceBroadcastSystem::DvbT => 0x1b,
        }
    }

    fn from_primitive(code: u8) -> (r: Option<Self>) {
        match code {
            0x00 => Some(DigitalServiceBroadcastSystem::AribGeneric),
            0x01 => Some(DigitalServiceBroadcastSystem::AtscGeneric),
            0x02 => Some(DigitalServiceBroadcastSystem::DvbGeneric),
            0x08 => Some(DigitalServiceBroadcastSystem::AribBs),
            0x09 => Some(DigitalServiceBroadcastSystem::AribCs),
            0x0a => Some(DigitalServiceBroadcastSystem::AribT),
            0x10 => Some(DigitalServiceBroadcastSystem::AtscCable),
            0x11 => Some(DigitalServiceBroadcastSystem::AtscSatellite),
            0x12 => Some(DigitalServiceBroadcastSystem::AtscTerrestrial),
            0x18 => Some(DigitalServiceBroadcastSystem::DvbC),
            0x19 => Some(DigitalServiceBroadcastSystem::DvbS),
            0x1a => Some(DigitalServiceBroadcastSystem::DvbS2),
            0x1b => Some(DigitalServiceBroadcastSystem::DvbT),
            _ => None,
        }
    }

    fn type_label() -> (r: &'static str) {
        "DigitalServiceBroadcastSystem"
    }

    proof fn one_to_one() {
    }
}

/// How long a string stays on the screen.
#[derive(Debug, Copy, Clone, PartialEq, Eq, Hash, Structural)]
pub enum DisplayControl {
    Default,
    UntilCleared,
    Clear,
}

impl Coded for DisplayControl {
    open spec fn code(&self) -> u8 {
        match self {
            DisplayControl::Default => 0x00,
            DisplayControl::UntilCleared => 0x40,
            DisplayControl::Clear => 0x80,
        }
    }

    open spec fn with_code(code: u8) -> Option<Self> {
        match code {
            0x00 => Some(DisplayControl::Default),
            0x40 => Some(DisplayControl::UntilCleared),
            0x80 => Some(DisplayControl::Clear),
            _ => None,
        }
    }

    open spec fn label() -> Seq<char> {
        "DisplayControl"@
    }

    fn to_primitive(&self) -> (code: u8) {
        match self {
            DisplayControl::Default => 0x00,
            DisplayControl::UntilCleared => 0x40,
            DisplayControl::Clear => 0x80,
        }
    }

    fn from_primitive(code: u8) -> (r: Option<Self>) {
        match code {
            0x00 => Some(DisplayControl::Default),
            0x40 => Some(DisplayControl::UntilCleared),
            0x80 => Some(DisplayControl::Clear),
            _ => None,
        }
    }

    fn type_label() -> (r: &'static str) {
        "DisplayControl"
    }

    proof fn one_to_one() {
    }
}

/// What is asked of a menu.
#[derive(Debug, Copy, Clone, PartialEq, Eq, Hash, Structural)]
pub enum MenuRequestType {
    Activate,
    Deactivate,
    Query,
}

impl Coded for MenuRequestType {
    open spec fn code(&self) -> u8 {
        match self {
            MenuRequestType::Activate => 0x00,
            MenuRequestType::Deactivate => 0x01,
            MenuRequestType::Query => 0x02,
        }
    }

    open spec fn with_code(code: u8) -> Option<Self> {
        match code {
            0x00 => Some(MenuRequestType::Activate),
            0x01 => Some(MenuRequestType::Deactivate),
            0x02 => Some(MenuRequestType::Query),
            _ => None,
        }
    }

    open spec fn label() -> Seq<char> {
        "MenuRequestType"@
    }

    fn to_primitive(&self) -> (code: u8) {
        match self {
            MenuRequestType::Activate => 0x00,
            MenuRequestType::Deactivate => 0x01,
            MenuRequestType::Query => 0x02,
        }
    }

    fn from_primitive(code: u8) -> (r: Option<Self>) {
        match code {
            0x00 => Some(MenuRequestType::Activate),
            0x01 => Some(MenuRequestType::Deactivate),
            0x02 => Some(MenuRequestType::Query),
            _ => None,
        }
    }

    fn type_label() -> (r: &'static str) {
        "MenuRequestType"
    }

    proof fn one_to_one() {
    }
}

/// Whether a menu is shown.
#[derive(Debug, Copy, Clone, PartialEq, Eq, Hash, Structural)]
pub enum MenuState {
    Activated,
    Deactivated,
}

impl Coded for MenuState {
    open spec fn code(&self) -> u8 {
        match self {
            MenuState::Activated => 0x00,
            MenuState::Deactivated => 0x01,
        }
    }

    open spec fn with_code(code: u8) -> Option<Self> {
        match code {
            0x00 => Some(MenuState::Activated),
            0x01 => Some(MenuState::Deactivated),
            _ => None,
        }
    }

    open spec fn label() -> Seq<char> {
        "MenuState"@
    }

    fn to_primitive(&self) -> (code: u8) {
        match self {
            MenuState::Activated => 0x00,
            MenuState::Deactivated => 0x01,
        }
    }

    fn from_primitive(code: u8) -> (r: Option<Self>) {
        match code {
            0x00 => Some(MenuState::Activated),
            0x01 => Some(MenuState::Deactivated),
            _ => None,
        }
    }

    fn type_label() -> (r: &'static str) {
        "MenuState"
    }

    proof fn one_to_one() {
    }
}

/// How a deck plays.
#[derive(Debug, Copy, Clone, PartialEq, Eq, Hash, Structural)]
pub enum PlayMode {
    FastForwardMin,
    FastForwardMedium,
    FastForwardMax,
    FastReverseMin,
    FastReverseMedium,
    FastReverseMax,
    SlowForwardMin,
    SlowForwardMedium,
    SlowForwardMax,
    SlowReverseMin,
    SlowReverseMedium,
    SlowReverseMax,
    Reverse,
    Forward,
    Still,
}

impl Coded for PlayMode {
    open spec fn code(&self) -> u8 {
        match self {
            PlayMode::FastForwardMin => 0x05,
            PlayMode::FastForwardMedium => 0x06,
            PlayMode::FastForwardMax => 0x07,
            PlayMode::FastReverseMin => 0x09,
            PlayMode::FastReverseMedium => 0x0a,
            PlayMode::FastReverseMax => 0x0b,
            PlayMode::SlowForwardMin => 0x15,
            PlayMode::SlowForwardMedium => 0x16,
            PlayMode::SlowForwardMax => 0x17,
            PlayMode::SlowReverseMin => 0x19,
            PlayMode::SlowReverseMedium => 0x1a,
            PlayMode::SlowReverseMax => 0x1b,
            PlayMode::Reverse => 0x20,
            PlayMode::Forward => 0x24,
            PlayMode::Still => 0x25,
        }
    }

    open spec fn with_code(code: u8) -> Option<Self> {
        match code {
            0x05 => Some(PlayMode::FastForwardMin),
            0x06 => Some(PlayMode::FastForwardMedium),
            0x07 => Some(PlayMode::FastForwardMax),
            0x09 => Some(PlayMode::FastReverseMin),
            0x0a => Some(PlayMode::FastReverseMedium),
            0x0b => Some(PlayMode::FastReverseMax),
            0x15 => Some(PlayMode::SlowForwardMin),
            0x16 => Some(PlayMode::SlowForwardMedium),
            0x17 => Some(PlayMode::SlowForwardMax),
            0x19 => Some(PlayMode::SlowReverseMin),
            0x1a => Some(PlayMode::SlowReverseMedium),
            0x1b => Some(PlayMode::SlowReverseMax),
            0x20 => Some(PlayMode::Reverse),
            0x24 => Some(PlayMode::Forward),
            0x25 => Some(PlayMode::Still),
            _ => None,
        }
    }

    open spec fn label() -> Seq<char> {
        "PlayMode"@
    }

    fn to_primitive(&self) -> (code: u8) {
        match self {
            PlayMode::FastForwardMin => 0x05,
            PlayMode::FastForwardMedium => 0x06,
            PlayMode::FastForwardMax => 0x07,
            PlayMode::FastReverseMin => 0x09,
            PlayMode::FastReverseMedium => 0x0a,
            PlayMode::FastReverseMax => 0x0b,
            PlayMode::SlowForwardMin => 0x15,
            PlayMode::SlowForwardMedium => 0x16,
            PlayMode::SlowForwardMax => 0x17,
            PlayMode::SlowReverseMin => 0x19,
            PlayMode::SlowReverseMedium => 0x1a,
            PlayMode::SlowReverseMax => 0x1b,
            PlayMode::Reverse => 0x20,
            PlayMode::Forward => 0x24,
            PlayMode::Still => 0x25,
        }
    }

    fn from_primitive(code: u8) -> (r: Option<Self>) {
        match code {
            0x05 => Some(PlayMode::FastForwardMin),
            0x06 => Some(PlayMode::FastForwardMedium),
            0x07 => Some(PlayMode::FastForwardMax),
            0x09 => Some(PlayMode::FastReverseMin),
            0x0a => Some(PlayMode::FastReverseMedium),
            0x0b => Some(PlayMode::FastReverseMax),
            0x15 => Some(PlayMode::SlowForwardMin),
            0x16 => Some(PlayMode::SlowForwardMedium),
            0x17 => Some(PlayMode::SlowForwardMax),
            0x19 => Some(PlayMode::SlowReverseMin),
            0x1a => Some(PlayMode::SlowReverseMedium),
            0x1b => Some(PlayMode::SlowReverseMax),
            0x20 => Some(PlayMode::Reverse),
            0x24 => Some(PlayMode::Forward),
            0x25 => Some(PlayMode::Still),
            _ => None,
        }
    }

    fn type_label() -> (r: &'static str) {
        "PlayMode"
    }

    proof fn one_to_one() {
    }
}

/// Whether a device is on.
#[derive(Debug, Copy, Clone, PartialEq, Eq, Hash, Structural)]
pub enum PowerStatus {
    On,
    Standby,
    ToOn,
    ToStandby,
}

impl Coded for PowerStatus {
    open spec fn code(&self) -> u8 {
        match self {
            PowerStatus::On => 0x00,
            PowerStatus::Standby => 0x01,
            PowerStatus::ToOn => 0x02,
            PowerStatus::ToStandby => 0x03,
        }
    }

    open spec fn with_code(code: u8) -> Option<Self> {
        match code {
            0x00 => Some(PowerStatus::On),
            0x01 => Some(PowerStatus::Standby),
            0x02 => Some(PowerStatus::ToOn),
            0x03 => Some(PowerStatus::ToStandby),
            _ => None,
        }
    }

    open spec fn label() -> Seq<char> {
        "PowerStatus"@
    }

    fn to_primitive(&self) -> (code: u8) {
        match self {
            PowerStatus::On => 0x00,
            PowerStatus::Standby => 0x01,
            PowerStatus::ToOn => 0x02,
            PowerStatus::ToStandby => 0x03,
        }
    }

    fn from_primitive(code: u8) -> (r: Option<Self>) {
        match code {
            0x00 => Some(PowerStatus::On),
            0x01 => Some(PowerStatus::Standby),
            0x02 => Some(PowerStatus::ToOn),
            0x03 => Some(PowerStatus::ToStandby),
            _ => None,
        }
    }

    fn type_label() -> (r: &'static str) {
        "PowerStatus"
    }

    proof fn one_to_one() {
    }
}

/// What a device mainly is.
#[derive(Debug, Copy, Clone, PartialEq, Eq, Hash, Structural)]
pub enum PrimaryDeviceType {
    Tv,
    Recording,
    Tuner,
    Playback,
    Audio,
    Switch,
    Processor,
}

impl Coded for PrimaryDeviceType {
    open spec fn code(&self) -> u8 {
        match self {
            PrimaryDeviceType::Tv => 0x00,
            PrimaryDeviceType::Recording => 0x01,
            PrimaryDeviceType::Tuner => 0x03,
            PrimaryDeviceType::Playback => 0x04,
            PrimaryDeviceType::Audio => 0x05,
            PrimaryDeviceType::Switch => 0x06,
            PrimaryDeviceType::Processor => 0x07,
        }
    }

    open spec fn with_code(code: u8) -> Option<Self> {
        match code {
            0x00 => Some(PrimaryDeviceType::Tv),
            0x01 => Some(PrimaryDeviceType::Recording),
            0x03 => Some(PrimaryDeviceType::Tuner),
            0x04 => Some(PrimaryDeviceType::Playback),
            0x05 => Some(PrimaryDeviceType::Audio),
            0x06 => Some(PrimaryDeviceType::Switch),
            0x07 => Some(PrimaryDeviceType::Processor),
            _ => None,
        }
    }

    open spec fn label() -> Seq<char> {
        "PrimaryDeviceType"@
    }

    fn to_primitive(&self) -> (code: u8) {
        match self {
            PrimaryDeviceType::Tv => 0x00,
            PrimaryDeviceType::Recording => 0x01,
            PrimaryDeviceType::Tuner => 0x03,
            PrimaryDeviceType::Playback => 0x04,
            PrimaryDeviceType::Audio => 0x05,
            PrimaryDeviceType::Switch => 0x06,
            PrimaryDeviceType::Processor => 0x07,
        }
    }

    fn from_primitive(code: u8) -> (r: Option<Self>) {
        match code {
            0x00 => Some(PrimaryDeviceType::Tv),
            0x01 => Some(PrimaryDeviceType::Recording),
            0x03 => Some(PrimaryDeviceType::Tuner),
            0x04 => Some(PrimaryDeviceType::Playback),
            0x05 => Some(PrimaryDeviceType::Audio),
            0x06 => Some(PrimaryDeviceType::Switch),
            0x07 => Some(PrimaryDeviceType::Processor),
            _ => None,
        }
    }

    fn type_label() -> (r: &'static str) {
        "PrimaryDeviceType"
    }

    proof fn one_to_one() {
    }
}

/// The kind of a source to record.
#[derive(Debug, Copy, Clone, PartialEq, Eq, Hash, Structural)]
pub enum RecordSourceType {
    Own,
    Digital,
    Analogue,
    ExternalPlug,
    ExternalPhysicalAddress,
}

impl Coded for RecordSourceType {
    open spec fn code(&self) -> u8 {
        match self {
            RecordSourceType::Own => 0x01,
            RecordSourceType::Digital => 0x02,
            RecordSourceType::Analogue => 0x03,
            RecordSourceType::ExternalPlug => 0x04,
            RecordSourceType::ExternalPhysicalAddress => 0x05,
        }
    }

    open spec fn with_code(code: u8) -> Option<Self> {
        match code {
            0x01 => Some(RecordSourceType::Own),
            0x02 => Some(RecordSourceType::Digital),
            0x03 => Some(RecordSourceType::Analogue),
            0x04 => Some(RecordSourceType::ExternalPlug),
            0x05 => Some(RecordSourceType::ExternalPhysicalAddress),
            _ => None,
        }
    }

    open spec fn label() -> Seq<char> {
        "RecordSourceType"@
    }

    fn to_primitive(&self) -> (code: u8) {
        match self {
            RecordSourceType::Own => 0x01,
            RecordSourceType::Digital => 0x02,
            RecordSourceType::Analogue => 0x03,
            RecordSourceType::ExternalPlug => 0x04,
            RecordSourceType::ExternalPhysicalAddress => 0x05,
        }
    }

    fn from_primitive(code: u8) -> (r: Option<Self>) {
        match code {
            0x01 => Some(RecordSourceType::Own),
            0x02 => Some(RecordSourceType::Digital),
            0x03 => Some(RecordSourceType::Analogue),
            0x04 => Some(RecordSourceType::ExternalPlug),
            0x05 => Some(RecordSourceType::ExternalPhysicalAddress),
            _ => None,
        }
    }

    fn type_label() -> (r: &'static str) {
        "RecordSourceType"
    }

    proof fn one_to_one() {
    }
}

/// How a recording goes.
#[derive(Debug, Copy, Clone, PartialEq, Eq, Hash, Structural)]
pub enum RecordStatusInfo {
    CurrentSource,
    DigitalService,
    AnalogueService,
    ExternalInput,
    NoDigitalService,
    NoAnalogueService,
    NoService,
    InvalidExternalPlug,
    InvalidExternalAddress,
    UnsupportedCa,
    InsufficientCaEntitlements,
    DisallowedCopySource,
    NoFurtherCopies,
    NoMedia,
    Playing,
    AlreadyRecording,
    MediaProtected,
    NoSignal,
    MediaProblem,
    NoSpace,
    ParentalLock,
    TerminatedOk,
    AlreadyTerminated,
    Other,
}

impl Coded for RecordStatusInfo {
    open spec fn code(&self) -> u8 {
        match self {
            RecordStatusInfo::CurrentSource => 0x01,
            RecordStatusInfo::DigitalService => 0x02,
            RecordStatusInfo::AnalogueService => 0x03,
            RecordStatusInfo::ExternalInput => 0x04,
            RecordStatusInfo::NoDigitalService => 0x05,
            RecordStatusInfo::NoAnalogueService => 0x06,
            RecordStatusInfo::NoService => 0x07,
            RecordStatusInfo::InvalidExternalPlug => 0x09,
            RecordStatusInfo::InvalidExternalAddress => 0x0a,
            RecordStatusInfo::UnsupportedCa => 0x0b,
            RecordStatusInfo::InsufficientCaEntitlements => 0x0c,
            RecordStatusInfo::DisallowedCopySource => 0x0d,
            RecordStatusInfo::NoFurtherCopies => 0x0e,
            RecordStatusInfo::NoMedia => 0x10,
            RecordStatusInfo::Playing => 0x11,
            RecordStatusInfo::AlreadyRecording => 0x12,
            RecordStatusInfo::MediaProtected => 0x13,
            RecordStatusInfo::NoSignal => 0x14,
            RecordStatusInfo::MediaProblem => 0x15,
            RecordStatusInfo::NoSpace => 0x16,
            RecordStatusInfo::ParentalLock => 0x17,
            RecordStatusInfo::TerminatedOk => 0x1a,
            RecordStatusInfo::AlreadyTerminated => 0x1b,
            RecordStatusInfo::Other => 0x1f,
        }
    }

    open spec fn with_code(code: u8) -> Option<Self> {
        match code {
            0x01 => Some(RecordStatusInfo::CurrentSource),
            0x02 => Some(RecordStatusInfo::DigitalService),
            0x03 => Some(RecordStatusInfo::AnalogueService),
            0x04 => Some(RecordStatusInfo::ExternalInput),
            0x05 => Some(RecordStatusInfo::NoDigitalService),
            0x06 => Some(RecordStatusInfo::NoAnalogueService),
            0x07 => Some(RecordStatusInfo::NoService),
            0x09 => Some(RecordStatusInfo::InvalidExternalPlug),
            0x0a => Some(RecordStatusInfo::InvalidExternalAddress),
            0x0b => Some(RecordStatusInfo::UnsupportedCa),
            0x0c => Some(RecordStatusInfo::InsufficientCaEntitlements),
            0x0d => Some(RecordStatusInfo::DisallowedCopySource),
            0x0e => Some(RecordStatusInfo::NoFurtherCopies),
            0x10 => Some(RecordStatusInfo::NoMedia),
            0x11 => Some(RecordStatusInfo::Playing),
            0x12 => Some(RecordStatusInfo::AlreadyRecording),
            0x13 => Some(RecordStatusInfo::MediaProtected),
            0x14 => Some(RecordStatusInfo::NoSignal),
            0x15 => Some(RecordStatusInfo::MediaProblem),
            0x16 => Some(RecordStatusInfo::NoSpace),
            0x17 => Some(RecordStatusInfo::ParentalLock),
            0x1a => Some(RecordStatusInfo::TerminatedOk),
            0x1b => Some(RecordStatusInfo::AlreadyTerminated),
            0x1f => Some(RecordStatusInfo::Other),
            _ => None,
        }
    }

    open spec fn label() -> Seq<char> {
        "RecordStatusInfo"@
    }

    fn to_primitive(&self) -> (code: u8) {
        match self {
            RecordStatusInfo::CurrentSource => 0x01,
            RecordStatusInfo::DigitalService => 0x02,
            RecordStatusInfo::AnalogueService => 0x03,
            RecordStatusInfo::ExternalInput => 0x04,
            RecordStatusInfo::NoDigitalService => 0x05,
            RecordStatusInfo::NoAnalogueService => 0x06,
            RecordStatusInfo::NoService => 0x07,
            RecordStatusInfo::InvalidExternalPlug => 0x09,
            RecordStatusInfo::InvalidExternalAddress => 0x0a,
            RecordStatusInfo::UnsupportedCa => 0x0b,
            RecordStatusInfo::InsufficientCaEntitlements => 0x0c,
            RecordStatusInfo::DisallowedCopySource => 0x0d,
            RecordStatusInfo::NoFurtherCopies => 0x0e,
            RecordStatusInfo::NoMedia => 0x10,
            RecordStatusInfo::Playing => 0x11,
            RecordStatusInfo::AlreadyRecording => 0x12,
            RecordStatusInfo::MediaProtected => 0x13,
            RecordStatusInfo::NoSignal => 0x14,
            RecordStatusInfo::MediaProblem => 0x15,
            RecordStatusInfo::NoSpace => 0x16,
            RecordStatusInfo::ParentalLock => 0x17,
            RecordStatusInfo::TerminatedOk => 0x1a,
            RecordStatusInfo::AlreadyTerminated => 0x1b,
            RecordStatusInfo::Other => 0x1f,
        }
    }

    fn from_primitive(code: u8) -> (r: Option<Self>) {
        match code {
            0x01 => Some(RecordStatusInfo::CurrentSource),
            0x02 => Some(RecordStatusInfo::DigitalService),
            0x03 => Some(RecordStatusInfo::AnalogueService),
            0x04 => Some(RecordStatusInfo::ExternalInput),
            0x05 => Some(RecordStatusInfo::NoDigitalService),
            0x06 => Some(RecordStatusInfo::NoAnalogueService),
            0x07 => Some(RecordStatusInfo::NoService),
            0x09 => Some(RecordStatusInfo::InvalidExternalPlug),
            0x0a => Some(RecordStatusInfo::InvalidExternalAddress),
            0x0b => Some(RecordStatusInfo::UnsupportedCa),
            0x0c => Some(RecordStatusInfo::InsufficientCaEntitlements),
            0x0d => Some(RecordStatusInfo::DisallowedCopySource),
            0x0e => Some(RecordStatusInfo::NoFurtherCopies),
            0x10 => Some(RecordStatusInfo::NoMedia),
            0x11 => Some(RecordStatusInfo::Playing),
            0x12 => Some(RecordStatusInfo::AlreadyRecording),
            0x13 => Some(RecordStatusInfo::MediaProtected),
            0x14 => Some(RecordStatusInfo::NoSignal),
            0x15 => Some(RecordStatusInfo::MediaProblem),
            0x16 => Some(RecordStatusInfo::NoSpace),
            0x17 => Some(RecordStatusInfo::ParentalLock),
            0x1a => Some(RecordStatusInfo::TerminatedOk),
            0x1b => Some(RecordStatusInfo::AlreadyTerminated),
            0x1f => Some(RecordStatusInfo::Other),
            _ => None,
        }
    }

    fn type_label() -> (r: &'static str) {
        "RecordStatusInfo"
    }

    proof fn one_to_one() {
    }
}

/// How often a status is wanted.
#[derive(Debug, Copy, Clone, PartialEq, Eq, Hash, Structural)]
pub enum StatusRequest {
    On,
    Off,
    Once,
}

impl Coded for StatusRequest {
    open spec fn code(&self) -> u8 {
        match self {
            StatusRequest::On => 0x01,
            StatusRequest::Off => 0x02,
            StatusRequest::Once => 0x03,
        }
    }

    open spec fn with_code(code: u8) -> Option<Self> {
        match code {
            0x01 => Some(StatusRequest::On),
            0x02 => Some(StatusRequest::Off),
            0x03 => Some(StatusRequest::Once),
            _ => None,
        }
    }

    open spec fn label() -> Seq<char> {
        "StatusRequest"@
    }

    fn to_primitive(&self) -> (code: u8) {
        match self {
            StatusRequest::On => 0x01,
            StatusRequest::Off => 0x02,
            StatusRequest::Once => 0x03,
        }
    }

    fn from_primitive(code: u8) -> (r: Option<Self>) {
        match code {
            0x01 => Some(StatusRequest::On),
            0x02 => Some(StatusRequest::Off),
            0x03 => Some(StatusRequest::Once),
            _ => None,
        }
    }

    fn type_label() -> (r: &'static str) {
        "StatusRequest"
    }

    proof fn one_to_one() {
    }
}

/// What became of a timer.
#[derive(Debug, Copy, Clone, PartialEq, Eq, Hash, Structural)]
pub enum TimerClearedStatusData {
    Recording,
    NoMatching,
    NoInfo,
    Cleared,
}

impl Coded for TimerClearedStatusData {
    open spec fn code(&self) -> u8 {
        match self {
            TimerClearedStatusData::Recording => 0x00,
            TimerClearedStatusData::NoMatching => 0x01,
            TimerClearedStatusData::NoInfo => 0x02,
            TimerClearedStatusData::Cleared => 0x80,
        }
    }

    open spec fn with_code(code: u8) -> Option<Self> {
        match code {
            0x00 => Some(TimerClearedStatusData::Recording),
            0x01 => Some(TimerClearedStatusData::NoMatching),
            0x02 => Some(TimerClearedStatusData::NoInfo),
            0x80 => Some(TimerClearedStatusData::Cleared),
            _ => None,
        }
    }

    open spec fn label() -> Seq<char> {
        "TimerClearedStatusData"@
    }

    fn to_primitive(&self) -> (code: u8) {
        match self {
            TimerClearedStatusData::Recording => 0x00,
            TimerClearedStatusData::NoMatching => 0x01,
            TimerClearedStatusData::NoInfo => 0x02,
            TimerClearedStatusData::Cleared => 0x80,
        }
    }

    fn from_primitive(code: u8) -> (r: Option<Self>) {
        match code {
            0x00 => Some(TimerClearedStatusData::Recording),
            0x01 => Some(TimerClearedStatusData::NoMatching),
            0x02 => Some(TimerClearedStatusData::NoInfo),
            0x80 => Some(TimerClearedStatusData::Cleared),
            _ => None,
        }
    }

    fn type_label() -> (r: &'static str) {
        "TimerClearedStatusData"
    }

    proof fn one_to_one() {
    }
}

/// The kind of broadcast to select.
#[derive(Debug, Copy, Clone, PartialEq, Eq, Hash, Structural)]
pub enum UiBroadcastType {
    ToggleAll,
    ToggleDigitalAnalogue,
    Analogue,
    AnalogueTerrestrial,
    AnalogueCable,
    AnalogueSatellite,
    Digital,
    DigitalTerrestrial,
    DigitalCable,
    DigitalSatellite,
    DigitalCommunicationsSatellite,
    DigitalCommunicationsSatellite2,
    Ip,
}

impl Coded for UiBroadcastType {
    open spec fn code(&self) -> u8 {
        match self {
            UiBroadcastType::ToggleAll => 0x00,
            UiBroadcastType::ToggleDigitalAnalogue => 0x01,
            UiBroadcastType::Analogue => 0x10,
            UiBroadcastType::AnalogueTerrestrial => 0x20,
            UiBroadcastType::AnalogueCable => 0x30,
            UiBroadcastType::AnalogueSatellite => 0x40,
            UiBroadcastType::Digital => 0x50,
            UiBroadcastType::DigitalTerrestrial => 0x60,
            UiBroadcastType::DigitalCable => 0x70,
            UiBroadcastType::DigitalSatellite => 0x80,
            UiBroadcastType::DigitalCommunicationsSatellite => 0x90,
            UiBroadcastType::DigitalCommunicationsSatellite2 => 0x91,
            UiBroadcastType::Ip => 0xa0,
        }
    }

    open spec fn with_code(code: u8) -> Option<Self> {
        match code {
            0x00 => Some(UiBroadcastType::ToggleAll),
            0x01 => Some(UiBroadcastType::ToggleDigitalAnalogue),
            0x10 => Some(UiBroadcastType::Analogue),
            0x20 => Some(UiBroadcastType::AnalogueTerrestrial),
            0x30 => Some(UiBroadcastType::AnalogueCable),
            0x40 => Some(UiBroadcastType::AnalogueSatellite),
            0x50 => Some(UiBroadcastType::Digital),
            0x60 => Some(UiBroadcastType::DigitalTerrestrial),
            0x70 => Some(UiBroadcastType::DigitalCable),
            0x80 => Some(UiBroadcastType::DigitalSatellite),
            0x90 => Some(UiBroadcastType::DigitalCommunicationsSatellite),
            0x91 => Some(UiBroadcastType::DigitalCommunicationsSatellite2),
            0xa0 => Some(UiBroadcastType::Ip),
            _ => None,
        }
    }

    open spec fn label() -> Seq<char> {
        "UiBroadcastType"@
    }

    fn to_primitive(&self) -> (code: u8) {
        match self {
            UiBroadcastType::ToggleAll => 0x00,
            UiBroadcastType::ToggleDigitalAnalogue => 0x01,
            UiBroadcastType::Analogue => 0x10,
            UiBroadcastType::AnalogueTerrestrial => 0x20,
            UiBroadcastType::AnalogueCable => 0x30,
            UiBroadcastType::AnalogueSatellite => 0x40,
            UiBroadcastType::Digital => 0x50,
            UiBroadcastType::DigitalTerrestrial => 0x60,
            UiBroadcastType::DigitalCable => 0x70,
            UiBroadcastType::DigitalSatellite => 0x80,
            UiBroadcastType::DigitalCommunicationsSatellite => 0x90,
            UiBroadcastType::DigitalCommunicationsSatellite2 => 0x91,
            UiBroadcastType::Ip => 0xa0,
        }
    }

    fn from_primitive(code: u8) -> (r: Option<Self>) {
        match code {
            0x00 => Some(UiBroadcastType::ToggleAll),
            0x01 => Some(UiBroadcastType::ToggleDigitalAnalogue),
            0x10 => Some(UiBroadcastType::Analogue),
            0x20 => Some(UiBroadcastType::AnalogueTerrestrial),
            0x30 => Some(UiBroadcastType::AnalogueCable),
            0x40 => Some(UiBroadcastType::AnalogueSatellite),
            0x50 => Some(UiBroadcastType::Digital),
            0x60 => Some(UiBroadcastType::DigitalTerrestrial),
            0x70 => Some(UiBroadcastType::DigitalCable),
            0x80 => Some(UiBroadcastType::DigitalSatellite),
            0x90 => Some(UiBroadcastType::DigitalCommunicationsSatellite),
            0x91 => Some(UiBroadcastType::DigitalCommunicationsSatellite2),
            0xa0 => Some(UiBroadcastType::Ip),
            _ => None,
        }
    }

    fn type_label() -> (r: &'static str) {
        "UiBroadcastType"
    }

    proof fn one_to_one() {
    }
}

/// How sound is presented.
#[derive(Debug, Copy, Clone, PartialEq, Eq, Hash, Structural)]
pub enum UiSoundPresentationControl {
    DualMono,
    Karaoke,
    Downmix,
    Reverb,
    Equalizer,
    BassUp,
    BassNeutral,
    BassDown,
    TrebleUp,
    TrebleNeutral,
    TrebleDown,
}

impl Coded for UiSoundPresentationControl {
    open spec fn code(&self) -> u8 {
        match self {
            UiSoundPresentationControl::DualMono => 0x20,
            UiSoundPresentationControl::Karaoke => 0x30,
            UiSoundPresentationControl::Downmix => 0x80,
            UiSoundPresentationControl::Reverb => 0x90,
            UiSoundPresentationControl::Equalizer => 0xa0,
            UiSoundPresentationControl::BassUp => 0xb1,
            UiSoundPresentationControl::BassNeutral => 0xb2,
            UiSoundPresentationControl::BassDown => 0xb3,
            UiSoundPresentationControl::TrebleUp => 0xc1,
            UiSoundPresentationControl::TrebleNeutral => 0xc2,
            UiSoundPresentationControl::TrebleDown => 0xc3,
        }
    }

    open spec fn with_code(code: u8) -> Option<Self> {
        match code {
            0x20 => Some(UiSoundPresentationControl::DualMono),
            0x30 => Some(UiSoundPresentationControl::Karaoke),
            0x80 => Some(UiSoundPresentationControl::Downmix),
            0x90 => Some(UiSoundPresentationControl::Reverb),
            0xa0 => Some(UiSoundPresentationControl::Equalizer),
            0xb1 => Some(UiSoundPresentationControl::BassUp),
            0xb2 => Some(UiSoundPresentationControl::BassNeutral),
            0xb3 => Some(UiSoundPresentationControl::BassDown),
            0xc1 => Some(UiSoundPresentationControl::TrebleUp),
            0xc2 => Some(UiSoundPresentationControl::TrebleNeutral),
            0xc3 => Some(UiSoundPresentationControl::TrebleDown),
            _ => None,
        }
    }

    open spec fn label() -> Seq<char> {
        "UiSoundPresentationControl"@
    }

    fn to_primitive(&self) -> (code: u8) {
        match self {
            UiSoundPresentationControl::DualMono => 0x20,
            UiSoundPresentationControl::Karaoke => 0x30,
            UiSoundPresentationControl::Downmix => 0x80,
            UiSoundPresentationControl::Reverb => 0x90,
            UiSoundPresentationControl::Equalizer => 0xa0,
            UiSoundPresentationControl::BassUp => 0xb1,
            UiSoundPresentationControl::BassNeutral => 0xb2,
            UiSoundPresentationControl::BassDown => 0xb3,
            UiSoundPresentationControl::TrebleUp => 0xc1,
            UiSoundPresentationControl::TrebleNeutral => 0xc2,
            UiSoundPresentationControl::TrebleDown => 0xc3,
        }
    }

    fn from_primitive(code: u8) -> (r: Option<Self>) {
        match code {
            0x20 => Some(UiSoundPresentationControl::DualMono),
            0x30 => Some(UiSoundPresentationControl::Karaoke),
            0x80 => Some(UiSoundPresentationControl::Downmix),
            0x90 => Some(UiSoundPresentationControl::Reverb),
            0xa0 => Some(UiSoundPresentationControl::Equalizer),
            0xb1 => Some(UiSoundPresentationControl::BassUp),
            0xb2 => Some(UiSoundPresentationControl::BassNeutral),
            0xb3 => Some(UiSoundPresentationControl::BassDown),
            0xc1 => Some(UiSoundPresentationControl::TrebleUp),
            0xc2 => Some(UiSoundPresentationControl::TrebleNeutral),
            0xc3 => Some(UiSoundPresentationControl::TrebleDown),
            _ => None,
        }
    }

    fn type_label() -> (r: &'static str) {
        "UiSoundPresentationControl"
    }

    proof fn one_to_one() {
    }
}

/// A version of the CEC standard.
#[derive(Debug, Copy, Clone, PartialEq, Eq, Hash, Structural)]
pub enum Version {
    V1_3A,
    V1_4,
    V2_0,
}

impl Coded for Version {
    open spec fn code(&self) -> u8 {
        match self {
            Version::V1_3A => 0x04,
            Version::V1_4 => 0x05,
            Version::V2_0 => 0x06,
        }
    }

    open spec fn with_code(code: u8) -> Option<Self> {
        match code {
            0x04 => Some(Version::V1_3A),
            0x05 => Some(Version::V1_4),
            0x06 => Some(Version::V2_0),
            _ => None,
        }
    }

    open spec fn label() -> Seq<char> {
        "Version"@
    }

    fn to_primitive(&self) -> (code: u8) {
        match self {
            Version::V1_3A => 0x04,
            Version::V1_4 => 0x05,
            Version::V2_0 => 0x06,
        }
    }

    fn from_primitive(code: u8) -> (r: Option<Self>) {
        match code {
            0x04 => Some(Version::V1_3A),
            0x05 => Some(Version::V1_4),
            0x06 => Some(Version::V2_0),
            _ => None,
        }
    }

    fn type_label() -> (r: &'static str) {
        "Version"
    }

    proof fn one_to_one() {
    }
}

} // verus!
