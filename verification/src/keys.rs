//! Keys of input devices, and those that buttons of a remote control stand for by default.

use vstd::prelude::*;

use crate::operand::UiCommand;

verus! {

/// How many numbers there are for keys.
pub const KEY_CNT: u16 = 0x300;

pub const KEY_ENTER: u16 = 28;

pub const KEY_UP: u16 = 103;

pub const KEY_DOWN: u16 = 108;

pub const KEY_LEFT: u16 = 105;

pub const KEY_RIGHT: u16 = 106;

pub const KEY_RIGHT_UP: u16 = 614;

pub const KEY_RIGHT_DOWN: u16 = 615;

pub const KEY_LEFT_UP: u16 = 616;

pub const KEY_LEFT_DOWN: u16 = 617;

pub const KEY_ROOT_MENU: u16 = 618;

pub const KEY_SETUP: u16 = 141;

pub const KEY_MENU: u16 = 139;

pub const KEY_FAVORITES: u16 = 364;

pub const KEY_ESC: u16 = 1;

pub const KEY_MEDIA_TOP_MENU: u16 = 619;

pub const KEY_CONTEXT_MENU: u16 = 438;

pub const KEY_DIGITS: u16 = 413;

pub const KEY_NUMERIC_11: u16 = 620;

pub const KEY_NUMERIC_12: u16 = 621;

pub const KEY_NUMERIC_0: u16 = 512;

pub const KEY_NUMERIC_1: u16 = 513;

pub const KEY_NUMERIC_2: u16 = 514;

pub const KEY_NUMERIC_3: u16 = 515;

pub const KEY_NUMERIC_4: u16 = 516;

pub const KEY_NUMERIC_5: u16 = 517;

pub const KEY_NUMERIC_6: u16 = 518;

pub const KEY_NUMERIC_7: u16 = 519;

pub const KEY_NUMERIC_8: u16 = 520;

pub const KEY_NUMERIC_9: u16 = 521;

pub const KEY_DOT: u16 = 52;

pub const KEY_CLEAR: u16 = 355;

pub const KEY_NEXT_FAVORITE: u16 = 624;

pub const KEY_CHANNELUP: u16 = 402;

pub const KEY_CHANNELDOWN: u16 = 403;

pub const KEY_PREVIOUS: u16 = 412;

pub const KEY_SOUND: u16 = 213;

pub const KEY_INFO: u16 = 358;

pub const KEY_HELP: u16 = 138;

pub const KEY_PAGEUP: u16 = 104;

pub const KEY_PAGEDOWN: u16 = 109;

pub const KEY_POWER: u16 = 116;

pub const KEY_VOLUMEUP: u16 = 115;

pub const KEY_VOLUMEDOWN: u16 = 114;

pub const KEY_MUTE: u16 = 113;

pub const KEY_PLAYCD: u16 = 200;

pub const KEY_STOPCD: u16 = 166;

pub const KEY_PAUSECD: u16 = 201;

pub const KEY_RECORD: u16 = 167;

pub const KEY_REWIND: u16 = 168;

pub const KEY_FASTFORWARD: u16 = 208;

pub const KEY_EJECTCD: u16 = 161;

pub const KEY_NEXTSONG: u16 = 163;

pub const KEY_PREVIOUSSONG: u16 = 165;

pub const KEY_STOP_RECORD: u16 = 625;

pub const KEY_PAUSE_RECORD: u16 = 626;

pub const KEY_ANGLE: u16 = 371;

pub const KEY_VOD: u16 = 627;

pub const KEY_EPG: u16 = 365;

pub const KEY_TIME: u16 = 359;

pub const KEY_CONFIG: u16 = 171;

pub const KEY_AUDIO_DESC: u16 = 622;

pub const KEY_WWW: u16 = 150;

pub const KEY_3D_MODE: u16 = 623;

pub const KEY_UNMUTE: u16 = 628;

pub const KEY_SLEEP: u16 = 142;

pub const KEY_WAKEUP: u16 = 143;

pub const KEY_BLUE: u16 = 401;

pub const KEY_RED: u16 = 398;

pub const KEY_GREEN: u16 = 399;

pub const KEY_YELLOW: u16 = 400;

pub const KEY_F5: u16 = 63;

pub const KEY_DATA: u16 = 631;

/// A key of an input device.
#[derive(Debug, Copy, Clone, PartialEq, Eq, Hash, Structural)]
pub struct Key {
    code: u16,
}

impl Key {
    /// The number of the key.
    pub closed spec fn view(&self) -> u16 {
        self.code
    }

    /// The number of the key.
    pub fn code(&self) -> (r: u16)
        ensures
            r == self@,
    {
        self.code
    }

    /// The number of a key tells it apart from others.
    pub proof fn code_identifies(a: Key, b: Key)
        requires
            a@ == b@,
        ensures
            a == b,
    {
    }

    /// The key with a number, if there is one.
    pub fn try_from(code: u16) -> (r: Option<Key>)
        ensures
            match r {
                Some(key) => code < KEY_CNT && key@ == code,
                None => code >= KEY_CNT,
            },
    {
        match known_code(code) {
            Some(code) => Some(Key { code }),
            None => None,
        }
    }
}

/// The number of the key with a number, if there is one.
///
/// Calls `input_linux::Key::try_from`, which accepts the numbers below the count of keys and refuses
/// all others, and gives back the number of the key by `u16::from`.
#[verifier::external_body]
fn known_code(code: u16) -> (r: Option<u16>)
    ensures
        r == (if code < KEY_CNT {
            Some(code)
        } else {
            None
        }),
{
    input_linux::Key::try_from(code).ok().map(u16::from)
}

/// The number of the key that a button stands for by default. Buttons without a key that does the
/// same, and functions that lead to a certain state where the key would toggle it, stand for none.
pub open spec fn default_code(command: UiCommand) -> Option<u16> {
    match command {
        UiCommand::Select => Some(KEY_ENTER),
        UiCommand::Up => Some(KEY_UP),
        UiCommand::Down => Some(KEY_DOWN),
        UiCommand::Left => Some(KEY_LEFT),
        UiCommand::Right => Some(KEY_RIGHT),
        UiCommand::RightUp => Some(KEY_RIGHT_UP),
        UiCommand::RightDown => Some(KEY_RIGHT_DOWN),
        UiCommand::LeftUp => Some(KEY_LEFT_UP),
        UiCommand::LeftDown => Some(KEY_LEFT_DOWN),
        UiCommand::DeviceRootMenu => Some(KEY_ROOT_MENU),
        UiCommand::DeviceSetupMenu => Some(KEY_SETUP),
        UiCommand::ContentsMenu => Some(KEY_MENU),
        UiCommand::FavoriteMenu => Some(KEY_FAVORITES),
        UiCommand::Back => Some(KEY_ESC),
        UiCommand::MediaTopMenu => Some(KEY_MEDIA_TOP_MENU),
        UiCommand::MediaContextSensitiveMenu => Some(KEY_CONTEXT_MENU),
        UiCommand::NumberEntryMode => Some(KEY_DIGITS),
        UiCommand::Number11 => Some(KEY_NUMERIC_11),
        UiCommand::Number12 => Some(KEY_NUMERIC_12),
        UiCommand::Number0OrNumber10 => Some(KEY_NUMERIC_0),
        UiCommand::Number1 => Some(KEY_NUMERIC_1),
        UiCommand::Number2 => Some(KEY_NUMERIC_2),
        UiCommand::Number3 => Some(KEY_NUMERIC_3),
        UiCommand::Number4 => Some(KEY_NUMERIC_4),
        UiCommand::Number5 => Some(KEY_NUMERIC_5),
        UiCommand::Number6 => Some(KEY_NUMERIC_6),
        UiCommand::Number7 => Some(KEY_NUMERIC_7),
        UiCommand::Number8 => Some(KEY_NUMERIC_8),
        UiCommand::Number9 => Some(KEY_NUMERIC_9),
        UiCommand::Dot => Some(KEY_DOT),
        UiCommand::Enter => Some(KEY_ENTER),
        UiCommand::Clear => Some(KEY_CLEAR),
        UiCommand::NextFavorite => Some(KEY_NEXT_FAVORITE),
        UiCommand::ChannelUp => Some(KEY_CHANNELUP),
        UiCommand::ChannelDown => Some(KEY_CHANNELDOWN),
        UiCommand::PreviousChannel => Some(KEY_PREVIOUS),
        UiCommand::SoundSelect => Some(KEY_SOUND),
        UiCommand::DisplayInformation => Some(KEY_INFO),
        UiCommand::Help => Some(KEY_HELP),
        UiCommand::PageUp => Some(KEY_PAGEUP),
        UiCommand::PageDown => Some(KEY_PAGEDOWN),
        UiCommand::Power => Some(KEY_POWER),
        UiCommand::VolumeUp => Some(KEY_VOLUMEUP),
        UiCommand::VolumeDown => Some(KEY_VOLUMEDOWN),
        UiCommand::Mute => Some(KEY_MUTE),
        UiCommand::Play => Some(KEY_PLAYCD),
        UiCommand::Stop => Some(KEY_STOPCD),
        UiCommand::Pause => Some(KEY_PAUSECD),
        UiCommand::Record => Some(KEY_RECORD),
        UiCommand::Rewind => Some(KEY_REWIND),
        UiCommand::FastForward => Some(KEY_FASTFORWARD),
        UiCommand::Eject => Some(KEY_EJECTCD),
        UiCommand::SkipForward => Some(KEY_NEXTSONG),
        UiCommand::SkipBackward => Some(KEY_PREVIOUSSONG),
        UiCommand::StopRecord => Some(KEY_STOP_RECORD),
        UiCommand::PauseRecord => Some(KEY_PAUSE_RECORD),
        UiCommand::Angle => Some(KEY_ANGLE),
        UiCommand::VideoOnDemand => Some(KEY_VOD),
        UiCommand::ElectronicProgramGuide => Some(KEY_EPG),
        UiCommand::TimerProgramming => Some(KEY_TIME),
        UiCommand::InitialConfiguration => Some(KEY_CONFIG),
        UiCommand::AudioDescription => Some(KEY_AUDIO_DESC),
        UiCommand::Internet => Some(KEY_WWW),
        UiCommand::ThreeDMode => Some(KEY_3D_MODE),
        UiCommand::RestoreVolumeFunction => Some(KEY_UNMUTE),
        UiCommand::PowerToggleFunction => Some(KEY_POWER),
        UiCommand::PowerOffFunction => Some(KEY_SLEEP),
        UiCommand::PowerOnFunction => Some(KEY_WAKEUP),
        UiCommand::F1Blue => Some(KEY_BLUE),
        UiCommand::F2Red => Some(KEY_RED),
        UiCommand::F3Green => Some(KEY_GREEN),
        UiCommand::F4Yellow => Some(KEY_YELLOW),
        UiCommand::F5 => Some(KEY_F5),
        UiCommand::Data => Some(KEY_DATA),
        _ => None,
    }
}

/// The key that a button stands for by default.
pub fn default_key(command: UiCommand) -> (r: Option<Key>)
    ensures
        match r {
            Some(key) => default_code(command) == Some(key@),
            None => default_code(command) is None,
        },
{
    let code: u16 = match command {
        UiCommand::Select => KEY_ENTER,
        UiCommand::Up => KEY_UP,
        UiCommand::Down => KEY_DOWN,
        UiCommand::Left => KEY_LEFT,
        UiCommand::Right => KEY_RIGHT,
        UiCommand::RightUp => KEY_RIGHT_UP,
        UiCommand::RightDown => KEY_RIGHT_DOWN,
        UiCommand::LeftUp => KEY_LEFT_UP,
        UiCommand::LeftDown => KEY_LEFT_DOWN,
        UiCommand::DeviceRootMenu => KEY_ROOT_MENU,
        UiCommand::DeviceSetupMenu => KEY_SETUP,
        UiCommand::ContentsMenu => KEY_MENU,
        UiCommand::FavoriteMenu => KEY_FAVORITES,
        UiCommand::Back => KEY_ESC,
        UiCommand::MediaTopMenu => KEY_MEDIA_TOP_MENU,
        UiCommand::MediaContextSensitiveMenu => KEY_CONTEXT_MENU,
        UiCommand::NumberEntryMode => KEY_DIGITS,
        UiCommand::Number11 => KEY_NUMERIC_11,
        UiCommand::Number12 => KEY_NUMERIC_12,
        UiCommand::Number0OrNumber10 => KEY_NUMERIC_0,
        UiCommand::Number1 => KEY_NUMERIC_1,
        UiCommand::Number2 => KEY_NUMERIC_2,
        UiCommand::Number3 => KEY_NUMERIC_3,
        UiCommand::Number4 => KEY_NUMERIC_4,
        UiCommand::Number5 => KEY_NUMERIC_5,
        UiCommand::Number6 => KEY_NUMERIC_6,
        UiCommand::Number7 => KEY_NUMERIC_7,
        UiCommand::Number8 => KEY_NUMERIC_8,
        UiCommand::Number9 => KEY_NUMERIC_9,
        UiCommand::Dot => KEY_DOT,
        UiCommand::Enter => KEY_ENTER,
        UiCommand::Clear => KEY_CLEAR,
        UiCommand::NextFavorite => KEY_NEXT_FAVORITE,
        UiCommand::ChannelUp => KEY_CHANNELUP,
        UiCommand::ChannelDown => KEY_CHANNELDOWN,
        UiCommand::PreviousChannel => KEY_PREVIOUS,
        UiCommand::SoundSelect => KEY_SOUND,
        UiCommand::DisplayInformation => KEY_INFO,
        UiCommand::Help => KEY_HELP,
        UiCommand::PageUp => KEY_PAGEUP,
        UiCommand::PageDown => KEY_PAGEDOWN,
        UiCommand::Power => KEY_POWER,
        UiCommand::VolumeUp => KEY_VOLUMEUP,
        UiCommand::VolumeDown => KEY_VOLUMEDOWN,
        UiCommand::Mute => KEY_MUTE,
        UiCommand::Play => KEY_PLAYCD,
        UiCommand::Stop => KEY_STOPCD,
        UiCommand::Pause => KEY_PAUSECD,
        UiCommand::Record => KEY_RECORD,
        UiCommand::Rewind => KEY_REWIND,
        UiCommand::FastForward => KEY_FASTFORWARD,
        UiCommand::Eject => KEY_EJECTCD,
        UiCommand::SkipForward => KEY_NEXTSONG,
        UiCommand::SkipBackward => KEY_PREVIOUSSONG,
        UiCommand::StopRecord => KEY_STOP_RECORD,
        UiCommand::PauseRecord => KEY_PAUSE_RECORD,
        UiCommand::Angle => KEY_ANGLE,
        UiCommand::VideoOnDemand => KEY_VOD,
        UiCommand::ElectronicProgramGuide => KEY_EPG,
        UiCommand::TimerProgramming => KEY_TIME,
        UiCommand::InitialConfiguration => KEY_CONFIG,
        UiCommand::AudioDescription => KEY_AUDIO_DESC,
        UiCommand::Internet => KEY_WWW,
        UiCommand::ThreeDMode => KEY_3D_MODE,
        UiCommand::RestoreVolumeFunction => KEY_UNMUTE,
        UiCommand::PowerToggleFunction => KEY_POWER,
        UiCommand::PowerOffFunction => KEY_SLEEP,
        UiCommand::PowerOnFunction => KEY_WAKEUP,
        UiCommand::F1Blue => KEY_BLUE,
        UiCommand::F2Red => KEY_RED,
        UiCommand::F3Green => KEY_GREEN,
        UiCommand::F4Yellow => KEY_YELLOW,
        UiCommand::F5 => KEY_F5,
        UiCommand::Data => KEY_DATA,
        _ => return None,
    };
    Some(Key { code })
}

/// The numbers of the keys that buttons stand for by default.
pub proof fn buttons_stand_for_keys()
    ensures
        default_code(UiCommand::Select) == Some(28u16),
        default_code(UiCommand::Up) == Some(103u16),
        default_code(UiCommand::Down) == Some(108u16),
        default_code(UiCommand::Left) == Some(105u16),
        default_code(UiCommand::Right) == Some(106u16),
        default_code(UiCommand::RightUp) == Some(614u16),
        default_code(UiCommand::RightDown) == Some(615u16),
        default_code(UiCommand::LeftUp) == Some(616u16),
        default_code(UiCommand::LeftDown) == Some(617u16),
        default_code(UiCommand::DeviceRootMenu) == Some(618u16),
        default_code(UiCommand::DeviceSetupMenu) == Some(141u16),
        default_code(UiCommand::ContentsMenu) == Some(139u16),
        default_code(UiCommand::FavoriteMenu) == Some(364u16),
        default_code(UiCommand::Back) == Some(1u16),
        default_code(UiCommand::MediaTopMenu) == Some(619u16),
        default_code(UiCommand::MediaContextSensitiveMenu) == Some(438u16),
        default_code(UiCommand::NumberEntryMode) == Some(413u16),
        default_code(UiCommand::Number11) == Some(620u16),
        default_code(UiCommand::Number12) == Some(621u16),
        default_code(UiCommand::Number0OrNumber10) == Some(512u16),
        default_code(UiCommand::Number1) == Some(513u16),
        default_code(UiCommand::Number2) == Some(514u16),
        default_code(UiCommand::Number3) == Some(515u16),
        default_code(UiCommand::Number4) == Some(516u16),
        default_code(UiCommand::Number5) == Some(517u16),
        default_code(UiCommand::Number6) == Some(518u16),
        default_code(UiCommand::Number7) == Some(519u16),
        default_code(UiCommand::Number8) == Some(520u16),
        default_code(UiCommand::Number9) == Some(521u16),
        default_code(UiCommand::Dot) == Some(52u16),
        default_code(UiCommand::Enter) == Some(28u16),
        default_code(UiCommand::Clear) == Some(355u16),
        default_code(UiCommand::NextFavorite) == Some(624u16),
        default_code(UiCommand::ChannelUp) == Some(402u16),
        default_code(UiCommand::ChannelDown) == Some(403u16),
        default_code(UiCommand::PreviousChannel) == Some(412u16),
        default_code(UiCommand::SoundSelect) == Some(213u16),
        default_code(UiCommand::DisplayInformation) == Some(358u16),
        default_code(UiCommand::Help) == Some(138u16),
        default_code(UiCommand::PageUp) == Some(104u16),
        default_code(UiCommand::PageDown) == Some(109u16),
        default_code(UiCommand::Power) == Some(116u16),
        default_code(UiCommand::VolumeUp) == Some(115u16),
        default_code(UiCommand::VolumeDown) == Some(114u16),
        default_code(UiCommand::Mute) == Some(113u16),
        default_code(UiCommand::Play) == Some(200u16),
        default_code(UiCommand::Stop) == Some(166u16),
        default_code(UiCommand::Pause) == Some(201u16),
        default_code(UiCommand::Record) == Some(167u16),
        default_code(UiCommand::Rewind) == Some(168u16),
        default_code(UiCommand::FastForward) == Some(208u16),
        default_code(UiCommand::Eject) == Some(161u16),
        default_code(UiCommand::SkipForward) == Some(163u16),
        default_code(UiCommand::SkipBackward) == Some(165u16),
        default_code(UiCommand::StopRecord) == Some(625u16),
        default_code(UiCommand::PauseRecord) == Some(626u16),
        default_code(UiCommand::Angle) == Some(371u16),
        default_code(UiCommand::VideoOnDemand) == Some(627u16),
        default_code(UiCommand::ElectronicProgramGuide) == Some(365u16),
        default_code(UiCommand::TimerProgramming) == Some(359u16),
        default_code(UiCommand::InitialConfiguration) == Some(171u16),
        default_code(UiCommand::AudioDescription) == Some(622u16),
        default_code(UiCommand::Internet) == Some(150u16),
        default_code(UiCommand::ThreeDMode) == Some(623u16),
        default_code(UiCommand::RestoreVolumeFunction) == Some(628u16),
        default_code(UiCommand::PowerToggleFunction) == Some(116u16),
        default_code(UiCommand::PowerOffFunction) == Some(142u16),
        default_code(UiCommand::PowerOnFunction) == Some(143u16),
        default_code(UiCommand::F1Blue) == Some(401u16),
        default_code(UiCommand::F2Red) == Some(398u16),
        default_code(UiCommand::F3Green) == Some(399u16),
        default_code(UiCommand::F4Yellow) == Some(400u16),
        default_code(UiCommand::F5) == Some(63u16),
        default_code(UiCommand::Data) == Some(631u16),
{
}

/// The buttons that stand for no key by default.
pub proof fn buttons_without_keys(c: UiCommand)
    ensures
        c is InputSelect ==> default_code(c) is None,
        c is SubPicture ==> default_code(c) is None,
        c is SelectBroadcastType ==> default_code(c) is None,
        c is SelectSoundPresentation ==> default_code(c) is None,
        c is PlayFunction ==> default_code(c) is None,
        c is PausePlayFunction ==> default_code(c) is None,
        c is RecordFunction ==> default_code(c) is None,
        c is PauseRecordFunction ==> default_code(c) is None,
        c is StopFunction ==> default_code(c) is None,
        c is MuteFunction ==> default_code(c) is None,
        c is TuneFunction ==> default_code(c) is None,
        c is SelectMediaFunction ==> default_code(c) is None,
        c is SelectAvInputFunction ==> default_code(c) is None,
        c is SelectAudioInputFunction ==> default_code(c) is None,
{
}

} // verus!
