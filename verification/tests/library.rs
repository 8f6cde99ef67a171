use linux_cec::address::{
    AddressingType, CecMessageHandlingMode, FollowerMode, InitiatorMode, LogicalAddress,
    LogicalAddressType, PhysicalAddress, Timeout, VendorId,
};
use linux_cec::attach::{CecTtyPoller, PollAction, SerioType, TtyAction, TtyRead};
use linux_cec::codec::Coded;
use linux_cec::config::{de_mappings, MappingError, Mappings};
use linux_cec::dbus::{self, CecDevice};
use linux_cec::device::{
    tx_error, CecMsg, ConnectorInfo, Device, DevicePoller, LogAddrs, MessageData, Pin, PinState,
    PollResult, PollStatus,
};
use linux_cec::error::{Error, Range, RxError, TxError};
use linux_cec::keys::{default_key, Key};
use linux_cec::message::{Message, Opcode};
use linux_cec::operand::{
    AudioStatus, BufferOperand, DurationHours, Hour, Minute, PlayMode, UiCommand,
};
use linux_cec::sources::{config_dirs, config_files, fragments};
use linux_cec::status::{StatusAction, StatusHandling, StatusInput};
use linux_cec::system::{System, SystemMessage};
use linux_cec::text::{parse_u32, split_path, to_decimal, trim};

const EVENT_STATE_CHANGE: u32 = 1;
const EVENT_LOST_MSGS: u32 = 2;
const EVENT_PIN_HPD_HIGH: u32 = 6;

fn strings(names: &[&str]) -> Vec<String> {
    names.iter().map(|s| String::from(*s)).collect()
}

fn log_addrs(addresses: &[u8]) -> LogAddrs {
    let mut log_addr = [0xFF; 4];
    log_addr[..addresses.len()].copy_from_slice(addresses);
    LogAddrs {
        log_addr,
        num_log_addrs: addresses.len() as u8,
        vendor_id: 0xFFFF_FFFF,
        osd_name: [0; 15],
        primary_device_type: [0; 4],
        log_addr_type: [0; 4],
    }
}

fn playback() -> Device {
    Device::new(log_addrs(&[4]))
}

#[test]
fn numerals_are_read_and_written() {
    assert_eq!(to_decimal(0), "0");
    assert_eq!(to_decimal(u64::MAX), "18446744073709551615");
    assert_eq!(parse_u32("4294967295"), Some(u32::MAX));
    assert_eq!(parse_u32("4294967296"), None);
    assert_eq!(parse_u32("+7"), Some(7));
    assert_eq!(parse_u32("-7"), None);
    assert_eq!(parse_u32(""), None);
    assert_eq!(parse_u32("+"), None);
    for n in [0u32, 9, 10, 4095, u32::MAX] {
        assert_eq!(parse_u32(&to_decimal(u64::from(n))), Some(n));
    }
    assert_eq!(trim(" \tconnected\n"), "connected");
}

#[test]
fn paths_fall_into_elements() {
    assert_eq!(split_path("/sys//class/./drm/"), strings(&["sys", "class", "drm"]));
    assert_eq!(split_path("../a.b"), strings(&["..", "a.b"]));
    assert!(split_path("//").is_empty());
}

#[test]
fn fragments_are_read_in_order() {
    let names = strings(&["20-b.toml", "readme", ".toml", "10-a.toml", "x.tom", "10-.toml"]);
    assert_eq!(fragments(&names), strings(&["10-.toml", "10-a.toml", "20-b.toml"]));
    assert_eq!(
        config_dirs(Some("/home/deck/.config")),
        strings(&["/usr/share/cecd", "/etc/cecd", "/home/deck/.config/cecd"])
    );
    assert_eq!(config_dirs(None), strings(&["/usr/share/cecd", "/etc/cecd"]));
    assert_eq!(
        config_files("/etc/cecd", &names),
        strings(&[
            "/etc/cecd/config.toml",
            "/etc/cecd/config.d/10-.toml",
            "/etc/cecd/config.d/10-a.toml",
            "/etc/cecd/config.d/20-b.toml",
        ])
    );
}

#[test]
fn devices_have_paths_on_the_bus() {
    let below = |name: &str| Some(format!("/com/steampowered/CecDaemon1/Devices/{name}"));
    assert_eq!(dbus::device_path("/dev/cec0"), below("Cec0"));
    assert_eq!(dbus::device_path("/dev/usb/cec_1"), below("UsbCec_1"));
    assert_eq!(dbus::device_path("/tmp/cec"), below("TmpCec"));
    assert_eq!(dbus::device_path("/dev/cec-0"), None);
    assert_eq!(dbus::device_path("/dev/"), None);
    // The capital letter of the first is two letters, neither of them allowed.
    assert_eq!(dbus::device_path("/dev/\u{149}"), None);
    assert_eq!(dbus::device_path("/dev/\u{131}x"), below("Ix"));
}

#[test]
fn a_device_is_offered_with_what_it_says() {
    let (device, cached) = CecDevice::open(
        "/dev/cec0",
        Ok(PhysicalAddress::from(0x1200)),
        Ok(vec![LogicalAddress::PlaybackDevice1, LogicalAddress::AudioSystem]),
        Ok(Some(VendorId([0, 1, 2]))),
    )
    .unwrap();
    assert_eq!(device.path, "/dev/cec0");
    assert_eq!(device.dbus_path, "/com/steampowered/CecDaemon1/Devices/Cec0");
    assert_eq!(cached.phys_addr, 0x1200);
    assert_eq!(cached.log_addrs, vec![4, 5]);
    assert_eq!(cached.vendor_id, 0x102);
    let (_, cached) = CecDevice::open(
        "/dev/cec0",
        Err(Error::Disconnected),
        Err(Error::Disconnected),
        Err(Error::Disconnected),
    )
    .unwrap();
    assert_eq!(cached.phys_addr, 0xFFFF);
    assert!(cached.log_addrs.is_empty());
    assert_eq!(cached.vendor_id, -1);
}

#[test]
fn errors_have_names() {
    let cases = [
        (
            Error::OutOfRange { expected: Range::AtLeast(1), got: 0, quantity: "bytes" },
            "Error.OutOfRange",
        ),
        (
            Error::InvalidValueForType { ty: "Opcode", value: String::from("1") },
            "Error.InvalidValueForType",
        ),
        (Error::InvalidData, "Error.InvalidData"),
        (Error::Timeout, "Error.Timeout"),
        (Error::Abort, "Error.Abort"),
        (Error::NoLogicalAddress, "Error.NoLogicalAddress"),
        (Error::Disconnected, "Error.Disconnected"),
        (Error::Unsupported, "Error.Unsupported"),
        (Error::SystemError(16), "Error.SystemError"),
        (Error::TxError(TxError::ArbLost), "TxError.ArbLost"),
        (Error::TxError(TxError::Nack), "TxError.Nack"),
        (Error::TxError(TxError::LowDrive), "TxError.LowDrive"),
        (Error::TxError(TxError::UnknownError), "TxError.Unknown"),
        (Error::TxError(TxError::MaxRetries), "TxError.MaxRetries"),
        (Error::TxError(TxError::Aborted), "TxError.Aborted"),
        (Error::TxError(TxError::Timeout), "TxError.Timeout"),
        (Error::RxError(RxError::Timeout), "RxError.Timeout"),
        (Error::RxError(RxError::FeatureAbort), "RxError.FeatureAbort"),
        (Error::RxError(RxError::Aborted), "RxError.Aborted"),
        (Error::UnknownError(String::from("x")), "Error.Unknown"),
    ];
    for (error, name) in cases {
        assert_eq!(
            dbus::Error::Cec(error).name(),
            format!("com.steampowered.CecDaemon1.{name}")
        );
    }
    assert_eq!(dbus::Error::FDO(String::from("org.example.E")).name(), "org.example.E");
    assert_eq!(dbus::Error::Anyhow.name(), "org.freedesktop.DBus.Error.Failed");
}

#[test]
fn keys_are_known_by_their_numbers() {
    let codes: [(Key, input_linux::Key); 3] = [
        (Key::try_from(28).unwrap(), input_linux::Key::Enter),
        (Key::try_from(1).unwrap(), input_linux::Key::Esc),
        (Key::try_from(0x2ff).unwrap(), input_linux::Key::try_from(0x2ffu16).unwrap()),
    ];
    for (key, other) in codes {
        assert_eq!(key.code(), u16::from(other));
    }
    assert_eq!(Key::try_from(0x300), None);
    assert!(input_linux::Key::try_from(0x300u16).is_err());
    let code = |command| default_key(command).map(|key| key.code());
    assert_eq!(code(UiCommand::Select), Some(u16::from(input_linux::Key::Enter)));
    assert_eq!(code(UiCommand::Number0OrNumber10), Some(0x200));
    assert_eq!(code(UiCommand::Number9), Some(0x209));
    assert_eq!(code(UiCommand::Number11), Some(u16::from(input_linux::Key::Numeric11)));
    assert_eq!(code(UiCommand::F1Blue), Some(u16::from(input_linux::Key::Blue)));
    assert_eq!(code(UiCommand::ThreeDMode), Some(u16::from(input_linux::Key::Audio3dMode)));
    assert_eq!(code(UiCommand::InputSelect), None);
    assert_eq!(code(UiCommand::PlayFunction(None)), None);
}

#[test]
fn keys_by_default() {
    let keys = [
        (UiCommand::Select, input_linux::Key::Enter),
        (UiCommand::Up, input_linux::Key::Up),
        (UiCommand::Down, input_linux::Key::Down),
        (UiCommand::Left, input_linux::Key::Left),
        (UiCommand::Right, input_linux::Key::Right),
        (UiCommand::RightUp, input_linux::Key::RightUp),
        (UiCommand::RightDown, input_linux::Key::RightDown),
        (UiCommand::LeftUp, input_linux::Key::LeftUp),
        (UiCommand::LeftDown, input_linux::Key::LeftDown),
        (UiCommand::DeviceRootMenu, input_linux::Key::RootMenu),
        (UiCommand::DeviceSetupMenu, input_linux::Key::Setup),
        (UiCommand::ContentsMenu, input_linux::Key::Menu),
        (UiCommand::FavoriteMenu, input_linux::Key::Favorites),
        (UiCommand::Back, input_linux::Key::Esc),
        (UiCommand::MediaTopMenu, input_linux::Key::MediaTopMenu),
        (UiCommand::MediaContextSensitiveMenu, input_linux::Key::ContextMenu),
        (UiCommand::NumberEntryMode, input_linux::Key::Digits),
        (UiCommand::Number11, input_linux::Key::Numeric11),
        (UiCommand::Number12, input_linux::Key::Numeric12),
        (UiCommand::Number0OrNumber10, input_linux::Key::Numeric0),
        (UiCommand::Number1, input_linux::Key::Numeric1),
        (UiCommand::Number2, input_linux::Key::Numeric2),
        (UiCommand::Number3, input_linux::Key::Numeric3),
        (UiCommand::Number4, input_linux::Key::Numeric4),
        (UiCommand::Number5, input_linux::Key::Numeric5),
        (UiCommand::Number6, input_linux::Key::Numeric6),
        (UiCommand::Number7, input_linux::Key::Numeric7),
        (UiCommand::Number8, input_linux::Key::Numeric8),
        (UiCommand::Number9, input_linux::Key::Numeric9),
        (UiCommand::Dot, input_linux::Key::Dot),
        (UiCommand::Enter, input_linux::Key::Enter),
        (UiCommand::Clear, input_linux::Key::Clear),
        (UiCommand::NextFavorite, input_linux::Key::NextFavorite),
        (UiCommand::ChannelUp, input_linux::Key::ChannelUp),
        (UiCommand::ChannelDown, input_linux::Key::ChannelDown),
        (UiCommand::PreviousChannel, input_linux::Key::Previous),
        (UiCommand::SoundSelect, input_linux::Key::Sound),
        (UiCommand::DisplayInformation, input_linux::Key::Info),
        (UiCommand::Help, input_linux::Key::Help),
        (UiCommand::PageUp, input_linux::Key::PageUp),
        (UiCommand::PageDown, input_linux::Key::PageDown),
        (UiCommand::Power, input_linux::Key::Power),
        (UiCommand::VolumeUp, input_linux::Key::VolumeUp),
        (UiCommand::VolumeDown, input_linux::Key::VolumeDown),
        (UiCommand::Mute, input_linux::Key::Mute),
        (UiCommand::Play, input_linux::Key::PlayCD),
        (UiCommand::Stop, input_linux::Key::StopCD),
        (UiCommand::Pause, input_linux::Key::PauseCD),
        (UiCommand::Record, input_linux::Key::Record),
        (UiCommand::Rewind, input_linux::Key::Rewind),
        (UiCommand::FastForward, input_linux::Key::FastForward),
        (UiCommand::Eject, input_linux::Key::EjectCD),
        (UiCommand::SkipForward, input_linux::Key::NextSong),
        (UiCommand::SkipBackward, input_linux::Key::PreviousSong),
        (UiCommand::StopRecord, input_linux::Key::StopRecord),
        (UiCommand::PauseRecord, input_linux::Key::PauseRecord),
        (UiCommand::Angle, input_linux::Key::Angle),
        (UiCommand::VideoOnDemand, input_linux::Key::Vod),
        (UiCommand::ElectronicProgramGuide, input_linux::Key::EPG),
        (UiCommand::TimerProgramming, input_linux::Key::Time),
        (UiCommand::InitialConfiguration, input_linux::Key::Config),
        (UiCommand::AudioDescription, input_linux::Key::AudioDesc),
        (UiCommand::Internet, input_linux::Key::WWW),
        (UiCommand::ThreeDMode, input_linux::Key::Audio3dMode),
        (UiCommand::RestoreVolumeFunction, input_linux::Key::Unmute),
        (UiCommand::PowerToggleFunction, input_linux::Key::Power),
        (UiCommand::PowerOffFunction, input_linux::Key::Sleep),
        (UiCommand::PowerOnFunction, input_linux::Key::Wakeup),
        (UiCommand::F1Blue, input_linux::Key::Blue),
        (UiCommand::F2Red, input_linux::Key::Red),
        (UiCommand::F3Green, input_linux::Key::Green),
        (UiCommand::F4Yellow, input_linux::Key::Yellow),
        (UiCommand::F5, input_linux::Key::F5),
        (UiCommand::Data, input_linux::Key::Data),
    ];
    let defaults = Mappings::defaults();
    assert_eq!(defaults.len(), keys.len());
    for (command, key) in keys {
        assert_eq!(default_key(command).map(|k| k.code()), Some(u16::from(key)));
        assert_eq!(defaults.get(command).map(|k| k.code()), Some(u16::from(key)));
    }
}

#[test]
fn mappings_are_read_from_names_and_numbers() {
    let entries = vec![(String::from("ok"), 30), (String::from("back"), 1), (String::from("select"), 28)];
    let mappings = de_mappings(&entries).unwrap();
    assert_eq!(mappings.len(), 2);
    assert_eq!(mappings.get(UiCommand::Select), Key::try_from(28));
    assert_eq!(mappings.get(UiCommand::Back), Key::try_from(1));
    assert_eq!(mappings.get(UiCommand::Up), None);
    let wrong = |name: &str, code| de_mappings(&vec![(String::from(name), code)]).unwrap_err();
    assert_eq!(wrong("no-such-button", 1), MappingError::Command(String::from("no-such-button")));
    assert_eq!(wrong("ok", 0x300), MappingError::Key(0x300));
    assert!(Mappings::new().is_empty());
    assert!(!Mappings::defaults().is_empty());
}

#[test]
fn buttons_have_names() {
    assert_eq!(UiCommand::from_str("ok"), Ok(UiCommand::Select));
    assert_eq!(UiCommand::from_str("10"), Ok(UiCommand::Number0OrNumber10));
    assert_eq!(UiCommand::from_str("blue"), Ok(UiCommand::F1Blue));
    assert_eq!(UiCommand::from_str("play-function"), Ok(UiCommand::PlayFunction(None)));
    assert_eq!(
        UiCommand::from_str("OK"),
        Err(Error::InvalidValueForType { ty: "UiCommand", value: String::from("OK") })
    );
}

#[test]
fn buttons_take_parameters() {
    let plain = Message::UserControlPressed { ui_command: UiCommand::PlayFunction(None) };
    assert_eq!(plain.to_bytes(), vec![0x44, 0x60]);
    let forward =
        Message::UserControlPressed { ui_command: UiCommand::PlayFunction(Some(PlayMode::Forward)) };
    assert_eq!(forward.to_bytes(), vec![0x44, 0x60, 0x24]);
    assert_eq!(Message::try_from_bytes(&[0x44, 0x60, 0x24]), Ok(forward));
    assert_eq!(Message::try_from_bytes(&[0x44, 0x60]), Ok(plain));
}

#[test]
fn messages_differ_where_their_bytes_do() {
    let routes = [(0x1000, 0x2000), (0x2000, 0x1000), (0x1000, 0x1000)];
    for (a, b) in routes {
        for (c, d) in routes {
            let first = Message::RoutingChange {
                original_address: PhysicalAddress(a),
                new_address: PhysicalAddress(b),
            };
            let second = Message::RoutingChange {
                original_address: PhysicalAddress(c),
                new_address: PhysicalAddress(d),
            };
            assert_eq!(first.to_bytes() == second.to_bytes(), first == second);
        }
    }
    assert_eq!(
        Message::try_from_bytes(&[]),
        Err(Error::OutOfRange { expected: Range::AtLeast(1), got: 0, quantity: "bytes" })
    );
    assert_eq!(
        Message::try_from_bytes(&[0x01]),
        Err(Error::InvalidValueForType { ty: "Opcode", value: String::from("1") })
    );
}

#[test]
fn messages_are_addressed() {
    let source = Message::ActiveSource { address: PhysicalAddress(0x1000) };
    assert_eq!(source.addressing_type(), AddressingType::Broadcast);
    assert!(source.can_broadcast() && !source.can_directly_address());
    assert!(Opcode::Standby.can_broadcast() && Opcode::Standby.can_directly_address());
    assert_eq!(Opcode::Standby.addressing_type(), AddressingType::Either);
    assert!(!Message::ImageViewOn.can_broadcast());
    assert_eq!(Message::ImageViewOn.addressing_type(), AddressingType::Direct);
}

#[test]
fn operands_keep_to_their_ranges() {
    assert!(Hour::try_from(23).is_ok());
    assert!(Hour::try_from(24).is_err());
    assert!(Minute::try_from(59).is_ok());
    assert!(Minute::try_from(60).is_err());
    assert!(DurationHours::try_from(99).is_ok());
    assert!(DurationHours::try_from(100).is_err());
    assert!(BufferOperand::from_str("12345678901234").is_ok());
    assert_eq!(
        BufferOperand::from_str("123456789012345").unwrap_err(),
        Error::OutOfRange { expected: Range::AtMost(14), got: 15, quantity: "bytes" }
    );
    let status = AudioStatus::new().with_volume(100).with_mute(true);
    assert_eq!((status.volume(), status.mute()), (100, true));
}

#[test]
fn addresses_and_vendors_have_numbers() {
    assert_eq!(LogicalAddress::try_from_primitive(15), Ok(LogicalAddress::Unregistered));
    assert!(LogicalAddress::try_from_primitive(16).is_err());
    assert!(PhysicalAddress(0).is_root() && PhysicalAddress(0).is_valid());
    assert!(!PhysicalAddress::default().is_valid());
    assert_eq!(VendorId([0x12, 0x34, 0x56]).to_sys(), 0x123456);
    assert_eq!(VendorId::try_from_sys(0x123456), Ok(Some(VendorId([0x12, 0x34, 0x56]))));
    assert_eq!(VendorId::try_from_sys(0xFFFF_FFFF), Ok(None));
    assert_eq!(VendorId::try_from_sys(0x0100_0000), Err(Error::InvalidData));
    assert_eq!(Timeout::max().as_ms(), 1000);
    assert_eq!(Timeout::from_ms(17).as_ms(), 17);
    assert_eq!(Timeout::none().as_ms(), 0);
}

#[test]
fn modes_are_packed() {
    let mode = CecMessageHandlingMode { word: 0xAB00 }
        .with_initiator(InitiatorMode::Exclusive)
        .with_follower(FollowerMode::Enabled);
    assert_eq!(mode.initiator(), Ok(InitiatorMode::Exclusive));
    assert_eq!(mode.follower(), Ok(FollowerMode::Enabled));
    assert_eq!(mode.word, 0xAB12);
}

#[test]
fn frames_carry_messages() {
    let device = playback();
    let frame = device.tx_message(&Message::GiveDevicePowerStatus, LogicalAddress::Tv);
    assert_eq!(&frame.msg[..2], &[0x40, 0x8F]);
    assert_eq!((frame.len, frame.timeout), (2, 0));
    let frame = device.tx_rx_message(
        &Message::GiveAudioStatus,
        LogicalAddress::AudioSystem,
        Opcode::ReportAudioStatus,
        Timeout::max(),
    );
    assert_eq!(&frame.msg[..2], &[0x45, 0x71]);
    assert_eq!((frame.reply, frame.timeout), (0x7A, 1000));
    for (given, waited) in [(0, 1000), (250, 250), (1000, 1000), (5000, 1000)] {
        let frame = device.tx_rx_message(
            &Message::GiveAudioStatus,
            LogicalAddress::AudioSystem,
            Opcode::ReportAudioStatus,
            Timeout::from_ms(given),
        );
        assert_eq!(frame.timeout, waited);
    }
    let frame = device.set_active_source(PhysicalAddress(0x1234));
    assert_eq!(&frame.msg[..4], &[0x4F, 0x82, 0x12, 0x34]);
    let frames = device.wake(None, false);
    assert_eq!(frames.len(), 1);
    assert_eq!(&frames[0].msg[..2], &[0x40, 0x04]);
    let frames = device.wake(Some(PhysicalAddress(0x1234)), true);
    assert_eq!(&frames[0].msg[..2], &[0x40, 0x0D]);
    assert_eq!(&frames[1].msg[..4], &[0x4F, 0x82, 0x12, 0x34]);
    assert_eq!(&device.standby(LogicalAddress::Broadcast).msg[..2], &[0x4F, 0x36]);
    let frame = device.press_user_control(UiCommand::Mute, LogicalAddress::Tv);
    assert_eq!(&frame.msg[..3], &[0x40, 0x44, 0x43]);
    assert_eq!(&device.release_user_control(LogicalAddress::Tv).msg[..2], &[0x40, 0x45]);
    let frame = device.poll_address(LogicalAddress::Tv);
    assert_eq!((frame.len, frame.msg[0]), (1, 0x40));
}

#[test]
fn replies_are_read() {
    let device = playback();
    let mut frame = device.tx_rx_message(
        &Message::GiveAudioStatus,
        LogicalAddress::AudioSystem,
        Opcode::ReportAudioStatus,
        Timeout::max(),
    );
    frame.tx_status = 0x04;
    assert_eq!(Device::read_reply(frame).unwrap_err(), Error::TxError(TxError::Nack));
    frame.tx_status = 0x01;
    frame.rx_status = 0x01;
    frame.msg[..3].copy_from_slice(&[0x54, 0x7A, 0x82]);
    frame.len = 3;
    let reply = Device::read_reply(frame).unwrap();
    assert_eq!(CecDevice::read_audio_status(&reply), Ok((2, true)));
    frame.msg[1] = 0x00;
    frame.len = 4;
    let reply = Device::read_reply(frame).unwrap();
    assert_eq!(CecDevice::read_audio_status(&reply), Err(Error::InvalidData));
}

#[test]
fn transmissions_fail_for_a_reason() {
    assert_eq!(tx_error(0x02), TxError::ArbLost);
    assert_eq!(tx_error(0x04), TxError::Nack);
    assert_eq!(tx_error(0x08), TxError::LowDrive);
    assert_eq!(tx_error(0x10), TxError::UnknownError);
    assert_eq!(tx_error(0x20), TxError::MaxRetries);
    assert_eq!(tx_error(0x24), TxError::Nack);
    assert_eq!(tx_error(0x40), TxError::Aborted);
    assert_eq!(tx_error(0x80), TxError::Timeout);
    assert_eq!(tx_error(0), TxError::UnknownError);
}

#[test]
fn polls_are_read() {
    assert_eq!(DevicePoller::status(0, None), Err(Error::Timeout));
    assert_eq!(DevicePoller::status(1, None), Ok(PollStatus::Nothing));
    assert_eq!(DevicePoller::status(1, Some(0x01)), Ok(PollStatus::GotMessage));
    assert_eq!(DevicePoller::status(1, Some(0x02)), Ok(PollStatus::GotEvent));
    assert_eq!(DevicePoller::status(1, Some(0x03)), Ok(PollStatus::GotAll));
    assert_eq!(DevicePoller::status(1, Some(0x11)), Ok(PollStatus::Destroyed));
    assert_eq!(
        DevicePoller::status(1, Some(0x08)),
        Err(Error::UnknownError(String::from("Polling error encountered")))
    );
}

#[test]
fn connectors_are_described() {
    let mut data = [0; 16];
    data[0] = 1;
    data[1] = 77;
    assert_eq!(ConnectorInfo::from_raw(0, data), ConnectorInfo::NoConnector);
    assert_eq!(
        ConnectorInfo::from_raw(1, data),
        ConnectorInfo::DrmConnector { card_no: 1, connector_id: 77 }
    );
    assert_eq!(ConnectorInfo::from_raw(2, data), ConnectorInfo::Unknown { ty: 2, data });
}

#[test]
fn a_device_knows_its_addresses() {
    let mut device = Device::new(log_addrs(&[]));
    assert_eq!(device.tx_logical_address, LogicalAddress::Unregistered);
    assert_eq!(device.set_osd_name("Deck"), Ok(None));
    assert_eq!(&device.get_osd_name()[..5], b"Deck\0");
    assert!(device.set_osd_name("a name that is too long").is_err());
    device.set_vendor_id(Some(VendorId([0, 0, 5])));
    assert_eq!(device.get_vendor_id(), Ok(Some(VendorId([0, 0, 5]))));
    device.set_vendor_id(None);
    assert_eq!(device.get_vendor_id(), Ok(None));

    assert!(device.prepare_logical_addresses(&[LogicalAddressType::Playback]).is_ok());
    device.request_logical_addresses(1);
    assert_eq!(device.internal_log_addrs.num_log_addrs, 1);
    device.accept_logical_addresses(log_addrs(&[8]), 1);
    assert_eq!(device.tx_logical_address, LogicalAddress::PlaybackDevice2);
    assert_eq!(device.get_logical_addresses(), Ok(vec![LogicalAddress::PlaybackDevice2]));
    let frame = device.set_osd_name("Deck").unwrap().unwrap();
    assert_eq!(&frame.msg[..6], &[0x80, 0x47, b'D', b'e', b'c', b'k']);
    device.clear_logical_addresses();
    assert_eq!(device.tx_logical_address, LogicalAddress::Unregistered);
    device.refresh(log_addrs(&[4, 200]));
    assert_eq!(device.tx_logical_address, LogicalAddress::PlaybackDevice1);
    assert!(device.get_logical_addresses().is_err());
}

fn results_of(status: PollStatus, inputs: Vec<StatusInput>) -> Result<Vec<PollResult>, Error> {
    let mut device = playback();
    let (mut handling, mut action) = StatusHandling::start(status);
    for input in inputs {
        assert!(!matches!(action, StatusAction::Return(_)));
        action = handling.next(&mut device, input);
    }
    match action {
        StatusAction::Return(results) => results,
        _ => panic!(),
    }
}

#[test]
fn a_status_is_read_out() {
    assert!(results_of(PollStatus::Nothing, vec![]).unwrap().is_empty());
    let lost = StatusInput::Event { event: EVENT_LOST_MSGS, lost_msgs: 3 };
    let results = results_of(PollStatus::GotEvent, vec![lost]).unwrap();
    assert!(matches!(results[..], [PollResult::LostMessages(3)]));
    let pin = StatusInput::Event { event: EVENT_PIN_HPD_HIGH, lost_msgs: 0 };
    let results = results_of(PollStatus::GotEvent, vec![pin]).unwrap();
    assert!(matches!(&results[..], [PollResult::PinEvent(event)]
        if event.pin == Pin::HotPlugDetect && event.state == PinState::High));

    let mut msg = CecMsg::from_timeout(0);
    msg.len = 2;
    msg.msg[..2].copy_from_slice(&[0x04, 0x36]);
    msg.rx_status = 1;
    let change = StatusInput::Event { event: EVENT_STATE_CHANGE, lost_msgs: 0 };
    let results = results_of(
        PollStatus::GotAll,
        vec![change, StatusInput::LogAddrs(log_addrs(&[8])), StatusInput::Received(msg)],
    )
    .unwrap();
    assert_eq!(results.len(), 2);
    assert!(matches!(results[0], PollResult::StateChange));
    assert!(matches!(&results[1], PollResult::Message(envelope)
        if envelope.message == MessageData::Valid(Message::Standby)));
    assert_eq!(
        results_of(PollStatus::GotMessage, vec![StatusInput::Failed(Error::Timeout)]).unwrap_err(),
        Error::Timeout
    );
}

#[test]
fn names_are_trimmed_between_characters() {
    let mut system = System::new(Some(String::from("a-very-long-hostname")));
    assert_eq!(system.trimmed_osd_name(), "a-very-long-ho");
    system.osd_name = String::from("short");
    assert_eq!(system.trimmed_osd_name(), "short");
    system.osd_name = String::from("123456789012\u{20ac}x");
    assert_eq!(system.trimmed_osd_name(), "123456789012");
    assert_eq!(System::new(Some(String::new())).trimmed_osd_name(), "CEC Device");
}

#[test]
fn sleep_and_wake_are_told() {
    let mut system = System::new(None);
    system.config.suspend_tv = true;
    system.config.wake_tv = true;
    assert!(matches!(
        system.prepare_for_sleep(true, 10),
        SystemMessage::Standby { standby_tv: true, force: false }
    ));
    assert!(system.standby);
    assert!(matches!(
        system.prepare_for_sleep(false, 20),
        SystemMessage::Wake { wake_tv: true, from_standby: true }
    ));
    assert_eq!(system.resume_wake_deadline, Some(5020));
    // The television is left alone where it is what put the system to sleep.
    assert!(system.suspend());
    assert!(!system.suspend());
    assert!(matches!(
        system.prepare_for_sleep(true, 30),
        SystemMessage::Standby { standby_tv: false, force: false }
    ));
    assert!(matches!(
        System::standby_all(true),
        SystemMessage::Standby { standby_tv: true, force: true }
    ));
    assert!(matches!(
        System::wake_all(),
        SystemMessage::Wake { wake_tv: true, from_standby: false }
    ));
}

#[test]
fn devices_are_opened_once() {
    let mut system = System::new(None);
    assert!(system.is_new_dev("cec0", "/dev/cec0"));
    assert!(!system.is_new_dev("video0", "/dev/video0"));
    assert!(system.find_dev("/dev/cec0"));
    assert!(!system.find_dev("/dev/cec0"));
    assert!(!system.is_new_dev("cec0", "/dev/cec0"));
    assert!(system.close_dev("/dev/cec0"));
    assert!(!system.close_dev("/dev/cec0"));
}

#[test]
fn calls_name_messages() {
    assert_eq!(
        CecDevice::send_raw_message(&[0x36], 0),
        Ok((Message::Standby, LogicalAddress::Tv))
    );
    assert!(CecDevice::send_raw_message(&[0x36], 16).is_err());
    assert!(CecDevice::send_raw_message(&[], 0).is_err());
    let (message, target, opcode, timeout) =
        CecDevice::send_receive_raw_message(&[0x71], 5, 0x7A, 250).unwrap();
    assert_eq!((message, target), (Message::GiveAudioStatus, LogicalAddress::AudioSystem));
    assert_eq!((opcode, timeout.as_ms()), (Opcode::ReportAudioStatus, 250));
    assert!(CecDevice::send_receive_raw_message(&[0x71], 5, 0x01, 250).is_err());
    assert_eq!(CecDevice::set_active_source(0x1000), Some(PhysicalAddress(0x1000)));
    assert_eq!(CecDevice::set_active_source(-1), None);
    assert_eq!(CecDevice::set_active_source(0x10000), None);
}

#[test]
fn adapters_are_bridged_once() {
    let kind = |id, model| CecTtyPoller::dev_type(Some("usb"), Some(id), Some(model));
    assert_eq!(kind("2548", "1001"), Some(SerioType::Pulse8));
    assert_eq!(kind("2548", "1002"), Some(SerioType::Pulse8));
    assert_eq!(kind("04d8", "ff59"), Some(SerioType::RainShadow));
    assert_eq!(kind("2548", "ff59"), None);
    assert_eq!(CecTtyPoller::dev_type(Some("pci"), Some("2548"), Some("1001")), None);
    assert_eq!(CecTtyPoller::dev_type(None, Some("2548"), Some("1001")), None);
    assert_eq!(SerioType::Pulse8.code(), 0x40);
    assert_eq!(SerioType::RainShadow.code(), 0x41);

    let mut poller = CecTtyPoller::new();
    let tty = Some("/dev/ttyACM0");
    assert_eq!(poller.add_dev(None, tty), None);
    assert_eq!(poller.add_dev(Some(SerioType::Pulse8), None), None);
    assert_eq!(poller.add_dev(Some(SerioType::Pulse8), tty), Some(SerioType::Pulse8));
    assert_eq!(poller.add_dev(Some(SerioType::Pulse8), tty), None);
    assert!(!poller.remove_dev(Some("/dev/ttyACM1")));
    assert!(poller.remove_dev(tty));
    assert!(!poller.remove_dev(tty));
    assert!(!poller.remove_dev(None));
    assert_eq!(poller.add_dev(Some(SerioType::Pulse8), tty), Some(SerioType::Pulse8));
}

#[test]
fn the_wait_for_adapters_goes_on() {
    assert_eq!(CecTtyPoller::after_poll(Err(4), None), PollAction::Again);
    assert_eq!(CecTtyPoller::after_poll(Err(9), None), PollAction::Fail(9));
    assert_eq!(CecTtyPoller::after_poll(Ok(0), Some(1)), PollAction::Again);
    assert_eq!(CecTtyPoller::after_poll(Ok(1), None), PollAction::Again);
    assert_eq!(CecTtyPoller::after_poll(Ok(1), Some(1)), PollAction::Handle);
    assert_eq!(CecTtyPoller::after_poll(Ok(1), Some(9)), PollAction::Stop);
    assert_eq!(linux_cec::attach::tty_thread(TtyRead::Done, false), TtyAction::Read);
    assert_eq!(linux_cec::attach::tty_thread(TtyRead::Interrupted, false), TtyAction::Read);
    assert_eq!(linux_cec::attach::tty_thread(TtyRead::Interrupted, true), TtyAction::Stop);
    assert_eq!(linux_cec::attach::tty_thread(TtyRead::Failed, true), TtyAction::Fail);
}
