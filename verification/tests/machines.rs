use linux_cec::address::{LogicalAddress, LogicalAddressType, PhysicalAddress};
use linux_cec::codec::Coded;
use linux_cec::configure::{
    Configuration, ConfigureAction, ConfigureInput, Settings, CEC_CAP_CONNECTOR_INFO,
    CEC_CAP_LOG_ADDRS, CEC_CAP_PHYS_ADDR, EBUSY,
};
use linux_cec::device::{ConnectorInfo, Device, Envelope, LogAddrs, MessageData};
use linux_cec::drm::DrmConnector;
use linux_cec::error::{Error, TxError};
use linux_cec::lifecycle::{
    LifecycleAction, LifecycleInput, StateChange, SystemHandling, KEY_REPEAT_DELAY,
};
use linux_cec::message::Message;
use linux_cec::operand::UiCommand;
use linux_cec::system::SystemMessage;
use linux_cec::task::{DeviceTask, MessageHandling, Properties, TaskAction, TaskInput};
use linux_cec::wake::{Resuming, WakeAction, WakeInput, Waking};

fn task() -> DeviceTask {
    let cached = Properties {
        phys_addr: 0x1000,
        vendor_id: -1,
        log_addrs: Vec::new(),
        active: false,
        audio_log_addr: LogicalAddress::Tv.to_primitive(),
    };
    DeviceTask::new(None, cached, false)
}

fn connector(address: u16) -> DrmConnector {
    DrmConnector {
        card: 0,
        connector: String::from("HDMI-A-1"),
        physical_address: PhysicalAddress(address),
    }
}

fn received(message: Message) -> Envelope {
    Envelope {
        message: MessageData::Valid(message),
        initiator: LogicalAddress::Tv,
        destination: LogicalAddress::PlaybackDevice1,
        timestamp: 0,
        sequence: 1,
    }
}

#[test]
fn a_receiver_reads_what_was_sent() {
    let device = Device::new(LogAddrs {
        log_addr: [4, 0, 0, 0],
        num_log_addrs: 1,
        vendor_id: 0,
        osd_name: [0; 15],
        primary_device_type: [0; 4],
        log_addr_type: [0; 4],
    });
    let messages = [
        Message::Standby,
        Message::ActiveSource { address: PhysicalAddress(0x1234) },
        Message::UserControlPressed { ui_command: UiCommand::Mute },
    ];
    for message in messages {
        let mut frame = device.tx_message(&message, LogicalAddress::AudioSystem);
        frame.rx_status = 1;
        let envelope = Envelope::try_from(frame).unwrap();
        assert_eq!(envelope.message, MessageData::Valid(message));
        assert_eq!(envelope.initiator, LogicalAddress::PlaybackDevice1);
        assert_eq!(envelope.destination, LogicalAddress::AudioSystem);
    }
}

// Answer a message while nothing can be sent for some reason; how often that was tried, and the end.
fn try_to_answer(reason: Error) -> (usize, Result<(), Error>) {
    let mut task = task();
    let envelope = received(Message::GiveDevicePowerStatus);
    let (mut handling, mut action) = MessageHandling::start(&envelope, false);
    let mut sent = 0;
    loop {
        let input = match action {
            TaskAction::Return(result) => return (sent, result),
            TaskAction::Transmit(..) => {
                sent += 1;
                TaskInput::Failed(reason.clone())
            }
            _ => TaskInput::Done,
        };
        action = handling.next(&mut task, input);
    }
}

#[test]
fn replies_are_given_up() {
    let aborted = Error::TxError(TxError::Aborted);
    assert_eq!(try_to_answer(aborted.clone()), (4, Err(aborted)));
    let unknown = Error::TxError(TxError::UnknownError);
    assert_eq!(try_to_answer(unknown.clone()), (4, Err(unknown)));
    let nack = Error::TxError(TxError::Nack);
    assert_eq!(try_to_answer(nack.clone()), (1, Err(nack)));
}

#[test]
fn failures_end_the_handling() {
    let mut task = task();
    let envelope = received(Message::SetStreamPath { address: PhysicalAddress(0x1000) });
    let (mut handling, _) = MessageHandling::start(&envelope, false);
    let action = handling.next(&mut task, TaskInput::Done);
    assert!(matches!(action, TaskAction::ReadPhysicalAddress));
    let action = handling.next(&mut task, TaskInput::Failed(Error::Disconnected));
    assert!(matches!(action, TaskAction::Return(Err(Error::Disconnected))));
    assert!(!task.active);
}

// Go through a change of state of a device that has no logical address; whether it is configured.
fn is_configured(task: &mut DeviceTask, address: u16) -> bool {
    let (mut change, mut action) = StateChange::start(false);
    let mut configured = false;
    loop {
        let input = match action {
            LifecycleAction::Return(result) => {
                assert_eq!(result, Ok(()));
                return configured;
            }
            LifecycleAction::ReadPhysicalAddress => {
                LifecycleInput::Address(PhysicalAddress(address))
            }
            LifecycleAction::ReadLogicalAddresses => LifecycleInput::LogicalAddresses(Vec::new()),
            LifecycleAction::ReadVendorId => LifecycleInput::Vendor(None),
            LifecycleAction::Configure => {
                configured = true;
                LifecycleInput::Configured(None)
            }
            _ => LifecycleInput::Done,
        };
        action = change.next(task, input);
    }
}

#[test]
fn a_device_is_not_configured_for_ever() {
    let mut task = task();
    let mut configured = 0;
    for _ in 0..50 {
        if is_configured(&mut task, 0x1000) {
            configured += 1;
        }
    }
    assert_eq!(configured, 20);
}

#[test]
fn tries_are_kept_for_a_connection() {
    let mut task = task();
    for i in 0..40 {
        let connected = i % 2 == 0;
        let address = if connected { 0x1000 } else { 0xffff };
        assert_eq!(is_configured(&mut task, address), connected);
    }
    assert!(!is_configured(&mut task, 0x1000));
    // The tries are all there again once addresses were had and lost.
    task.cached.log_addrs = vec![4];
    assert!(!is_configured(&mut task, 0x1000));
    assert_eq!(task.log_addr_try, 20);
    assert!(is_configured(&mut task, 0x1000));
}

// Handle a message; the keys that go down and up.
fn keys_of(task: &mut DeviceTask, message: Message) -> Vec<(UiCommand, bool)> {
    let (mut handling, mut action) = MessageHandling::start(&received(message), false);
    let mut keys = Vec::new();
    loop {
        match action {
            TaskAction::Return(result) => {
                assert_eq!(result, Ok(()));
                return keys;
            }
            TaskAction::KeyDown(command) => keys.push((command, true)),
            TaskAction::KeyUp(command) => keys.push((command, false)),
            _ => {}
        }
        action = handling.next(task, TaskInput::Done);
    }
}

#[test]
fn one_key_is_down_at_a_time() {
    let mut task = task();
    task.has_uinput = true;
    let pressed = |ui_command| Message::UserControlPressed { ui_command };
    let (up, down) = (UiCommand::Up, UiCommand::Down);
    assert_eq!(keys_of(&mut task, Message::UserControlReleased), vec![]);
    assert_eq!(keys_of(&mut task, pressed(up)), vec![(up, true)]);
    assert_eq!(keys_of(&mut task, pressed(down)), vec![(up, false), (down, true)]);
    assert_eq!(keys_of(&mut task, pressed(down)), vec![(down, false), (down, true)]);
    assert_eq!(keys_of(&mut task, Message::GiveDevicePowerStatus), vec![]);
    assert_eq!(keys_of(&mut task, Message::UserControlReleased), vec![(down, false)]);
    assert_eq!(task.active_key, None);
    assert_eq!(keys_of(&mut task, Message::UserControlReleased), vec![]);
}

#[test]
fn waking_is_given_up() {
    let mut task = task();
    let (mut waking, mut action) = Waking::start();
    let (mut shown, mut waited) = (0, 0);
    loop {
        let input = match action {
            WakeAction::Return(result) => {
                assert_eq!(result, Ok(()));
                break;
            }
            WakeAction::SetActiveSource => {
                shown += 1;
                WakeInput::Done
            }
            WakeAction::Sleep(ms) => {
                waited += ms;
                WakeInput::Done
            }
            _ => WakeInput::Done,
        };
        action = waking.next(&mut task, input);
    }
    assert!(task.awaiting_wake);
    assert_eq!(waited, 100 + 1000 * shown);
}

#[test]
fn waking_ends_once_the_television_answers() {
    let mut task = task();
    let (mut waking, action) = Waking::start();
    assert!(matches!(action, WakeAction::Wake));
    assert!(matches!(waking.next(&mut task, WakeInput::Done), WakeAction::Sleep(100)));
    assert!(matches!(waking.next(&mut task, WakeInput::Done), WakeAction::SetActiveSource));
    task.awaiting_wake = false;
    assert!(matches!(waking.next(&mut task, WakeInput::Done), WakeAction::Return(Ok(()))));
}

#[test]
fn waking_ends_with_the_device() {
    let mut task = task();
    let (mut waking, _) = Waking::start();
    waking.next(&mut task, WakeInput::Done);
    waking.next(&mut task, WakeInput::Done);
    let action = waking.next(&mut task, WakeInput::Failed(Error::NoLogicalAddress));
    assert!(matches!(action, WakeAction::Configure));
    let action = waking.next(&mut task, WakeInput::Failed(Error::Disconnected));
    assert!(matches!(action, WakeAction::Return(Err(Error::Disconnected))));
    assert!(!task.awaiting_wake);
}

#[test]
fn resuming_is_given_up() {
    let mut task = task();
    let (mut resuming, mut action) = Resuming::start();
    let mut waits = Vec::new();
    loop {
        let input = match action {
            WakeAction::Return(_) => break,
            WakeAction::Sleep(ms) => {
                waits.push(ms);
                WakeInput::Done
            }
            WakeAction::Configure => WakeInput::Configured(None),
            WakeAction::ReadPhysicalAddress => WakeInput::Address(PhysicalAddress(0x1000)),
            WakeAction::ReadLogicalAddresses => WakeInput::LogicalAddresses(1),
            _ => WakeInput::Failed(Error::TxError(TxError::Nack)),
        };
        action = resuming.next(&mut task, input);
    }
    assert_eq!(waits.len(), 5);
    assert_eq!(&waits[..2], &[0, 250]);
}

fn settings(physical_address: Option<PhysicalAddress>) -> Settings {
    Settings {
        vendor_id: None,
        logical_address: LogicalAddressType::Playback,
        physical_address,
    }
}

// Configure a device with some capabilities; the address that was set, and the end.
fn configure(
    caps: u32,
    known: Option<DrmConnector>,
    found: Result<Option<DrmConnector>, Error>,
    busy: usize,
) -> (Option<u16>, usize, Result<Option<DrmConnector>, Error>) {
    configure_with(Some(PhysicalAddress(0x2000)), caps, known, found, busy)
}

fn configure_with(
    physical_address: Option<PhysicalAddress>,
    caps: u32,
    known: Option<DrmConnector>,
    found: Result<Option<DrmConnector>, Error>,
    busy: usize,
) -> (Option<u16>, usize, Result<Option<DrmConnector>, Error>) {
    let (mut configuration, mut action) =
        Configuration::start(settings(physical_address), String::from("Deck"), known);
    let (mut address, mut cleared) = (None, 0);
    loop {
        let input = match action {
            ConfigureAction::Return(result) => return (address, cleared, result),
            ConfigureAction::ReadCapabilities => ConfigureInput::Capabilities(caps),
            ConfigureAction::DescribeConnector | ConfigureAction::ReadConnectorInfo => {
                ConfigureInput::Info(ConnectorInfo::DrmConnector { card_no: 0, connector_id: 9 })
            }
            ConfigureAction::ReadEdid => {
                let mut edid = vec![0; 0x100];
                edid[0x80..0x8a].copy_from_slice(&[2, 3, 0, 0, 0x65, 3, 0x0c, 0, 0x31, 0]);
                ConfigureInput::Edid(edid)
            }
            ConfigureAction::FindConnector => match found.clone() {
                Ok(found) => ConfigureInput::Connector(found),
                Err(e) => ConfigureInput::Failed(e),
            },
            ConfigureAction::SetPhysicalAddress(set) => {
                address = Some(set.0);
                ConfigureInput::Done
            }
            ConfigureAction::ReadPhysicalAddress => {
                ConfigureInput::Address(PhysicalAddress(0x1000))
            }
            ConfigureAction::SetOsdName(name) => {
                assert_eq!(name, "Deck");
                ConfigureInput::Done
            }
            ConfigureAction::LookUpConnector(_, own) => {
                ConfigureInput::Connector(Some(connector(own.0)))
            }
            ConfigureAction::ClearLogicalAddresses => {
                cleared += 1;
                if cleared <= busy {
                    ConfigureInput::Failed(Error::SystemError(EBUSY))
                } else {
                    ConfigureInput::Done
                }
            }
            _ => ConfigureInput::Done,
        };
        action = configuration.next(input);
    }
}

#[test]
fn an_address_is_looked_for() {
    // That behind the connector that the device is known to have comes first.
    let (address, _, result) = configure(CEC_CAP_PHYS_ADDR, Some(connector(0)), Ok(None), 0);
    assert_eq!(address, Some(0x3100));
    assert_eq!(result, Ok(Some(connector(0x3100))));
    // Then that of the only connector there is.
    let found = Ok(Some(connector(0x1200)));
    let (address, _, result) = configure(CEC_CAP_PHYS_ADDR, None, found, 0);
    assert_eq!(address, Some(0x1200));
    assert_eq!(result, Ok(Some(connector(0x1200))));
    // Then that of the settings, also where the search fails.
    let (address, _, result) = configure(CEC_CAP_PHYS_ADDR, None, Err(Error::Unsupported), 0);
    assert_eq!((address, result), (Some(0x2000), Ok(None)));
    // Without one, none is set.
    for found in [Ok(None), Err(Error::Unsupported)] {
        let caps = CEC_CAP_PHYS_ADDR | CEC_CAP_LOG_ADDRS;
        assert_eq!(configure_with(None, caps, None, found, 0), (None, 1, Ok(None)));
    }
}

#[test]
fn an_edid_without_an_address_is_an_error() {
    let name = String::from("Deck");
    let (mut configuration, _) = Configuration::start(settings(None), name, Some(connector(0)));
    for input in [
        ConfigureInput::Done,
        ConfigureInput::Done,
        ConfigureInput::Capabilities(CEC_CAP_PHYS_ADDR),
        ConfigureInput::Info(ConnectorInfo::NoConnector),
    ] {
        configuration.next(input);
    }
    assert!(matches!(configuration.next(ConfigureInput::Done), ConfigureAction::ReadEdid));
    let action = configuration.next(ConfigureInput::Edid(vec![0; 0x100]));
    assert!(matches!(action, ConfigureAction::Return(Err(Error::UnknownError(e)))
        if e == "Failed to parse EDID"));
    assert_eq!(configuration.connector, None);
}

#[test]
fn a_device_may_know_its_connector() {
    let (address, _, result) = configure(CEC_CAP_CONNECTOR_INFO, None, Ok(None), 0);
    assert_eq!(address, None);
    assert_eq!(result, Ok(Some(connector(0x1000))));
}

#[test]
fn a_busy_device_is_asked_five_times() {
    let (_, cleared, result) = configure(CEC_CAP_LOG_ADDRS, None, Ok(None), 4);
    assert_eq!((cleared, result), (5, Ok(None)));
    let (_, cleared, result) = configure(CEC_CAP_LOG_ADDRS, None, Ok(None), 5);
    assert_eq!((cleared, result), (5, Err(Error::SystemError(EBUSY))));
}

#[test]
fn another_connector_leaves_a_device_alone() {
    let info = |connector_id| ConnectorInfo::DrmConnector { card_no: 0, connector_id };
    let mut task = task();
    let message = SystemMessage::ReconfigureConnector(info(7));
    let (_, action) = SystemHandling::start(&task, message.clone(), false, false);
    assert!(matches!(action, LifecycleAction::Configure));
    task.connector = Some(connector(0x1000));
    let (mut handling, action) = SystemHandling::start(&task, message.clone(), false, false);
    assert!(matches!(action, LifecycleAction::DescribeConnector));
    let action = handling.next(&mut task, LifecycleInput::Info(info(8)));
    assert!(matches!(action, LifecycleAction::Return(Ok(()))));
    let (mut handling, _) = SystemHandling::start(&task, message, false, false);
    let action = handling.next(&mut task, LifecycleInput::Info(info(7)));
    assert!(matches!(action, LifecycleAction::Configure));
    let action = handling.next(&mut task, LifecycleInput::Configured(None));
    assert!(matches!(action, LifecycleAction::Return(Ok(()))));
    assert_eq!(task.connector, None);
}

#[test]
fn a_reloaded_configuration_is_applied() {
    let mut task = task();
    let (mut handling, action) =
        SystemHandling::start(&task, SystemMessage::ReloadConfig, false, false);
    assert!(matches!(action, LifecycleAction::Configure));
    let action = handling.next(&mut task, LifecycleInput::Configured(None));
    assert!(matches!(action, LifecycleAction::ConfigureUinput));
    let action = handling.next(&mut task, LifecycleInput::Done);
    assert!(matches!(action, LifecycleAction::Return(Ok(()))));
    assert_eq!(KEY_REPEAT_DELAY, 450);
}
