use std::collections::HashMap;

use linux_cec::address::{
    FollowerMode, InitiatorMode, LogicalAddress, LogicalAddressType, PhysicalAddress, VendorId,
};
use linux_cec::codec::Coded;
use linux_cec::config::{Config, Mappings};
use linux_cec::configure::{
    ConfigureAction, ConfigureInput, CEC_CAP_LOG_ADDRS, CEC_CAP_PHYS_ADDR, CEC_CAP_TRANSMIT,
};
use linux_cec::dbus::{self, ButtonPlan, CecConfig, CecDevice, ConfigProperty};
use linux_cec::device::{Envelope, MessageData, PollResult, PollStatus};
use linux_cec::drm::DrmConnector;
use linux_cec::error::Error;
use linux_cec::keys::Key;
use linux_cec::lifecycle::{
    KeyRepeat, LifecycleAction, LifecycleInput, RepeatAction, RepeatInput, StateChange,
    SystemHandling, TaskEvent, TaskStep,
};
use linux_cec::message::{Message, Opcode};
use linux_cec::operand::{AbortReason, OperandEncodable, PowerStatus, UiCommand};
use linux_cec::system::{System, SystemMessage};
use linux_cec::task::{
    static_handlers, Deferred, DeviceTask, HandlerAnswer, MessageHandling, Properties, TaskAction,
    TaskInput,
};
use linux_cec::testing::AsyncDevice;
use linux_cec::wake::{Resuming, WakeAction, WakeInput, Waking};

const KEY_ESC: u16 = 1;
const KEY_ENTER: u16 = 28;
const KEY_EXIT: u16 = 174;

// A daemon with one device in memory, whose decisions are carried out at once.
struct Daemon {
    dev: AsyncDevice,
    task: DeviceTask,
    system: System,
    bus: CecDevice,
    repeats: HashMap<u8, KeyRepeat>,
    keys: Vec<(u16, bool)>,
    actives: Vec<bool>,
    audio: Vec<u8>,
    answer: HandlerAnswer,
    relayed: Vec<(u8, u8, Vec<u8>)>,
    suspended: bool,
    slept: u64,
}

fn configure(
    dev: &mut AsyncDevice,
    system: &System,
    connector: Option<DrmConnector>,
) -> Result<Option<DrmConnector>, Error> {
    let (mut configuration, mut action) = system.configure_dev(connector);
    loop {
        let result = match action {
            ConfigureAction::Return(result) => return result,
            ConfigureAction::ReadDriverName
            | ConfigureAction::ReadAdapterName
            | ConfigureAction::Sleep(_) => Ok(ConfigureInput::Done),
            ConfigureAction::ReadCapabilities => Ok(ConfigureInput::Capabilities(dev.caps)),
            ConfigureAction::ReadConnectorInfo => Ok(ConfigureInput::Info(dev.get_connector_info())),
            ConfigureAction::EnableInitiator => {
                dev.set_initiator_mode(InitiatorMode::Enabled).map(|()| ConfigureInput::Done)
            }
            ConfigureAction::FindConnector => Ok(ConfigureInput::Connector(None)),
            ConfigureAction::SetPhysicalAddress(address) => {
                dev.set_physical_address(address).map(|()| ConfigureInput::Done)
            }
            ConfigureAction::ReadPhysicalAddress => Ok(ConfigureInput::Address(dev.phys_addr)),
            ConfigureAction::ClearLogicalAddresses => {
                dev.clear_logical_addresses().map(|()| ConfigureInput::Done)
            }
            ConfigureAction::SetOsdName(name) => {
                dev.set_osd_name(&name).map(|()| ConfigureInput::Done)
            }
            ConfigureAction::SetVendorId(vendor_id) => {
                dev.set_vendor_id(vendor_id);
                Ok(ConfigureInput::Done)
            }
            ConfigureAction::SetLogicalAddress(ty) => {
                dev.set_logical_addresses(&[ty]).map(|()| ConfigureInput::Done)
            }
            ConfigureAction::EnableFollower => {
                dev.set_follower_mode(FollowerMode::Enabled);
                Ok(ConfigureInput::Done)
            }
            ConfigureAction::DescribeConnector
            | ConfigureAction::ReadEdid
            | ConfigureAction::LookUpConnector(..) => Err(Error::Unsupported),
        };
        action = configuration.next(match result {
            Ok(input) => input,
            Err(e) => ConfigureInput::Failed(e),
        });
    }
}

impl Daemon {
    fn new(setup: fn(&mut AsyncDevice), config: Config) -> Result<Daemon, Error> {
        let mut system = System::new(None);
        system.set_config(config, None);
        assert!(system.find_dev("/dev/null"));
        let mut dev = AsyncDevice::open();
        let (bus, cached): (CecDevice, Properties) = CecDevice::open(
            "/dev/null",
            Ok(dev.phys_addr),
            Ok(dev.log_addrs.clone()),
            Ok(dev.vendor_id),
        )
        .unwrap();
        assert_eq!(bus.dbus_path, "/com/steampowered/CecDaemon1/Devices/Null");
        setup(&mut dev);
        let connector = configure(&mut dev, &system, None)?;
        let uinput = DeviceTask::wants_uinput(&system.config);
        let mut daemon = Daemon {
            dev,
            task: DeviceTask::new(connector, cached, uinput),
            system,
            bus,
            repeats: HashMap::new(),
            keys: Vec::new(),
            actives: Vec::new(),
            audio: Vec::new(),
            answer: HandlerAnswer::Handled,
            relayed: Vec::new(),
            suspended: false,
            slept: 0,
        };
        let request = daemon.system.config.request_active_source;
        assert!(matches!(DeviceTask::run(TaskEvent::Started, request), TaskStep::QueryAudioSystem));
        daemon.query_audio_system();
        if let TaskStep::WithLogicalAddress(deferred) =
            DeviceTask::run(TaskEvent::AudioAsked, request)
        {
            daemon.with_logical_address(deferred);
        }
        daemon.run();
        while daemon.dev.dequeue_tx_message().is_some() {}
        Ok(daemon)
    }

    fn basic() -> Daemon {
        Daemon::new(
            connected,
            Config {
                uinput: false,
                logical_address: LogicalAddressType::Playback,
                ..Config::default()
            },
        )
        .unwrap()
    }

    // Handle all that the device has to say.
    fn run(&mut self) {
        while let Some(status) = self.dev.poll() {
            let TaskStep::HandleStatus(status) = DeviceTask::run(TaskEvent::Polled(Ok(status)), false)
            else {
                panic!();
            };
            for result in self.dev.handle_status(status) {
                let _ = match result {
                    PollResult::Message(envelope) => self.handle_message(envelope),
                    PollResult::StateChange => self.handle_state_change(),
                    _ => Ok(()),
                };
            }
        }
    }

    fn transmit(&mut self, message: Message, destination: LogicalAddress) -> Result<(), Error> {
        self.dev.tx_message(&message, destination).map(|_| ())
    }

    fn query_audio_system(&mut self) {
        if let Some((message, address)) = DeviceTask::query_audio_system(self.dev.log_addrs.len()) {
            let _ = self.transmit(message, address);
        }
    }

    fn with_logical_address(&mut self, deferred: Deferred) {
        if self.task.with_logical_address(deferred, self.dev.log_addrs.len()) {
            self.run_deferred(deferred);
        }
    }

    fn run_deferred(&mut self, deferred: Deferred) {
        match deferred {
            Deferred::PendingActivate => {
                if self.task.pending_activate() {
                    self.actives.push(self.task.cached.active);
                }
                if let Some((message, address)) =
                    DeviceTask::active_source_query(self.dev.log_addrs.len())
                {
                    let _ = self.transmit(message, address);
                }
            }
            Deferred::Wake => {
                let (mut waking, mut action) = Waking::start();
                loop {
                    let input = match action {
                        WakeAction::Return(_) => return,
                        WakeAction::Wake => {
                            let _ = self.transmit(Message::ImageViewOn, LogicalAddress::Tv);
                            WakeInput::Done
                        }
                        WakeAction::SetActiveSource => {
                            let address = self.dev.phys_addr;
                            match self.transmit(
                                Message::ActiveSource { address },
                                LogicalAddress::Broadcast,
                            ) {
                                Ok(()) => WakeInput::Done,
                                Err(e) => WakeInput::Failed(e),
                            }
                        }
                        action => self.carry_out(action),
                    };
                    action = waking.next(&mut self.task, input);
                }
            }
            Deferred::ReportPowerOn => {
                let (message, address) = DeviceTask::report_power_on();
                let _ = self.transmit(message, address);
            }
        }
    }

    fn carry_out(&mut self, action: WakeAction) -> WakeInput {
        match action {
            WakeAction::Sleep(ms) => {
                self.slept += ms;
                WakeInput::Done
            }
            WakeAction::Configure => {
                match configure(&mut self.dev, &self.system, self.task.connector.clone()) {
                    Ok(connector) => WakeInput::Configured(connector),
                    Err(e) => WakeInput::Failed(e),
                }
            }
            WakeAction::ReadPhysicalAddress => WakeInput::Address(self.dev.phys_addr),
            WakeAction::ReadLogicalAddresses => WakeInput::LogicalAddresses(self.dev.log_addrs.len()),
            WakeAction::PollAddress(_) => match self.dev.poll_address() {
                Ok(()) => WakeInput::Done,
                Err(e) => WakeInput::Failed(e),
            },
            _ => panic!(),
        }
    }

    fn handle_message(&mut self, envelope: Envelope) -> Result<(), Error> {
        let allow_standby = self.system.config.allow_standby;
        let (mut handling, mut action) = MessageHandling::start(&envelope, allow_standby);
        loop {
            let input = match action {
                TaskAction::Return(result) => return result,
                TaskAction::EmitReceived | TaskAction::EmitPressed(_) | TaskAction::EmitReleased => {
                    TaskInput::Done
                }
                TaskAction::EmitActiveChanged => {
                    self.actives.push(self.task.cached.active);
                    TaskInput::Done
                }
                TaskAction::EmitAudioChanged => {
                    self.audio.push(self.task.cached.audio_log_addr);
                    TaskInput::Done
                }
                TaskAction::KeyUp(command) => {
                    if let Some(key) = self.system.config.mappings.get(command) {
                        self.keys.push((key.code(), false));
                    }
                    TaskInput::Done
                }
                TaskAction::KeyDown(command) => {
                    if let Some(key) = self.system.config.mappings.get(command) {
                        self.keys.push((key.code(), true));
                    }
                    TaskInput::Done
                }
                TaskAction::ReadPhysicalAddress => TaskInput::Address(self.dev.phys_addr),
                TaskAction::Suspend => {
                    self.suspended = self.system.suspend();
                    TaskInput::Done
                }
                TaskAction::AskHandler(opcode) => {
                    if self.system.has_message_handler(opcode) {
                        self.relayed.push((
                            envelope.initiator.to_primitive(),
                            envelope.destination.to_primitive(),
                            envelope.message.to_bytes(),
                        ));
                        TaskInput::Answer(self.answer.reply(opcode, envelope.initiator))
                    } else {
                        TaskInput::NoHandler
                    }
                }
                TaskAction::Transmit(message, destination) => {
                    match self.transmit(message, destination) {
                        Ok(()) => TaskInput::Done,
                        Err(e) => TaskInput::Failed(e),
                    }
                }
            };
            action = handling.next(&mut self.task, input);
        }
    }

    fn lifecycle(&mut self, action: LifecycleAction) -> LifecycleInput {
        match action {
            LifecycleAction::ReadPhysicalAddress => LifecycleInput::Address(self.dev.phys_addr),
            LifecycleAction::ReadLogicalAddresses => LifecycleInput::LogicalAddresses(
                self.dev.log_addrs.iter().map(|a| a.to_primitive()).collect(),
            ),
            LifecycleAction::ReadVendorId => LifecycleInput::Vendor(self.dev.vendor_id),
            LifecycleAction::Run(deferred) => {
                self.run_deferred(deferred);
                LifecycleInput::Done
            }
            LifecycleAction::WithLogicalAddress(deferred) => {
                self.with_logical_address(deferred);
                LifecycleInput::Done
            }
            LifecycleAction::QueryAudioSystem => {
                self.query_audio_system();
                LifecycleInput::Done
            }
            LifecycleAction::Configure => {
                match configure(&mut self.dev, &self.system, self.task.connector.clone()) {
                    Ok(connector) => LifecycleInput::Configured(connector),
                    Err(e) => LifecycleInput::Failed(e),
                }
            }
            LifecycleAction::Resume => {
                let (mut resuming, mut action) = Resuming::start();
                loop {
                    if let WakeAction::Return(_) = action {
                        return LifecycleInput::Done;
                    }
                    let input = self.carry_out(action);
                    action = resuming.next(&mut self.task, input);
                }
            }
            LifecycleAction::Transmit(message, destination) => {
                match self.transmit(message, destination) {
                    Ok(()) => LifecycleInput::Done,
                    Err(e) => LifecycleInput::Failed(e),
                }
            }
            _ => LifecycleInput::Done,
        }
    }

    fn handle_state_change(&mut self) -> Result<(), Error> {
        let (mut change, mut action) = StateChange::start(self.system.config.request_active_source);
        loop {
            if let LifecycleAction::Return(result) = action {
                return result;
            }
            let input = self.lifecycle(action);
            action = change.next(&mut self.task, input);
        }
    }

    fn send_system_message(&mut self, message: SystemMessage) {
        let (mut handling, mut action) = SystemHandling::start(
            &self.task,
            message,
            self.system.config.request_active_source,
            self.system.config.inactive_source_on_suspend,
        );
        loop {
            if let LifecycleAction::Return(result) = action {
                result.unwrap();
                return;
            }
            let input = self.lifecycle(action);
            action = handling.next(&mut self.task, input);
        }
    }

    fn receive(&mut self, message: Message, initiator: LogicalAddress) {
        self.dev.send_rx_message(message, initiator);
        self.run();
    }

    fn sent(&mut self) -> Option<(Message, LogicalAddress)> {
        self.dev.dequeue_tx_message()
    }

    fn repeat(&mut self, target: u8, input: RepeatInput) {
        let mut repeat = self.repeats.remove(&target).unwrap();
        let mut action = repeat.next(input);
        loop {
            let result = match action {
                RepeatAction::Wait(_) => {
                    self.repeats.insert(target, repeat);
                    return;
                }
                RepeatAction::Return(result) => {
                    result.unwrap();
                    return;
                }
                RepeatAction::Press(key, address) => self.dev.press_user_control(key, address),
                RepeatAction::Release(address) => self.dev.release_user_control(address),
            };
            action = repeat.next(match result {
                Ok(()) => RepeatInput::Done,
                Err(e) => RepeatInput::Failed(e),
            });
        }
    }

    fn carry_out_plan(&mut self, plan: ButtonPlan, target: u8) {
        match plan {
            ButtonPlan::Nothing => {}
            ButtonPlan::Hold { release, log_addr, key } => {
                if release {
                    self.repeat(target, RepeatInput::Cancelled);
                }
                let (repeat, action) = KeyRepeat::start(log_addr, key);
                let RepeatAction::Press(key, address) = action else {
                    panic!();
                };
                self.dev.press_user_control(key, address).unwrap();
                self.repeats.insert(target, repeat);
                self.repeat(target, RepeatInput::Done);
                self.bus.hold(target, key);
            }
            ButtonPlan::Release => self.repeat(target, RepeatInput::Cancelled),
            ButtonPlan::SendRelease(address) => self.dev.release_user_control(address).unwrap(),
            ButtonPlan::Once { release, log_addr, key } => {
                if release {
                    self.repeat(target, RepeatInput::Cancelled);
                }
                self.dev.press_user_control(key, log_addr).unwrap();
                self.dev.release_user_control(log_addr).unwrap();
            }
        }
    }

    fn press(&mut self, command: UiCommand, target: LogicalAddress) {
        let target = target.to_primitive();
        let plan = self.bus.press_user_control(&bytes_of(command), target).unwrap();
        self.carry_out_plan(plan, target);
    }

    fn press_once(&mut self, command: UiCommand, target: LogicalAddress) {
        let target = target.to_primitive();
        let plan = self.bus.press_once_user_control(&bytes_of(command), target).unwrap();
        self.carry_out_plan(plan, target);
    }

    fn release(&mut self, target: LogicalAddress) {
        let target = target.to_primitive();
        let plan = self.bus.release_user_control(target).unwrap();
        self.carry_out_plan(plan, target);
    }

    fn elapse(&mut self, target: LogicalAddress) {
        self.repeat(target.to_primitive(), RepeatInput::Elapsed);
    }
}

fn connected(dev: &mut AsyncDevice) {
    dev.caps = CEC_CAP_LOG_ADDRS | CEC_CAP_TRANSMIT;
    dev.phys_addr = PhysicalAddress::from(0x1000);
}

fn bytes_of(command: UiCommand) -> Vec<u8> {
    let mut bytes = Vec::new();
    command.to_bytes(&mut bytes);
    bytes
}

fn mapped(entries: &[(UiCommand, u16)]) -> Mappings {
    let mut mappings = Mappings::new();
    for (command, code) in entries {
        mappings.insert(*command, Key::try_from(*code).unwrap());
    }
    mappings
}

fn route(from: u16, to: u16) -> Message {
    Message::RoutingChange {
        original_address: PhysicalAddress::from(from),
        new_address: PhysicalAddress::from(to),
    }
}

fn pressed(ui_command: UiCommand) -> Option<(Message, LogicalAddress)> {
    Some((Message::UserControlPressed { ui_command }, LogicalAddress::Tv))
}

fn released() -> Option<(Message, LogicalAddress)> {
    Some((Message::UserControlReleased, LogicalAddress::Tv))
}

fn inactive_source() -> Option<(Message, LogicalAddress)> {
    Some((
        Message::InactiveSource { address: PhysicalAddress::from(0x1000) },
        LogicalAddress::Tv,
    ))
}

fn standby() -> Option<(Message, LogicalAddress)> {
    Some((Message::Standby, LogicalAddress::Tv))
}

fn power_on() -> Option<(Message, LogicalAddress)> {
    Some((
        Message::ReportPowerStatus { status: PowerStatus::On },
        LogicalAddress::Broadcast,
    ))
}

#[test]
fn test_no_caps() {
    let config = Config { uinput: false, ..Config::default() };
    assert!(Daemon::new(|_| {}, config).is_err());
}

#[test]
fn test_caps_transmit_only() {
    let config = Config { uinput: false, ..Config::default() };
    let test = Daemon::new(|dev| dev.caps = CEC_CAP_TRANSMIT, config).unwrap();
    assert_eq!(test.task.cached.phys_addr, 0xFFFF);
    assert!(test.task.cached.log_addrs.is_empty());
}

#[test]
fn test_caps_log_addr() {
    let config = Config { uinput: false, ..Config::default() };
    let test = Daemon::new(connected, config).unwrap();
    assert_eq!(test.task.cached.phys_addr, 0x1000);
    assert_eq!(test.task.cached.log_addrs, &[LogicalAddress::PlaybackDevice1.to_primitive()]);
}

#[test]
fn test_tx_no_log_addr() {
    let config = Config { uinput: false, ..Config::default() };
    let mut test = Daemon::new(|dev| dev.caps = CEC_CAP_TRANSMIT, config).unwrap();
    assert!(test.task.cached.log_addrs.is_empty());
    let target = CecDevice::read_target(0).unwrap();
    let err = test.dev.standby(target).unwrap_err();
    assert_eq!(err, Error::NoLogicalAddress);
    assert_eq!(
        dbus::Error::Cec(err).name(),
        "com.steampowered.CecDaemon1.Error.NoLogicalAddress"
    );
}

#[test]
fn test_tx_invalid_log_addr() {
    let config = Config { uinput: false, ..Config::default() };
    let mut test = Daemon::new(
        |dev| {
            connected(dev);
            dev.force_unregistered = true;
        },
        config,
    )
    .unwrap();
    assert_eq!(test.task.cached.phys_addr, 0x1000);
    assert_eq!(test.task.cached.log_addrs, &[LogicalAddress::Unregistered.to_primitive()]);
    let err = test.dev.standby(LogicalAddress::Tv).unwrap_err();
    assert_eq!(err, Error::InvalidData);
    assert_eq!(dbus::Error::Cec(err).name(), "com.steampowered.CecDaemon1.Error.InvalidData");
}

#[test]
fn test_tx_basic() {
    let mut test = Daemon::basic();
    assert_eq!(test.task.cached.phys_addr, 0x1000);
    assert_eq!(test.task.cached.log_addrs, &[LogicalAddress::PlaybackDevice1.to_primitive()]);
    test.dev.standby(LogicalAddress::Tv).unwrap();
    assert_eq!(test.sent(), standby());
}

#[test]
fn test_system_message_standby() {
    let mut test = Daemon::basic();
    test.receive(route(0x0000, 0x1000), LogicalAddress::Tv);
    test.send_system_message(SystemMessage::Standby { standby_tv: true, force: false });
    assert_eq!(test.sent(), inactive_source());
    assert_eq!(test.sent(), standby());
    assert_eq!(test.sent(), None);
}

#[test]
fn test_system_message_standby_without_inactive_source() {
    let mut test = Daemon::basic();
    test.system.config.inactive_source_on_suspend = false;
    test.receive(route(0x0000, 0x1000), LogicalAddress::Tv);
    test.send_system_message(SystemMessage::Standby { standby_tv: true, force: false });
    assert_eq!(test.sent(), standby());
    assert_eq!(test.sent(), None);
}

#[test]
fn test_system_message_standby_inactive() {
    let mut test = Daemon::basic();
    test.receive(route(0x1000, 0x2000), LogicalAddress::Tv);
    test.send_system_message(SystemMessage::Standby { standby_tv: true, force: false });
    assert_eq!(test.sent(), inactive_source());
    assert_eq!(test.sent(), None);
}

#[test]
fn test_system_message_standby_inactive_forced() {
    let mut test = Daemon::basic();
    test.receive(route(0x1000, 0x2000), LogicalAddress::Tv);
    test.send_system_message(SystemMessage::Standby { standby_tv: true, force: true });
    assert_eq!(test.sent(), inactive_source());
    assert_eq!(test.sent(), standby());
    assert_eq!(test.sent(), None);
}

#[test]
fn test_system_message_standby_no_sleep() {
    let mut test = Daemon::basic();
    test.receive(route(0x0000, 0x1000), LogicalAddress::Tv);
    test.send_system_message(SystemMessage::Standby { standby_tv: false, force: false });
    assert_eq!(test.sent(), inactive_source());
    assert_eq!(test.sent(), None);
}

#[test]
fn test_rx_abort() {
    let mut test = Daemon::basic();
    test.receive(Message::RecordOff, LogicalAddress::Tv);
    assert_eq!(
        test.sent(),
        Some((
            Message::FeatureAbort {
                opcode: Opcode::RecordOff.to_primitive(),
                abort_reason: AbortReason::UnrecognizedOp,
            },
            LogicalAddress::Tv
        ))
    );
}

#[test]
fn test_abort_no_abort() {
    let mut test = Daemon::basic();
    test.receive(
        Message::FeatureAbort {
            opcode: Opcode::FeatureAbort.to_primitive(),
            abort_reason: AbortReason::UnrecognizedOp,
        },
        LogicalAddress::Tv,
    );
    assert_eq!(test.sent(), None);
}

#[test]
fn test_give_device_power_status() {
    let mut test = Daemon::basic();
    test.receive(Message::GiveDevicePowerStatus, LogicalAddress::Tv);
    assert_eq!(
        test.sent(),
        Some((
            Message::ReportPowerStatus { status: PowerStatus::On },
            LogicalAddress::Tv
        ))
    );
}

#[test]
fn test_key_repeat_none() {
    let mut test = Daemon::basic();
    test.press(UiCommand::Select, LogicalAddress::Tv);
    test.release(LogicalAddress::Tv);
    assert_eq!(test.sent(), pressed(UiCommand::Select));
    assert_eq!(test.sent(), released());
    assert_eq!(test.sent(), None);
}

#[test]
fn test_key_press_once() {
    let mut test = Daemon::basic();
    test.press_once(UiCommand::Select, LogicalAddress::Tv);
    assert_eq!(test.sent(), pressed(UiCommand::Select));
    assert_eq!(test.sent(), released());
    assert_eq!(test.sent(), None);
}

#[test]
fn test_key_repeat() {
    let mut test = Daemon::basic();
    test.press(UiCommand::Select, LogicalAddress::Tv);
    test.elapse(LogicalAddress::Tv);
    test.release(LogicalAddress::Tv);
    assert_eq!(test.sent(), pressed(UiCommand::Select));
    assert_eq!(test.sent(), pressed(UiCommand::Select));
    assert_eq!(test.sent(), released());
    assert_eq!(test.sent(), None);
}

#[test]
fn test_key_double_press() {
    let mut test = Daemon::basic();
    test.press(UiCommand::Select, LogicalAddress::Tv);
    test.press(UiCommand::Select, LogicalAddress::Tv);
    test.release(LogicalAddress::Tv);
    assert_eq!(test.sent(), pressed(UiCommand::Select));
    assert_eq!(test.sent(), released());
    assert_eq!(test.sent(), None);
}

#[test]
fn test_key_change() {
    let mut test = Daemon::basic();
    test.press(UiCommand::Select, LogicalAddress::Tv);
    test.press(UiCommand::Back, LogicalAddress::Tv);
    test.release(LogicalAddress::Tv);
    assert_eq!(test.sent(), pressed(UiCommand::Select));
    assert_eq!(test.sent(), released());
    assert_eq!(test.sent(), pressed(UiCommand::Back));
    assert_eq!(test.sent(), released());
    assert_eq!(test.sent(), None);
}

#[test]
fn test_key_change_once() {
    let mut test = Daemon::basic();
    test.press(UiCommand::Select, LogicalAddress::Tv);
    test.press_once(UiCommand::Back, LogicalAddress::Tv);
    assert_eq!(test.sent(), pressed(UiCommand::Select));
    assert_eq!(test.sent(), released());
    assert_eq!(test.sent(), pressed(UiCommand::Back));
    assert_eq!(test.sent(), released());
    assert_eq!(test.sent(), None);
}

#[test]
fn test_key_not_changed_once() {
    let mut test = Daemon::basic();
    test.press(UiCommand::Select, LogicalAddress::Tv);
    test.press_once(UiCommand::Select, LogicalAddress::Tv);
    assert_eq!(test.sent(), pressed(UiCommand::Select));
    assert_eq!(test.sent(), released());
    assert_eq!(test.sent(), None);
}

#[test]
fn test_key_release_unmatched() {
    let mut test = Daemon::basic();
    test.release(LogicalAddress::Tv);
    assert_eq!(test.sent(), released());
    assert_eq!(test.sent(), None);
}

#[test]
fn a_call_names_a_button_and_a_device() {
    let mut test = Daemon::basic();
    assert!(matches!(
        test.bus.press_user_control(&[0xFF], 16),
        Err(Error::InvalidValueForType { ty: "LogicalAddress", .. })
    ));
    assert!(matches!(
        test.bus.press_user_control(&[0xFF], 0),
        Err(Error::InvalidValueForType { .. })
    ));
    assert!(test.bus.release_user_control(16).is_err());
}

#[test]
fn test_mapped_keys() {
    let config = Config {
        uinput: true,
        mappings: mapped(&[(UiCommand::Enter, KEY_ENTER)]),
        logical_address: LogicalAddressType::Playback,
        ..Config::default()
    };
    let mut test = Daemon::new(connected, config).unwrap();
    let enter = Message::UserControlPressed { ui_command: UiCommand::Enter };
    test.dev.queue_rx_message(enter, LogicalAddress::Tv);
    test.dev.queue_rx_message(Message::UserControlReleased, LogicalAddress::Tv);
    test.run();
    assert_eq!(test.keys, vec![(KEY_ENTER, true), (KEY_ENTER, false)]);
}

#[test]
fn test_unmapped_keys() {
    let config = Config {
        uinput: true,
        mappings: mapped(&[(UiCommand::Enter, KEY_ENTER)]),
        logical_address: LogicalAddressType::Playback,
        ..Config::default()
    };
    let mut test = Daemon::new(connected, config).unwrap();
    let back = Message::UserControlPressed { ui_command: UiCommand::Back };
    test.dev.queue_rx_message(back, LogicalAddress::Tv);
    test.dev.queue_rx_message(Message::UserControlReleased, LogicalAddress::Tv);
    test.run();
    assert!(test.keys.is_empty());
}

#[test]
fn test_mapped_keys_change() {
    let config = Config {
        uinput: true,
        mappings: mapped(&[(UiCommand::Enter, KEY_ENTER), (UiCommand::Back, KEY_EXIT)]),
        logical_address: LogicalAddressType::Playback,
        ..Config::default()
    };
    let mut test = Daemon::new(connected, config).unwrap();
    let enter = Message::UserControlPressed { ui_command: UiCommand::Enter };
    let back = Message::UserControlPressed { ui_command: UiCommand::Back };
    test.dev.queue_rx_message(enter, LogicalAddress::Tv);
    test.dev.queue_rx_message(back, LogicalAddress::Tv);
    test.dev.queue_rx_message(Message::UserControlReleased, LogicalAddress::Tv);
    test.run();
    assert_eq!(
        test.keys,
        vec![(KEY_ENTER, true), (KEY_ENTER, false), (KEY_EXIT, true), (KEY_EXIT, false)]
    );
}

#[test]
fn test_active_changed() {
    let mut test = Daemon::basic();
    test.receive(route(0x0, 0x1000), LogicalAddress::Tv);
    assert!(test.actives.iter().all(|active| *active));
    assert!(test.task.cached.active);
    test.actives.clear();

    test.receive(route(0x1000, 0x2000), LogicalAddress::Tv);
    assert_eq!(test.actives, vec![false]);
    assert!(!test.task.cached.active);

    test.receive(route(0x2000, 0x1000), LogicalAddress::Tv);
    assert_eq!(test.actives, vec![false, true]);
    assert!(test.task.cached.active);
}

#[test]
fn test_no_audio_system() {
    let test = Daemon::basic();
    assert_eq!(test.task.cached.audio_log_addr, 0);
}

#[test]
fn test_audio_system_later() {
    let mut test = Daemon::basic();
    assert_eq!(test.task.cached.audio_log_addr, LogicalAddress::Tv.to_primitive());
    test.receive(Message::SystemAudioModeStatus { status: true }, LogicalAddress::AudioSystem);
    assert_eq!(test.audio, vec![LogicalAddress::AudioSystem.to_primitive()]);
    assert_eq!(test.task.cached.audio_log_addr, LogicalAddress::AudioSystem.to_primitive());
}

#[test]
fn test_audio_system_later_removed() {
    let mut test = Daemon::basic();
    assert_eq!(test.task.cached.audio_log_addr, LogicalAddress::Tv.to_primitive());
    test.receive(Message::SystemAudioModeStatus { status: true }, LogicalAddress::AudioSystem);
    assert_eq!(test.audio, vec![LogicalAddress::AudioSystem.to_primitive()]);
    assert_eq!(test.task.cached.audio_log_addr, LogicalAddress::AudioSystem.to_primitive());

    test.receive(Message::SystemAudioModeStatus { status: false }, LogicalAddress::AudioSystem);
    assert_eq!(
        test.audio,
        vec![LogicalAddress::AudioSystem.to_primitive(), LogicalAddress::Tv.to_primitive()]
    );
    assert_eq!(test.task.cached.audio_log_addr, LogicalAddress::Tv.to_primitive());
}

#[test]
fn test_wake_from_standby_not_deferred() {
    let mut test = Daemon::basic();
    assert_eq!(test.task.cached.log_addrs, &[LogicalAddress::PlaybackDevice1.to_primitive()]);
    test.send_system_message(SystemMessage::Wake { wake_tv: false, from_standby: true });
    assert_eq!(test.sent(), power_on());
}

#[test]
fn test_wake_from_standby_restores_logical_address() {
    let mut test = Daemon::basic();
    test.dev.clear_logical_addresses().unwrap();
    assert!(test.dev.log_addrs.is_empty());
    test.send_system_message(SystemMessage::Wake { wake_tv: false, from_standby: true });
    assert_eq!(test.sent(), power_on());
    assert_eq!(test.dev.log_addrs, &[LogicalAddress::PlaybackDevice1]);
}

#[test]
fn test_wake_from_standby_retries_reconfiguration_until_tv_reachable() {
    let mut test = Daemon::basic();
    test.dev.queue_poll_result(false);
    test.dev.queue_poll_result(true);
    test.send_system_message(SystemMessage::Wake { wake_tv: false, from_standby: true });
    assert_eq!(test.sent(), power_on());
    assert!(test.dev.poll_results.is_empty());
    assert_eq!(test.slept, 250);
}

#[test]
fn the_television_is_woken_and_shown_the_device() {
    let mut test = Daemon::basic();
    test.send_system_message(SystemMessage::Wake { wake_tv: true, from_standby: false });
    assert_eq!(test.sent(), Some((Message::ImageViewOn, LogicalAddress::Tv)));
    assert_eq!(
        test.sent(),
        Some((
            Message::ActiveSource { address: PhysicalAddress::from(0x1000) },
            LogicalAddress::Broadcast
        ))
    );
}

#[test]
fn standby_is_followed_where_it_is_allowed() {
    let mut test = Daemon::basic();
    test.receive(Message::Standby, LogicalAddress::Tv);
    assert!(!test.suspended);
    assert_eq!(
        test.sent(),
        Some((
            Message::FeatureAbort {
                opcode: Opcode::Standby.to_primitive(),
                abort_reason: AbortReason::UnrecognizedOp,
            },
            LogicalAddress::Tv
        ))
    );
    test.system.config.allow_standby = true;
    test.receive(Message::Standby, LogicalAddress::Tv);
    assert!(test.suspended);
    assert_eq!(test.sent(), None);
}

#[test]
fn the_active_source_answers_for_itself() {
    let mut test = Daemon::basic();
    test.receive(route(0x0, 0x1000), LogicalAddress::Tv);
    while test.sent().is_some() {}
    test.receive(Message::RequestActiveSource, LogicalAddress::Tv);
    assert_eq!(
        test.sent(),
        Some((
            Message::ActiveSource { address: PhysicalAddress::from(0x1000) },
            LogicalAddress::Broadcast
        ))
    );
}

#[test]
fn work_waits_for_a_logical_address() {
    let mut test = Daemon::basic();
    test.dev.clear_logical_addresses().unwrap();
    test.with_logical_address(Deferred::ReportPowerOn);
    assert_eq!(test.sent(), None);
    assert_eq!(test.task.queue, vec![Deferred::ReportPowerOn]);
    test.run();
    assert!(test.task.cached.log_addrs.is_empty());
    test.dev.statuses.push(PollStatus::GotEvent);
    test.run();
    // The device was configured again, got its address back, and what had waited was done.
    assert_eq!(test.dev.log_addrs, &[LogicalAddress::PlaybackDevice1]);
    assert!(test.task.queue.is_empty());
    assert_eq!(test.sent(), power_on());
}

#[test]
fn a_physical_address_is_set_where_the_device_has_none() {
    let config = Config {
        uinput: false,
        physical_address: Some(PhysicalAddress::from(0x3200)),
        ..Config::default()
    };
    let test = Daemon::new(
        |dev| dev.caps = CEC_CAP_PHYS_ADDR | CEC_CAP_LOG_ADDRS | CEC_CAP_TRANSMIT,
        config,
    )
    .unwrap();
    assert_eq!(test.dev.phys_addr, PhysicalAddress::from(0x3200));
}

fn handlers(system: &System) -> Vec<u8> {
    let fixed: Vec<u8> = static_handlers().iter().map(|o| o.to_primitive()).collect();
    dbus::handled_messages(system).into_iter().filter(|o| !fixed.contains(o)).collect()
}

#[test]
fn test_no_handlers() {
    let test = Daemon::new(connected, Config { uinput: false, ..Config::default() }).unwrap();
    assert!(handlers(&test.system).is_empty());
    assert!((0..=255).all(|opcode| !test.system.has_message_handler(opcode)));
}

#[test]
fn test_resume_wake_is_one_time() {
    let mut system = System::new(None);
    system.resume_wake_deadline = Some(1000 + 5000);
    assert!(system.take_resume_wake(1000));
    assert!(!system.take_resume_wake(1000));

    system.resume_wake_deadline = Some(1000);
    assert!(!system.take_resume_wake(1000));
}

#[test]
fn test_register_handler_drop() {
    let mut system = System::new(None);
    let opcode = Opcode::GetCecVersion.to_primitive();
    assert!(system.register_message_handler(opcode, String::from(":1.7")));
    assert_eq!(handlers(&system), vec![opcode]);
    assert!(!system.unregister_message_handler(opcode, ":1.8"));
    assert!(system.unregister_message_handler(opcode, ":1.7"));
    assert!(handlers(&system).is_empty());
}

#[test]
fn test_register_handler_relay() {
    let mut test = Daemon::basic();
    let opcode = Opcode::GetCecVersion.to_primitive();
    assert!(test.system.register_message_handler(opcode, String::from(":1.7")));
    test.receive(Message::GetCecVersion, LogicalAddress::Tv);
    assert_eq!(
        test.relayed,
        vec![(
            LogicalAddress::Tv.to_primitive(),
            LogicalAddress::PlaybackDevice1.to_primitive(),
            vec![opcode]
        )]
    );
    assert_eq!(test.sent(), None);
}

#[test]
fn test_register_handler_timeout() {
    let mut test = Daemon::basic();
    let opcode = Opcode::GetCecVersion.to_primitive();
    assert!(test.system.register_message_handler(opcode, String::from(":1.7")));
    test.answer = HandlerAnswer::Silent;
    test.receive(Message::GetCecVersion, LogicalAddress::Tv);
    assert_eq!(
        test.sent(),
        Some((
            Message::FeatureAbort { opcode, abort_reason: AbortReason::Undetermined },
            LogicalAddress::Tv
        ))
    );
}

#[test]
fn test_register_handler_abort() {
    let mut test = Daemon::basic();
    let opcode = Opcode::GetCecVersion.to_primitive();
    assert!(test.system.register_message_handler(opcode, String::from(":1.7")));
    test.answer = HandlerAnswer::Refused(AbortReason::Refused);
    test.receive(Message::GetCecVersion, LogicalAddress::Tv);
    assert_eq!(
        test.sent(),
        Some((
            Message::FeatureAbort { opcode, abort_reason: AbortReason::Refused },
            LogicalAddress::Tv
        ))
    );
}

#[test]
fn test_double_register_handler() {
    let mut system = System::new(None);
    let get = Opcode::GetCecVersion.to_primitive();
    let version = Opcode::CecVersion.to_primitive();
    assert!(system.register_message_handler(get, String::from(":1.7")));
    assert!(!system.register_message_handler(get, String::from(":1.7")));
    assert_eq!(handlers(&system), vec![get]);
    assert!(system.register_message_handler(version, String::from(":1.7")));
    assert_eq!(handlers(&system), vec![version, get]);
}

// The configuration that is shown once a daemon has taken it over.
fn show(config: &Config) -> (System, CecConfig) {
    let mut system = System::new(None);
    system.set_config(config.copy(), None);
    let shown = CecConfig::new(&system.config);
    (system, shown)
}

#[test]
fn test_default_config_readout() {
    let config = Config::default();
    let (_, shown) = show(&config);
    assert_eq!(shown.osd_name(), "CEC Device");
    assert_eq!(shown.vendor_id(), -1);
    assert_eq!(shown.logical_address(), LogicalAddressType::Playback.to_primitive());
    let mappings: HashMap<Vec<u8>, u16> = shown.mappings().into_iter().collect();
    let defaults = Mappings::defaults();
    assert_eq!(mappings.len(), defaults.len());
    for i in 0..defaults.len() {
        let (command, key) = defaults.get_entry(i);
        assert_eq!(mappings[&bytes_of(command)], key.code());
    }
    assert_eq!(shown.wake_tv(), config.wake_tv);
    assert_eq!(shown.suspend_tv(), config.suspend_tv);
    assert_eq!(
        shown.inactive_source_on_suspend(),
        config.inactive_source_on_suspend
    );
    assert_eq!(shown.allow_standby(), config.allow_standby);
    assert_eq!(shown.uinput(), config.uinput);

    let mut system = System::new(Some(String::from("deck")));
    system.set_config(Config::default(), Some(String::from("deck")));
    assert_eq!(CecConfig::new(&system.config).osd_name(), "deck");
}

#[test]
fn a_removed_name_is_not_advertised() {
    let mut system = System::new(None);
    let named = Config { osd_name: Some(String::from("Foo")), ..Config::default() };
    system.set_config(named, Some(String::from("deck")));
    assert_eq!(system.osd_name, "Foo");
    system.set_config(Config::default(), Some(String::from("deck")));
    assert_eq!(system.osd_name, "deck");
    assert_eq!(system.config.osd_name.as_deref(), Some("deck"));
    assert_eq!(system.trimmed_osd_name(), "deck");
    system.set_config(Config::default(), None);
    assert_eq!(system.osd_name, "CEC Device");
    let mut dev = AsyncDevice::open();
    connected(&mut dev);
    assert_eq!(configure(&mut dev, &system, None), Ok(None));
    let name: Vec<u8> = (0..dev.osd_name.count()).map(|i| dev.osd_name.element(i)).collect();
    assert_eq!(name, b"CEC Device");
}

#[test]
fn test_osd_name_config_readout() {
    let config = Config { osd_name: Some(String::from("CEC2")), ..Config::default() };
    assert_eq!(show(&config).1.osd_name(), "CEC2");
}

#[test]
fn test_osd_name_config_reconfig() {
    let config = Config { osd_name: Some(String::from("CEC2")), ..Config::default() };
    let (mut system, mut shown) = show(&config);
    system.config.osd_name = Some(String::from("CEC3"));
    assert_eq!(shown.reconfigure(&system.config), vec![ConfigProperty::OsdName]);
    assert!(shown.reconfigure(&system.config).is_empty());
    assert_eq!(shown.osd_name(), "CEC3");
}

#[test]
fn test_vendor_id_config_readout() {
    let config = Config { vendor_id: Some(VendorId([0x12, 0x34, 0x56])), ..Config::default() };
    assert_eq!(show(&config).1.vendor_id(), 0x123456);
}

#[test]
fn test_vendor_id_config_reconfig() {
    let config = Config { vendor_id: Some(VendorId([0x12, 0x34, 0x56])), ..Config::default() };
    let (mut system, mut shown) = show(&config);
    system.config.vendor_id = Some(VendorId([0x56, 0x34, 0x12]));
    assert_eq!(shown.reconfigure(&system.config), vec![ConfigProperty::VendorId]);
    assert_eq!(shown.vendor_id(), 0x563412);
}

#[test]
fn test_logical_address_config_readout() {
    let config = Config { logical_address: LogicalAddressType::AudioSystem, ..Config::default() };
    assert_eq!(
        show(&config).1.logical_address(),
        LogicalAddressType::AudioSystem.to_primitive()
    );
}

#[test]
fn test_logical_address_config_reconfig() {
    let config = Config { logical_address: LogicalAddressType::AudioSystem, ..Config::default() };
    let (mut system, mut shown) = show(&config);
    system.config.logical_address = LogicalAddressType::Record;
    assert_eq!(shown.reconfigure(&system.config), vec![ConfigProperty::LogicalAddress]);
    assert_eq!(shown.logical_address(), LogicalAddressType::Record.to_primitive());
    system.config.logical_address = LogicalAddressType::Unregistered;
    assert_eq!(shown.reconfigure(&system.config), vec![ConfigProperty::LogicalAddress]);
    assert_eq!(shown.logical_address(), LogicalAddressType::Playback.to_primitive());
}

#[test]
fn test_mappings_config_readout() {
    let config = Config {
        mappings: mapped(&[(UiCommand::Enter, KEY_ENTER)]),
        ..Config::default()
    };
    assert_eq!(
        show(&config).1.mappings(),
        vec![(bytes_of(UiCommand::Enter), KEY_ENTER)]
    );
}

#[test]
fn mappings_are_told_by_their_contents() {
    let config = Config {
        mappings: mapped(&[(UiCommand::Enter, KEY_ENTER), (UiCommand::Back, KEY_ESC)]),
        ..Config::default()
    };
    let (mut system, mut shown) = show(&config);
    system.config.mappings =
        mapped(&[(UiCommand::Back, KEY_ESC), (UiCommand::Enter, KEY_ENTER)]);
    assert!(shown.reconfigure(&system.config).is_empty());
    system.config.mappings =
        mapped(&[(UiCommand::Back, KEY_EXIT), (UiCommand::Enter, KEY_ENTER)]);
    assert_eq!(shown.reconfigure(&system.config), vec![ConfigProperty::Mappings]);
}

#[test]
fn test_wake_tv_config_readout() {
    let mut config = Config::default();
    config.wake_tv = !config.wake_tv;
    assert_eq!(show(&config).1.wake_tv(), config.wake_tv);
}

#[test]
fn test_wake_tv_config_reconfig() {
    let config = Config { wake_tv: false, ..Config::default() };
    let (mut system, mut shown) = show(&config);
    system.config.wake_tv = true;
    assert_eq!(shown.reconfigure(&system.config), vec![ConfigProperty::WakeTv]);
    assert!(shown.wake_tv());
}

#[test]
fn test_suspend_tv_config_readout() {
    let mut config = Config::default();
    config.suspend_tv = !config.suspend_tv;
    assert_eq!(show(&config).1.suspend_tv(), config.suspend_tv);
}

#[test]
fn test_suspend_tv_config_reconfig() {
    let config = Config { suspend_tv: false, ..Config::default() };
    let (mut system, mut shown) = show(&config);
    system.config.suspend_tv = true;
    assert_eq!(shown.reconfigure(&system.config), vec![ConfigProperty::SuspendTv]);
    assert!(shown.suspend_tv());
}

#[test]
fn test_inactive_source_on_suspend_config_readout() {
    let mut config = Config::default();
    config.inactive_source_on_suspend = !config.inactive_source_on_suspend;
    assert_eq!(
        show(&config).1.inactive_source_on_suspend(),
        config.inactive_source_on_suspend
    );
}

#[test]
fn test_inactive_source_on_suspend_config_reconfig() {
    let config = Config { inactive_source_on_suspend: false, ..Config::default() };
    let (mut system, mut shown) = show(&config);
    system.config.inactive_source_on_suspend = true;
    assert_eq!(
        shown.reconfigure(&system.config),
        vec![ConfigProperty::InactiveSourceOnSuspend]
    );
    assert!(shown.inactive_source_on_suspend());
}

#[test]
fn test_allow_standby_config_readout() {
    let mut config = Config::default();
    config.allow_standby = !config.allow_standby;
    assert_eq!(show(&config).1.allow_standby(), config.allow_standby);
}

#[test]
fn test_allow_standby_config_reconfig() {
    let config = Config { allow_standby: false, ..Config::default() };
    let (mut system, mut shown) = show(&config);
    system.config.allow_standby = true;
    assert_eq!(shown.reconfigure(&system.config), vec![ConfigProperty::AllowStandby]);
    assert!(shown.allow_standby());
}

#[test]
fn test_uinput_config_readout() {
    let mut config = Config::default();
    config.uinput = !config.uinput;
    assert_eq!(show(&config).1.uinput(), config.uinput);
}

#[test]
fn test_uinput_config_reconfig() {
    let config = Config { uinput: false, ..Config::default() };
    let (mut system, mut shown) = show(&config);
    system.config.uinput = true;
    assert_eq!(shown.reconfigure(&system.config), vec![ConfigProperty::Uinput]);
    assert!(shown.uinput());
}

#[test]
fn test_request_active_source_config_readout() {
    let mut config = Config::default();
    config.request_active_source = !config.request_active_source;
    assert_eq!(
        show(&config).1.request_active_source(),
        config.request_active_source
    );
}

#[test]
fn test_request_active_source_config_reconfig() {
    let config = Config { request_active_source: false, ..Config::default() };
    let (mut system, mut shown) = show(&config);
    system.config.request_active_source = true;
    assert_eq!(shown.reconfigure(&system.config), vec![ConfigProperty::RequestActiveSource]);
    assert!(shown.request_active_source());
}

fn tell_audio(plan: Result<ButtonPlan, Error>) -> Vec<(Message, LogicalAddress)> {
    let mut test = Daemon::basic();
    test.carry_out_plan(plan.unwrap(), 0);
    let mut sent = Vec::new();
    while let Some(message) = test.sent() {
        sent.push(message);
    }
    sent
}

fn tapped(ui_command: UiCommand, address: LogicalAddress) -> Vec<(Message, LogicalAddress)> {
    vec![
        (Message::UserControlPressed { ui_command }, address),
        (Message::UserControlReleased, address),
    ]
}

#[test]
fn test_volume_up() {
    let test = Daemon::basic();
    assert_eq!(
        tell_audio(CecDevice::volume_up(&test.task.cached, 0)),
        tapped(UiCommand::VolumeUp, LogicalAddress::Tv)
    );
}

#[test]
fn test_volume_down() {
    let test = Daemon::basic();
    assert_eq!(
        tell_audio(CecDevice::volume_down(&test.task.cached, 0)),
        tapped(UiCommand::VolumeDown, LogicalAddress::Tv)
    );
}

#[test]
fn test_mute() {
    let test = Daemon::basic();
    assert_eq!(
        tell_audio(CecDevice::mute(&test.task.cached, 0)),
        tapped(UiCommand::Mute, LogicalAddress::Tv)
    );
}

#[test]
fn sound_goes_to_what_plays_it() {
    let mut test = Daemon::basic();
    test.receive(Message::SystemAudioModeStatus { status: true }, LogicalAddress::AudioSystem);
    assert_eq!(
        tell_audio(CecDevice::volume_up(&test.task.cached, 255)),
        tapped(UiCommand::VolumeUp, LogicalAddress::AudioSystem)
    );
}

#[test]
fn a_destroyed_device_is_withdrawn() {
    assert!(matches!(
        DeviceTask::run(TaskEvent::Polled(Ok(PollStatus::Destroyed)), true),
        TaskStep::Deregister { gone: true }
    ));
    assert!(matches!(
        DeviceTask::run(TaskEvent::Polled(Err(Error::Timeout)), true),
        TaskStep::Wait
    ));
    assert!(matches!(
        DeviceTask::run(TaskEvent::Message(None), true),
        TaskStep::Deregister { gone: false }
    ));
}

#[test]
fn only_what_is_received_is_read() {
    let mut dev = AsyncDevice::open();
    assert_eq!(dev.rx_message().unwrap_err(), Error::NoLogicalAddress);
    connected(&mut dev);
    dev.set_initiator_mode(InitiatorMode::Enabled).unwrap();
    dev.set_logical_addresses(&[LogicalAddressType::Playback]).unwrap();
    assert_eq!(
        dev.set_logical_addresses(&[LogicalAddressType::Playback]),
        Err(Error::InvalidData)
    );
    assert_eq!(dev.rx_message().unwrap_err(), Error::InvalidData);
    dev.set_follower_mode(FollowerMode::Enabled);
    assert_eq!(dev.rx_message().unwrap_err(), Error::Timeout);
    dev.send_rx_message(Message::Standby, LogicalAddress::Tv);
    let envelope = dev.rx_message().unwrap();
    assert_eq!(envelope.message, MessageData::Valid(Message::Standby));
    assert_eq!(envelope.destination, LogicalAddress::PlaybackDevice1);
}
