//! The task of a device: changes of its state, messages of the system, and what has to wait for a
//! logical address.

use vstd::prelude::*;

use crate::address::{LogicalAddress, PhysicalAddress, VendorId};
use crate::codec::{Coded, OperandEncodable};
use crate::config::{Config, ConfigView};
use crate::device::{ConnectorInfo, PollResult, PollStatus};
use crate::drm::DrmConnector;
use crate::error::Error;
use crate::message::Message;
use crate::operand::{PowerStatus, UiCommand};
use crate::system::SystemMessage;
use crate::task::{Deferred, DeviceTask, LOG_ADDR_RETRIES, Properties};

verus! {

/// How often a button that is held down is pressed again, in milliseconds. The interval is the one
/// that the standard recommends.
pub const KEY_REPEAT_DELAY: u64 = 450;

/// What has to be done outside.
pub enum LifecycleAction {
    ReadPhysicalAddress,
    ReadLogicalAddresses,
    ReadVendorId,
    EmitPhysicalAddressChanged,
    EmitVendorIdChanged,
    EmitLogicalAddressesChanged,
    /// Do now what has waited for a logical address.
    Run(Deferred),
    /// Do something as soon as the device has a logical address.
    WithLogicalAddress(Deferred),
    /// Ask for an audio system, in the background.
    QueryAudioSystem,
    /// Configure the device.
    Configure,
    /// Set up the keys that buttons are turned into.
    ConfigureUinput,
    /// Find the device again after the system has slept.
    Resume,
    /// Read what the kernel calls the connector that the device is known to have.
    DescribeConnector,
    Transmit(Message, LogicalAddress),
    /// Nothing more.
    Return(Result<(), Error>),
}

/// What came of it.
pub enum LifecycleInput {
    Done,
    Address(PhysicalAddress),
    LogicalAddresses(Vec<u8>),
    Vendor(Option<VendorId>),
    /// The device is configured and has this connector.
    Configured(Option<DrmConnector>),
    Info(ConnectorInfo),
    Failed(Error),
}

/// What waits for a logical address once something is to be done with one, by how many there are,
/// and whether it can be done at once.
pub open spec fn queued(queue: Seq<Deferred>, deferred: Deferred, log_addrs: usize) -> (
    Seq<Deferred>,
    bool,
) {
    if log_addrs > 0 {
        (queue, true)
    } else {
        (queue.push(deferred), false)
    }
}

/// The message that asks who is the active source, by how many logical addresses there are.
pub open spec fn source_question(log_addrs: usize) -> Option<(Message, LogicalAddress)> {
    if log_addrs > 0 {
        Some((Message::RequestActiveSource, LogicalAddress::Unregistered))
    } else {
        None
    }
}

/// The message that asks for an audio system, by how many logical addresses there are.
pub open spec fn audio_question(log_addrs: usize) -> Option<(Message, LogicalAddress)> {
    if log_addrs > 0 {
        Some((Message::GiveSystemAudioModeStatus, LogicalAddress::AudioSystem))
    } else {
        None
    }
}

/// Whether buttons are to be turned into keys: that is wanted, and some are mapped.
pub open spec fn makes_keys(config: ConfigView) -> bool {
    config.uinput && config.mappings != Map::<UiCommand, crate::keys::Key>::empty()
}

/// The message that tells all devices that this one is on.
pub open spec fn power_report() -> (Message, LogicalAddress) {
    (Message::ReportPowerStatus { status: PowerStatus::On }, LogicalAddress::Unregistered)
}

impl DeviceTask {
    /// Whether this is the task of a device that has just been configured.
    pub open spec fn is_new(
        self,
        connector: Option<DrmConnector>,
        cached: Properties,
        has_uinput: bool,
    ) -> bool {
        &&& self.active_key is None
        &&& self.log_addr_try == LOG_ADDR_RETRIES
        &&& !self.awaiting_wake
        &&& !self.active
        &&& self.connector == connector
        &&& self.audio_log_addr == LogicalAddress::Tv
        &&& self.queue@ == Seq::<Deferred>::empty()
        &&& self.cached == cached
        &&& self.has_uinput == has_uinput
    }

    /// The task of a device that has just been configured.
    pub fn new(connector: Option<DrmConnector>, cached: Properties, has_uinput: bool) -> (r:
        DeviceTask)
        ensures
            r.is_new(connector, cached, has_uinput),
    {
        DeviceTask {
            active_key: None,
            log_addr_try: LOG_ADDR_RETRIES,
            awaiting_wake: false,
            active: false,
            connector,
            audio_log_addr: LogicalAddress::Tv,
            queue: Vec::new(),
            cached,
            has_uinput,
        }
    }

    /// Do something as soon as the device has a logical address, by how many it has now. Tells
    /// whether it can be done at once; else it is done later, behind all that waits already.
    pub fn with_logical_address(&mut self, deferred: Deferred, log_addrs: usize) -> (r: bool)
        ensures
            (final(self).queue@, r) == queued(old(self).queue@, deferred, log_addrs),
            *final(self) == (DeviceTask { queue: final(self).queue, ..*old(self) }),
    {
        if log_addrs == 0 {
            self.queue.push(deferred);
            false
        } else {
            true
        }
    }

    /// Take the device for the active source until someone answers. Tells whether those who watch
    /// have to be told.
    pub fn pending_activate(&mut self) -> (r: bool)
        ensures
            *final(self) == old(self).with_active(true),
            r == old(self).tells_active(true),
    {
        self.set_active(true)
    }

    /// The message that asks who is the active source, by how many logical addresses the device has.
    /// Without one, nothing is asked.
    pub fn active_source_query(log_addrs: usize) -> (r: Option<(Message, LogicalAddress)>)
        ensures
            r == source_question(log_addrs),
    {
        if log_addrs > 0 {
            Some((Message::RequestActiveSource, LogicalAddress::Broadcast))
        } else {
            None
        }
    }

    /// The message that asks for an audio system, by how many logical addresses the device has.
    /// Without one, nothing is asked.
    pub fn query_audio_system(log_addrs: usize) -> (r: Option<(Message, LogicalAddress)>)
        ensures
            r == audio_question(log_addrs),
    {
        if log_addrs > 0 {
            Some((Message::GiveSystemAudioModeStatus, LogicalAddress::AudioSystem))
        } else {
            None
        }
    }

    /// The message that tells all devices that this one is on.
    pub fn report_power_on() -> (r: (Message, LogicalAddress))
        ensures
            r == power_report(),
    {
        (Message::ReportPowerStatus { status: PowerStatus::On }, LogicalAddress::Broadcast)
    }

    /// Whether buttons are to be turned into keys.
    pub fn wants_uinput(config: &Config) -> (r: bool)
        ensures
            r == makes_keys(config@),
    {
        !(config.mappings.is_empty() || !config.uinput)
    }
}

/// What the task of a device waits for, or is done with.
pub enum TaskEvent {
    /// The task has begun.
    Started,
    /// An audio system has been asked for.
    AudioAsked,
    /// The device has been polled.
    Polled(Result<PollStatus, Error>),
    /// What was there has been read.
    StatusHandled(Result<Vec<PollResult>, Error>),
    /// A message of the system has come, or none can come any more.
    Message(Option<SystemMessage>),
    /// The task is to end.
    Cancelled,
    /// What was to be done is done, whether it failed or not.
    Done,
}

/// What the task of a device does next.
pub enum TaskStep {
    /// Ask for an audio system, in the background.
    QueryAudioSystem,
    /// Do something as soon as the device has a logical address.
    WithLogicalAddress(Deferred),
    /// Wait until something happens.
    Wait,
    /// Read what there is.
    HandleStatus(PollStatus),
    /// Handle what has been read, in order.
    HandleResults(Vec<PollResult>),
    /// Handle a message of the system.
    HandleMessage(SystemMessage),
    /// Withdraw the device. What belongs to it is to end too where it is gone.
    Deregister { gone: bool },
}

impl DeviceTask {
    /// What the task of a device does once something has happened.
    pub open spec fn step_after(event: TaskEvent, request_active_source: bool) -> TaskStep {
        match event {
        TaskEvent::Started => TaskStep::QueryAudioSystem,
        TaskEvent::AudioAsked => if request_active_source {
            TaskStep::WithLogicalAddress(Deferred::PendingActivate)
        } else {
            TaskStep::Wait
        },
        TaskEvent::Polled(Ok(PollStatus::Destroyed)) => TaskStep::Deregister { gone: true },
        TaskEvent::Polled(Ok(status)) => TaskStep::HandleStatus(status),
        TaskEvent::Polled(Err(_)) => TaskStep::Wait,
        TaskEvent::StatusHandled(Ok(results)) => TaskStep::HandleResults(results),
        TaskEvent::StatusHandled(Err(_)) => TaskStep::Wait,
        TaskEvent::Message(Some(message)) => TaskStep::HandleMessage(message),
        TaskEvent::Message(None) => TaskStep::Deregister { gone: false },
        TaskEvent::Cancelled => TaskStep::Deregister { gone: false },
        TaskEvent::Done => TaskStep::Wait,
    }
    }

    /// What the task of a device does next.
    pub fn run(event: TaskEvent, request_active_source: bool) -> (r: TaskStep)
        ensures
            r == Self::step_after(event, request_active_source),
    {
        match event {
            TaskEvent::Started => TaskStep::QueryAudioSystem,
            TaskEvent::AudioAsked => if request_active_source {
                TaskStep::WithLogicalAddress(Deferred::PendingActivate)
            } else {
                TaskStep::Wait
            },
            TaskEvent::Polled(status) => match status {
                Ok(PollStatus::Destroyed) => TaskStep::Deregister { gone: true },
                Ok(status) => TaskStep::HandleStatus(status),
                Err(_) => TaskStep::Wait,
            },
            TaskEvent::StatusHandled(results) => match results {
                Ok(results) => TaskStep::HandleResults(results),
                Err(_) => TaskStep::Wait,
            },
            TaskEvent::Message(message) => match message {
                Some(message) => TaskStep::HandleMessage(message),
                None => TaskStep::Deregister { gone: false },
            },
            TaskEvent::Cancelled => TaskStep::Deregister { gone: false },
            TaskEvent::Done => TaskStep::Wait,
        }
    }
}

/// What is awaited while a change of state is handled.
#[derive(Debug, Copy, Clone, PartialEq, Eq, Structural)]
pub enum ChangeStage {
    Address,
    LogicalAddresses,
    Vendor,
    AddressTold,
    VendorTold,
    LogicalTold,
    /// That what has waited was done, up to a place.
    Ran(usize),
    AudioAsked,
    Queued,
    Configured,
    Over,
}

/// The handling of a change of state, while it goes on.
pub struct StateChange {
    pub stage: ChangeStage,
    pub request_active_source: bool,
    pub phys_addr: u16,
    pub log_addrs: Vec<u8>,
    pub vendor_id: i32,
    /// What has waited for a logical address.
    pub pending: Vec<Deferred>,
}

/// The number for a vendor, or -1 for none.
pub open spec fn vendor_number(vendor: Option<VendorId>) -> i32 {
    match vendor {
        Some(v) => v.number() as i32,
        None => -1i32,
    }
}

fn vendor_to_number(vendor: Option<VendorId>) -> (r: i32)
    ensures
        r == vendor_number(vendor),
{
    match vendor {
        Some(v) => v.to_sys() as i32,
        None => -1,
    }
}

fn same_bytes(a: &Vec<u8>, b: &Vec<u8>) -> (r: bool)
    ensures
        r == (a@ == b@),
{
    if a.len() != b.len() {
        return false;
    }
    let mut i: usize = 0;
    while i < a.len()
        invariant
            i <= a@.len(),
            a@.len() == b@.len(),
            forall|k: int| 0 <= k < i ==> a@[k] == b@[k],
        decreases a@.len() - i,
    {
        if a[i] != b[i] {
            return false;
        }
        i += 1;
    }
    assert(a@ =~= b@);
    true
}

/// Whether a task differs from another in nothing but its logical addresses, its queue, its number
/// of tries and its connector.
pub open spec fn same_otherwise(a: DeviceTask, b: DeviceTask) -> bool {
    &&& a.active_key == b.active_key && a.awaiting_wake == b.awaiting_wake && a.active == b.active
    &&& a.audio_log_addr == b.audio_log_addr && a.has_uinput == b.has_uinput
    &&& a.cached.phys_addr == b.cached.phys_addr && a.cached.vendor_id == b.cached.vendor_id
    &&& a.cached.active == b.cached.active
    &&& a.cached.audio_log_addr == b.cached.audio_log_addr
}

impl StateChange {
    /// What follows once the logical addresses are settled: what has waited for them is done in
    /// order, and then the others on the bus are asked.
    pub open spec fn runs_on(self, i: int, action: LifecycleAction) -> bool {
        if i < self.pending@.len() {
            &&& action == LifecycleAction::Run(self.pending@[i])
            &&& self.stage == ChangeStage::Ran((i + 1) as usize)
        } else {
            &&& action == LifecycleAction::QueryAudioSystem
            &&& self.stage == ChangeStage::AudioAsked
        }
    }

    /// Whether the logical addresses are handled from one state of the task to another, with an
    /// action. Where they have changed, those who watch are told. Where there are none although the
    /// device is connected, it is configured again as long as that is worth it.
    pub open spec fn tells_logical(
        self,
        was: DeviceTask,
        now: DeviceTask,
        action: LifecycleAction,
    ) -> bool {
        &&& same_otherwise(was, now)
        &&& now.queue == was.queue && now.connector == was.connector
        &&& if was.cached.log_addrs@ != self.log_addrs@ {
            &&& now.cached.log_addrs@ == self.log_addrs@
            &&& now.log_addr_try == (if self.log_addrs@.len() == 0 {
                LOG_ADDR_RETRIES
            } else {
                was.log_addr_try
            })
            &&& action == LifecycleAction::EmitLogicalAddressesChanged
            &&& self.stage == ChangeStage::LogicalTold
        } else if self.log_addrs@.len() == 0 && self.phys_addr != 0xffff && was.log_addr_try > 0 {
            &&& now.cached.log_addrs == was.cached.log_addrs
            &&& now.log_addr_try == was.log_addr_try - 1
            &&& action == LifecycleAction::Configure
            &&& self.stage == ChangeStage::Configured
        } else {
            &&& now == was
            &&& action == LifecycleAction::Return(Ok(()))
            &&& self.stage == ChangeStage::Over
        }
    }

    /// Whether the vendor, and then the logical addresses, are handled.
    pub open spec fn tells_vendor(
        self,
        was: DeviceTask,
        now: DeviceTask,
        action: LifecycleAction,
    ) -> bool {
        if was.cached.vendor_id != self.vendor_id {
            &&& now == (DeviceTask {
                cached: Properties { vendor_id: self.vendor_id, ..was.cached },
                ..was
            })
            &&& action == LifecycleAction::EmitVendorIdChanged
            &&& self.stage == ChangeStage::VendorTold
        } else {
            self.tells_logical(was, now, action)
        }
    }

    /// Whether the physical address, then the vendor, and then the logical addresses, are handled.
    pub open spec fn tells_address(
        self,
        was: DeviceTask,
        now: DeviceTask,
        action: LifecycleAction,
    ) -> bool {
        if was.cached.phys_addr != self.phys_addr {
            &&& now == (DeviceTask {
                cached: Properties { phys_addr: self.phys_addr, ..was.cached },
                ..was
            })
            &&& action == LifecycleAction::EmitPhysicalAddressChanged
            &&& self.stage == ChangeStage::AddressTold
        } else {
            self.tells_vendor(was, now, action)
        }
    }

    /// Whether an input can come of the last action.
    pub open spec fn awaits(self, input: LifecycleInput) -> bool {
        match self.stage {
            ChangeStage::Over => false,
            ChangeStage::Address => input is Address || input is Failed,
            ChangeStage::LogicalAddresses => input is LogicalAddresses || input is Failed,
            ChangeStage::Vendor => input is Vendor || input is Failed,
            ChangeStage::Configured => input is Configured || input is Failed,
            _ => input is Done || input is Failed,
        }
    }

    /// What holds while the handling goes on.
    pub open spec fn wf(self) -> bool {
        self.stage matches ChangeStage::Ran(i) ==> i <= self.pending@.len()
    }

    /// Whether an input leads from one state to another, with an action. What cannot be read counts
    /// as missing.
    pub open spec fn moves(
        self,
        task: DeviceTask,
        input: LifecycleInput,
        now: StateChange,
        now_task: DeviceTask,
        action: LifecycleAction,
    ) -> bool {
        &&& now.request_active_source == self.request_active_source
        &&& match self.stage {
            ChangeStage::Address => {
                &&& now_task == task
                &&& now == (StateChange {
                    stage: ChangeStage::LogicalAddresses,
                    phys_addr: match input {
                        LifecycleInput::Address(address) => address.0,
                        _ => 0xffff,
                    },
                    ..self
                })
                &&& action == LifecycleAction::ReadLogicalAddresses
            },
            ChangeStage::LogicalAddresses => {
                &&& now_task == task
                &&& now.stage == ChangeStage::Vendor
                &&& now.phys_addr == self.phys_addr
                &&& now.log_addrs@ == (match input {
                    LifecycleInput::LogicalAddresses(log_addrs) => log_addrs@,
                    _ => Seq::empty(),
                })
                &&& action == LifecycleAction::ReadVendorId
            },
            ChangeStage::Vendor => {
                &&& now.phys_addr == self.phys_addr
                &&& now.log_addrs == self.log_addrs
                &&& now.vendor_id == vendor_number(
                    match input {
                        LifecycleInput::Vendor(vendor) => vendor,
                        _ => None,
                    },
                )
                &&& now.tells_address(task, now_task, action)
            },
            ChangeStage::AddressTold if input is Done => {
                &&& now == (StateChange { stage: now.stage, ..self })
                &&& now.tells_vendor(task, now_task, action)
            },
            ChangeStage::VendorTold if input is Done => {
                &&& now == (StateChange { stage: now.stage, ..self })
                &&& now.tells_logical(task, now_task, action)
            },
            ChangeStage::LogicalTold if input is Done => if self.log_addrs@.len() == 0 {
                &&& now_task == task
                &&& now.stage == ChangeStage::Over
                &&& action == LifecycleAction::Return(Ok(()))
            } else {
                &&& now_task == (DeviceTask { queue: now_task.queue, ..task })
                &&& now_task.queue@ == Seq::<Deferred>::empty()
                &&& now.pending@ == task.queue@
                &&& now.runs_on(0, action)
            },
            ChangeStage::Ran(i) => {
                &&& now_task == task
                &&& now == (StateChange { stage: now.stage, ..self })
                &&& now.runs_on(i as int, action)
            },
            ChangeStage::AudioAsked => {
                &&& now_task == task
                &&& if self.request_active_source {
                    &&& action == LifecycleAction::WithLogicalAddress(Deferred::PendingActivate)
                    &&& now.stage == ChangeStage::Queued
                } else {
                    &&& action == LifecycleAction::Return(Ok(()))
                    &&& now.stage == ChangeStage::Over
                }
            },
            ChangeStage::Queued => {
                &&& now_task == task
                &&& action == LifecycleAction::Return(Ok(()))
                &&& now.stage == ChangeStage::Over
            },
            ChangeStage::Configured if input is Configured => {
                &&& now_task == (DeviceTask {
                    connector: input->Configured_0,
                    ..task
                })
                &&& action == LifecycleAction::Return(Ok(()))
                &&& now.stage == ChangeStage::Over
            },
            _ => {
                &&& now_task == task
                &&& action == LifecycleAction::Return(Err(input->Failed_0))
                &&& now.stage == ChangeStage::Over
            },
        }
    }

    /// Whether this is the handling of a change of state at its beginning, with what is done first.
    pub open spec fn begins(self, request_active_source: bool, action: LifecycleAction) -> bool {
        &&& self.stage == ChangeStage::Address
        &&& self.request_active_source == request_active_source
        &&& action == LifecycleAction::ReadPhysicalAddress
    }

    /// Begin to handle a change of state.
    pub fn start(request_active_source: bool) -> (r: (StateChange, LifecycleAction))
        ensures
            r.0.begins(request_active_source, r.1),
            r.0.wf(),
    {
        (
            StateChange {
                stage: ChangeStage::Address,
                request_active_source,
                phys_addr: 0xffff,
                log_addrs: Vec::new(),
                vendor_id: -1,
                pending: Vec::new(),
            },
            LifecycleAction::ReadPhysicalAddress,
        )
    }

    fn finish(&mut self, result: Result<(), Error>) -> (action: LifecycleAction)
        ensures
            *final(self) == (StateChange { stage: ChangeStage::Over, ..*old(self) }),
            action == LifecycleAction::Return(result),
    {
        self.stage = ChangeStage::Over;
        LifecycleAction::Return(result)
    }

    fn tell_logical(&mut self, task: &mut DeviceTask) -> (action: LifecycleAction)
        ensures
            *final(self) == (StateChange { stage: final(self).stage, ..*old(self) }),
            final(self).tells_logical(*old(task), *final(task), action),
    {
        if !same_bytes(&task.cached.log_addrs, &self.log_addrs) {
            task.cached.log_addrs = vstd::slice::slice_to_vec(self.log_addrs.as_slice());
            if self.log_addrs.len() == 0 {
                task.log_addr_try = LOG_ADDR_RETRIES;
            }
            self.stage = ChangeStage::LogicalTold;
            LifecycleAction::EmitLogicalAddressesChanged
        } else if self.log_addrs.len() == 0 && self.phys_addr != 0xffff && task.log_addr_try > 0 {
            task.log_addr_try = task.log_addr_try - 1;
            self.stage = ChangeStage::Configured;
            LifecycleAction::Configure
        } else {
            self.finish(Ok(()))
        }
    }

    fn tell_vendor(&mut self, task: &mut DeviceTask) -> (action: LifecycleAction)
        ensures
            *final(self) == (StateChange { stage: final(self).stage, ..*old(self) }),
            final(self).tells_vendor(*old(task), *final(task), action),
    {
        if task.cached.vendor_id != self.vendor_id {
            task.cached.vendor_id = self.vendor_id;
            self.stage = ChangeStage::VendorTold;
            LifecycleAction::EmitVendorIdChanged
        } else {
            self.tell_logical(task)
        }
    }

    fn tell_address(&mut self, task: &mut DeviceTask) -> (action: LifecycleAction)
        ensures
            *final(self) == (StateChange { stage: final(self).stage, ..*old(self) }),
            final(self).tells_address(*old(task), *final(task), action),
    {
        if task.cached.phys_addr != self.phys_addr {
            task.cached.phys_addr = self.phys_addr;
            self.stage = ChangeStage::AddressTold;
            LifecycleAction::EmitPhysicalAddressChanged
        } else {
            self.tell_vendor(task)
        }
    }

    fn run_on(&mut self, i: usize) -> (action: LifecycleAction)
        requires
            i <= old(self).pending@.len(),
        ensures
            *final(self) == (StateChange { stage: final(self).stage, ..*old(self) }),
            final(self).wf(),
            final(self).runs_on(i as int, action),
    {
        if i < self.pending.len() {
            self.stage = ChangeStage::Ran(i + 1);
            LifecycleAction::Run(self.pending[i])
        } else {
            self.stage = ChangeStage::AudioAsked;
            LifecycleAction::QueryAudioSystem
        }
    }

    /// Go on with what came of the last action. What cannot be read counts as missing. A watcher
    /// that cannot be told, or a device that cannot be configured, ends the handling. What has waited
    /// for a logical address may fail without consequences.
    pub fn next(&mut self, task: &mut DeviceTask, input: LifecycleInput) -> (action:
        LifecycleAction)
        requires
            old(self).wf(),
            old(self).awaits(input),
        ensures
            final(self).wf(),
            final(self).request_active_source == old(self).request_active_source,
            old(self).moves(*old(task), input, *final(self), *final(task), action),
    {
        match self.stage {
            ChangeStage::Address => {
                self.phys_addr = match input {
                    LifecycleInput::Address(address) => address.0,
                    _ => 0xffff,
                };
                self.stage = ChangeStage::LogicalAddresses;
                LifecycleAction::ReadLogicalAddresses
            },
            ChangeStage::LogicalAddresses => {
                self.log_addrs = match input {
                    LifecycleInput::LogicalAddresses(log_addrs) => log_addrs,
                    _ => Vec::new(),
                };
                self.stage = ChangeStage::Vendor;
                LifecycleAction::ReadVendorId
            },
            ChangeStage::Vendor => {
                self.vendor_id = vendor_to_number(
                    match input {
                        LifecycleInput::Vendor(vendor) => vendor,
                        _ => None,
                    },
                );
                self.tell_address(task)
            },
            ChangeStage::Ran(i) => self.run_on(i),
            ChangeStage::AudioAsked => {
                if self.request_active_source {
                    self.stage = ChangeStage::Queued;
                    LifecycleAction::WithLogicalAddress(Deferred::PendingActivate)
                } else {
                    self.finish(Ok(()))
                }
            },
            ChangeStage::Queued => self.finish(Ok(())),
            _ => match input {
                LifecycleInput::Failed(e) => self.finish(Err(e)),
                LifecycleInput::Configured(connector) => {
                    task.connector = connector;
                    self.finish(Ok(()))
                },
                _ => match self.stage {
                    ChangeStage::AddressTold => self.tell_vendor(task),
                    ChangeStage::VendorTold => self.tell_logical(task),
                    _ => {
                        if self.log_addrs.len() == 0 {
                            self.finish(Ok(()))
                        } else {
                            let mut pending: Vec<Deferred> = Vec::new();
                            pending.append(&mut task.queue);
                            assert(pending@ =~= old(task).queue@);
                            self.pending = pending;
                            self.run_on(0)
                        }
                    },
                },
            },
        }
    }
}

/// What is awaited while a message of the system is handled.
pub enum SystemStage {
    Resumed { wake_tv: bool },
    WakeQueued { from_standby: bool },
    PowerQueued,
    ActivateQueued,
    OwnAddress { standby_tv: bool, force: bool },
    Inactive { standby_tv: bool, force: bool },
    Standby,
    /// That the device is configured, and then its keys if they are to be.
    Configured { uinput: bool },
    Uinput,
    Described(ConnectorInfo),
    Over,
}

/// The handling of a message of the system, while it goes on.
pub struct SystemHandling {
    pub stage: SystemStage,
    pub request_active_source: bool,
}

impl SystemHandling {
    /// The end.
    pub open spec fn ended(result: Result<(), Error>) -> (SystemStage, LifecycleAction) {
        (SystemStage::Over, LifecycleAction::Return(result))
    }

    /// The television is woken, if it is to be, as soon as the device has a logical address.
    pub open spec fn waking(self, wake_tv: bool, from_standby: bool) -> (
        SystemStage,
        LifecycleAction,
    ) {
        if wake_tv {
            (
                SystemStage::WakeQueued { from_standby },
                LifecycleAction::WithLogicalAddress(Deferred::Wake),
            )
        } else {
            Self::reporting(from_standby)
        }
    }

    /// After the system has slept, all devices are told that this one is on.
    pub open spec fn reporting(from_standby: bool) -> (SystemStage, LifecycleAction) {
        if from_standby {
            (
                SystemStage::PowerQueued,
                LifecycleAction::WithLogicalAddress(Deferred::ReportPowerOn),
            )
        } else {
            Self::ended(Ok(()))
        }
    }

    /// The television is put to standby by force, or where the device is what it shows.
    pub open spec fn standing_by(task: DeviceTask, standby_tv: bool, force: bool) -> (
        SystemStage,
        LifecycleAction,
    ) {
        if force || (task.active && standby_tv) {
            (
                SystemStage::Standby,
                LifecycleAction::Transmit(Message::Standby, LogicalAddress::Tv),
            )
        } else {
            Self::ended(Ok(()))
        }
    }

    /// What a message of the system begins with.
    pub open spec fn started(
        self,
        task: DeviceTask,
        message: SystemMessage,
        inactive_source_on_suspend: bool,
    ) -> (SystemStage, LifecycleAction) {
        match message {
            SystemMessage::Wake { wake_tv, from_standby } => if from_standby {
                (SystemStage::Resumed { wake_tv }, LifecycleAction::Resume)
            } else {
                self.waking(wake_tv, false)
            },
            SystemMessage::Standby { standby_tv, force } => if inactive_source_on_suspend {
                (
                    SystemStage::OwnAddress { standby_tv, force },
                    LifecycleAction::ReadPhysicalAddress,
                )
            } else {
                Self::standing_by(task, standby_tv, force)
            },
            SystemMessage::ReloadConfig => (
                SystemStage::Configured { uinput: true },
                LifecycleAction::Configure,
            ),
            SystemMessage::ReconfigureConnector(info) => match info {
                ConnectorInfo::NoConnector => (
                    SystemStage::Configured { uinput: false },
                    LifecycleAction::Configure,
                ),
                ConnectorInfo::DrmConnector { .. } => if task.connector is Some {
                    (SystemStage::Described(info), LifecycleAction::DescribeConnector)
                } else {
                    (SystemStage::Configured { uinput: false }, LifecycleAction::Configure)
                },
                ConnectorInfo::Unknown { .. } => Self::ended(Ok(())),
            },
        }
    }

    /// What follows on what came of the last action.
    pub open spec fn moved(self, task: DeviceTask, input: LifecycleInput) -> (
        SystemStage,
        LifecycleAction,
    ) {
        match self.stage {
            SystemStage::Resumed { wake_tv } => self.waking(wake_tv, true),
            SystemStage::WakeQueued { from_standby } => Self::reporting(from_standby),
            SystemStage::PowerQueued => if self.request_active_source {
                (
                    SystemStage::ActivateQueued,
                    LifecycleAction::WithLogicalAddress(Deferred::PendingActivate),
                )
            } else {
                Self::ended(Ok(()))
            },
            SystemStage::OwnAddress { standby_tv, force } => match input {
                LifecycleInput::Address(address) => (
                    SystemStage::Inactive { standby_tv, force },
                    LifecycleAction::Transmit(
                        Message::InactiveSource { address },
                        LogicalAddress::Tv,
                    ),
                ),
                _ => Self::standing_by(task, standby_tv, force),
            },
            SystemStage::Inactive { standby_tv, force } => Self::standing_by(
                task,
                standby_tv,
                force,
            ),
            SystemStage::Configured { uinput } => match input {
                LifecycleInput::Failed(e) => Self::ended(Err(e)),
                _ => if uinput {
                    (SystemStage::Uinput, LifecycleAction::ConfigureUinput)
                } else {
                    Self::ended(Ok(()))
                },
            },
            SystemStage::Uinput => match input {
                LifecycleInput::Failed(e) => Self::ended(Err(e)),
                _ => Self::ended(Ok(())),
            },
            SystemStage::Described(info) => match input {
                LifecycleInput::Failed(e) => Self::ended(Err(e)),
                LifecycleInput::Info(own) if own == info => (
                    SystemStage::Configured { uinput: false },
                    LifecycleAction::Configure,
                ),
                _ => Self::ended(Ok(())),
            },
            _ => Self::ended(Ok(())),
        }
    }

    /// Whether an input can come of the last action.
    pub open spec fn awaits(self, input: LifecycleInput) -> bool {
        match self.stage {
            SystemStage::Over => false,
            SystemStage::OwnAddress { .. } => input is Address || input is Failed,
            SystemStage::Configured { .. } => input is Configured || input is Failed,
            SystemStage::Described(_) => input is Info || input is Failed,
            _ => input is Done || input is Failed,
        }
    }

    fn end(&mut self, result: Result<(), Error>) -> (action: LifecycleAction)
        ensures
            (final(self).stage, action) == Self::ended(result),
            final(self).request_active_source == old(self).request_active_source,
    {
        self.stage = SystemStage::Over;
        LifecycleAction::Return(result)
    }

    fn report(&mut self, from_standby: bool) -> (action: LifecycleAction)
        ensures
            (final(self).stage, action) == Self::reporting(from_standby),
            final(self).request_active_source == old(self).request_active_source,
    {
        if from_standby {
            self.stage = SystemStage::PowerQueued;
            LifecycleAction::WithLogicalAddress(Deferred::ReportPowerOn)
        } else {
            self.end(Ok(()))
        }
    }

    fn wake(&mut self, wake_tv: bool, from_standby: bool) -> (action: LifecycleAction)
        ensures
            (final(self).stage, action) == old(self).waking(wake_tv, from_standby),
            final(self).request_active_source == old(self).request_active_source,
    {
        if wake_tv {
            self.stage = SystemStage::WakeQueued { from_standby };
            LifecycleAction::WithLogicalAddress(Deferred::Wake)
        } else {
            self.report(from_standby)
        }
    }

    fn stand_by(&mut self, task: &DeviceTask, standby_tv: bool, force: bool) -> (action:
        LifecycleAction)
        ensures
            (final(self).stage, action) == Self::standing_by(*task, standby_tv, force),
            final(self).request_active_source == old(self).request_active_source,
    {
        if force || (task.active && standby_tv) {
            self.stage = SystemStage::Standby;
            LifecycleAction::Transmit(Message::Standby, LogicalAddress::Tv)
        } else {
            self.end(Ok(()))
        }
    }

    fn configure(&mut self, uinput: bool) -> (action: LifecycleAction)
        ensures
            final(self).stage == (SystemStage::Configured { uinput }),
            action == LifecycleAction::Configure,
            final(self).request_active_source == old(self).request_active_source,
    {
        self.stage = SystemStage::Configured { uinput };
        LifecycleAction::Configure
    }

    /// Begin to handle a message of the system.
    pub fn start(
        task: &DeviceTask,
        message: SystemMessage,
        request_active_source: bool,
        inactive_source_on_suspend: bool,
    ) -> (r: (SystemHandling, LifecycleAction))
        ensures
            r.0.request_active_source == request_active_source,
            (r.0.stage, r.1) == r.0.started(*task, message, inactive_source_on_suspend),
    {
        let mut handling = SystemHandling { stage: SystemStage::Over, request_active_source };
        let action = match message {
            SystemMessage::Wake { wake_tv, from_standby } => {
                if from_standby {
                    handling.stage = SystemStage::Resumed { wake_tv };
                    LifecycleAction::Resume
                } else {
                    handling.wake(wake_tv, false)
                }
            },
            SystemMessage::Standby { standby_tv, force } => {
                if inactive_source_on_suspend {
                    handling.stage = SystemStage::OwnAddress { standby_tv, force };
                    LifecycleAction::ReadPhysicalAddress
                } else {
                    handling.stand_by(task, standby_tv, force)
                }
            },
            SystemMessage::ReloadConfig => handling.configure(true),
            SystemMessage::ReconfigureConnector(info) => match info {
                ConnectorInfo::NoConnector => handling.configure(false),
                ConnectorInfo::DrmConnector { .. } => {
                    if task.connector.is_some() {
                        handling.stage = SystemStage::Described(info);
                        LifecycleAction::DescribeConnector
                    } else {
                        handling.configure(false)
                    }
                },
                ConnectorInfo::Unknown { .. } => handling.end(Ok(())),
            },
        };
        (handling, action)
    }

    /// Go on with what came of the last action.
    pub fn next(&mut self, task: &mut DeviceTask, input: LifecycleInput) -> (action:
        LifecycleAction)
        requires
            old(self).awaits(input),
        ensures
            final(self).request_active_source == old(self).request_active_source,
            (final(self).stage, action) == old(self).moved(*old(task), input),
            *final(task) == noted(*old(task), input),
    {
        match &self.stage {
            SystemStage::Resumed { wake_tv } => {
                let wake_tv = *wake_tv;
                self.wake(wake_tv, true)
            },
            SystemStage::WakeQueued { from_standby } => {
                let from_standby = *from_standby;
                self.report(from_standby)
            },
            SystemStage::PowerQueued => {
                if self.request_active_source {
                    self.stage = SystemStage::ActivateQueued;
                    LifecycleAction::WithLogicalAddress(Deferred::PendingActivate)
                } else {
                    self.end(Ok(()))
                }
            },
            SystemStage::OwnAddress { standby_tv, force } => {
                let (standby_tv, force) = (*standby_tv, *force);
                match input {
                    LifecycleInput::Address(address) => {
                        self.stage = SystemStage::Inactive { standby_tv, force };
                        LifecycleAction::Transmit(
                            Message::InactiveSource { address },
                            LogicalAddress::Tv,
                        )
                    },
                    _ => self.stand_by(task, standby_tv, force),
                }
            },
            SystemStage::Inactive { standby_tv, force } => {
                let (standby_tv, force) = (*standby_tv, *force);
                self.stand_by(task, standby_tv, force)
            },
            SystemStage::Configured { uinput } => {
                let uinput = *uinput;
                match input {
                    LifecycleInput::Failed(e) => self.end(Err(e)),
                    LifecycleInput::Configured(connector) => {
                        task.connector = connector;
                        if uinput {
                            self.stage = SystemStage::Uinput;
                            LifecycleAction::ConfigureUinput
                        } else {
                            self.end(Ok(()))
                        }
                    },
                    _ => self.end(Ok(())),
                }
            },
            SystemStage::Uinput => match input {
                LifecycleInput::Failed(e) => self.end(Err(e)),
                _ => self.end(Ok(())),
            },
            SystemStage::Described(info) => match input {
                LifecycleInput::Failed(e) => self.end(Err(e)),
                LifecycleInput::Info(own) => {
                    if same_info(&own, info) {
                        self.configure(false)
                    } else {
                        self.end(Ok(()))
                    }
                },
                _ => self.end(Ok(())),
            },
            _ => self.end(Ok(())),
        }
    }
}

fn same_info(a: &ConnectorInfo, b: &ConnectorInfo) -> (r: bool)
    ensures
        r == (*a == *b),
{
    match (a, b) {
        (ConnectorInfo::NoConnector, ConnectorInfo::NoConnector) => true,
        (
            ConnectorInfo::DrmConnector { card_no: c, connector_id: i },
            ConnectorInfo::DrmConnector { card_no: d, connector_id: j },
        ) => *c == *d && *i == *j,
        (ConnectorInfo::Unknown { ty: t, data: d }, ConnectorInfo::Unknown { ty: u, data: e }) => {
            if *t != *u {
                return false;
            }
            let mut i: usize = 0;
            while i < 16
                invariant
                    i <= 16,
                    *a == (ConnectorInfo::Unknown { ty: *t, data: *d }),
                    *b == (ConnectorInfo::Unknown { ty: *u, data: *e }),
                    forall|k: int| 0 <= k < i ==> d[k] == e[k],
                decreases 16 - i,
            {
                if d[i] != e[i] {
                    assert(d[i as int] != e[i as int]);
                    return false;
                }
                i += 1;
            }
            assert(*d =~= *e);
            true
        },
        _ => false,
    }
}

/// What is awaited while a button is held down.
#[derive(Debug, Copy, Clone, PartialEq, Eq, Structural)]
pub enum RepeatStage {
    Pressed,
    Waited,
    Released,
    Over,
}

/// What has to be done outside while a button is held down.
pub enum RepeatAction {
    Press(UiCommand, LogicalAddress),
    /// Wait for some milliseconds since the button was pressed, or until it is released.
    Wait(u64),
    Release(LogicalAddress),
    /// Nothing more.
    Return(Result<(), Error>),
}

/// What came of it.
pub enum RepeatInput {
    Done,
    /// The time is over.
    Elapsed,
    /// The button is released.
    Cancelled,
    Failed(Error),
}

/// A button that is held down.
#[derive(Debug, Copy, Clone, PartialEq, Eq, Structural)]
pub struct KeyRepeat {
    pub log_addr: LogicalAddress,
    pub key: UiCommand,
    pub stage: RepeatStage,
}

impl KeyRepeat {
    /// A button that begins to be held down, and what is done first.
    pub open spec fn begun(log_addr: LogicalAddress, key: UiCommand) -> (KeyRepeat, RepeatAction) {
        (
            KeyRepeat { log_addr, key, stage: RepeatStage::Pressed },
            RepeatAction::Press(key, log_addr),
        )
    }

    /// Begin to hold down a button.
    pub fn start(log_addr: LogicalAddress, key: UiCommand) -> (r: (KeyRepeat, RepeatAction))
        ensures
            r == Self::begun(log_addr, key),
    {
        (
            KeyRepeat { log_addr, key, stage: RepeatStage::Pressed },
            RepeatAction::Press(key, log_addr),
        )
    }

    /// What follows on what came of the last action: the button is pressed again and again until it
    /// is released. A failure ends it.
    pub open spec fn moved(self, input: RepeatInput) -> (RepeatStage, RepeatAction) {
        match (self.stage, input) {
            (_, RepeatInput::Failed(e)) => (
                RepeatStage::Over,
                RepeatAction::Return(Err(e)),
            ),
            (RepeatStage::Pressed, _) => (
                RepeatStage::Waited,
                RepeatAction::Wait(KEY_REPEAT_DELAY),
            ),
            (RepeatStage::Waited, RepeatInput::Cancelled) => (
                RepeatStage::Released,
                RepeatAction::Release(self.log_addr),
            ),
            (RepeatStage::Waited, _) => (
                RepeatStage::Pressed,
                RepeatAction::Press(self.key, self.log_addr),
            ),
            _ => (RepeatStage::Over, RepeatAction::Return(Ok(()))),
        }
    }

    /// Go on with what came of the last action.
    pub fn next(&mut self, input: RepeatInput) -> (action: RepeatAction)
        requires
            old(self).stage != RepeatStage::Over,
        ensures
            final(self).log_addr == old(self).log_addr,
            final(self).key == old(self).key,
            (final(self).stage, action) == old(self).moved(input),
    {
        match input {
            RepeatInput::Failed(e) => {
                self.stage = RepeatStage::Over;
                RepeatAction::Return(Err(e))
            },
            input => match self.stage {
                RepeatStage::Pressed => {
                    self.stage = RepeatStage::Waited;
                    RepeatAction::Wait(KEY_REPEAT_DELAY)
                },
                RepeatStage::Waited => {
                    if matches!(input, RepeatInput::Cancelled) {
                        self.stage = RepeatStage::Released;
                        RepeatAction::Release(self.log_addr)
                    } else {
                        self.stage = RepeatStage::Pressed;
                        RepeatAction::Press(self.key, self.log_addr)
                    }
                },
                _ => {
                    self.stage = RepeatStage::Over;
                    RepeatAction::Return(Ok(()))
                },
            },
        }
    }
}

/// A device without a logical address is configured again only so often: each time leaves one try
/// fewer, and there are never more tries than at first.
pub proof fn tries_run_out(
    change: StateChange,
    was: DeviceTask,
    now: DeviceTask,
    action: LifecycleAction,
)
    requires
        0 <= was.log_addr_try <= LOG_ADDR_RETRIES,
        change.tells_address(was, now, action),
    ensures
        0 <= now.log_addr_try <= LOG_ADDR_RETRIES,
        action is Configure ==> now.log_addr_try == was.log_addr_try - 1,
        was.log_addr_try == 0 ==> !(action is Configure),
{
}

/// What came of an action, where that leads, and what is done there.
pub struct ChangeStep {
    pub input: LifecycleInput,
    pub change: StateChange,
    pub task: DeviceTask,
    pub action: LifecycleAction,
}

/// The handling of one change of state, from its start.
pub struct ChangeRun {
    pub change: StateChange,
    pub task: DeviceTask,
    pub steps: Seq<ChangeStep>,
}

impl ChangeRun {
    /// Where the first step leads, with the steps that are left.
    pub open spec fn advanced(self) -> ChangeRun {
        ChangeRun {
            change: self.steps[0].change,
            task: self.steps[0].task,
            steps: self.steps.skip(1),
        }
    }

    /// Where the steps lead.
    pub open spec fn ended(self) -> ChangeRun
        decreases self.steps.len(),
    {
        if self.steps.len() == 0 {
            self
        } else {
            self.advanced().ended()
        }
    }

    /// Whether each step follows from what came of the action before it.
    pub open spec fn follows(self) -> bool
        decreases self.steps.len(),
    {
        self.steps.len() > 0 ==> {
            let step = self.steps[0];
            &&& self.change.wf() && self.change.awaits(step.input)
            &&& self.change.moves(self.task, step.input, step.change, step.task, step.action)
            &&& self.advanced().follows()
        }
    }

    /// Whether the device has no logical address, and those who watch can be told all.
    pub open spec fn finds_none(self) -> bool
        decreases self.steps.len(),
    {
        self.steps.len() > 0 ==> {
            let input = self.steps[0].input;
            &&& match self.change.stage {
                ChangeStage::LogicalAddresses => input matches LifecycleInput::LogicalAddresses(
                    log_addrs,
                ) ==> log_addrs@.len() == 0,
                ChangeStage::AddressTold => !(input is Failed),
                ChangeStage::VendorTold => !(input is Failed),
                ChangeStage::LogicalTold => !(input is Failed),
                _ => true,
            }
            &&& self.advanced().finds_none()
        }
    }

    /// How often the device is configured again.
    pub open spec fn retries(self) -> nat
        decreases self.steps.len(),
    {
        if self.steps.len() == 0 {
            0
        } else if self.steps[0].action is Configure {
            self.advanced().retries() + 1
        } else {
            self.advanced().retries()
        }
    }

    /// The physical address that is read.
    pub open spec fn address(self) -> u16 {
        match self.steps[0].input {
            LifecycleInput::Address(address) => address.0,
            _ => 0xffff,
        }
    }

    /// Whether this is all of the handling of a change of state that finds no logical address.
    pub open spec fn is_whole(self) -> bool {
        &&& self.change.stage == ChangeStage::Address
        &&& self.follows() && self.finds_none()
        &&& self.ended().change.stage == ChangeStage::Over
    }
}

/// Whether changes of state are handled one after the other, all of which find no logical address.
/// In between, the task may change in all but what it knows of logical addresses.
pub open spec fn lacks_address(runs: Seq<ChangeRun>) -> bool {
    &&& forall|i: int| 0 <= i < runs.len() ==> (#[trigger] runs[i]).is_whole()
    &&& forall|i: int| #![trigger runs[i]]
        0 < i < runs.len() ==> {
            let was = runs[i - 1].ended().task;
            &&& runs[i].task.log_addr_try == was.log_addr_try
            &&& runs[i].task.cached.log_addrs@ == was.cached.log_addrs@
        }
}

/// How often the device is configured again over the first changes of state.
pub open spec fn retries_before(runs: Seq<ChangeRun>, n: int) -> nat
    decreases n,
{
    if n <= 0 {
        0
    } else {
        retries_before(runs, n - 1) + runs[n - 1].retries()
    }
}

/// Over any run of changes of state without a logical address, from the moment on at which the
/// tries are all there, each change configures the device again, once, as long as it has a physical
/// address and that was not done twenty times. No try is used up without a physical address.
pub proof fn twenty_retries(runs: Seq<ChangeRun>)
    requires
        lacks_address(runs),
        runs.len() > 0 ==> {
            &&& runs[0].task.log_addr_try == LOG_ADDR_RETRIES
            &&& runs[0].task.cached.log_addrs@.len() == 0
        },
    ensures
        forall|i: int|
            0 <= i < runs.len() ==> (#[trigger] runs[i]).retries() == (if runs[i].address()
                != 0xffff && retries_before(runs, i) < LOG_ADDR_RETRIES {
                1nat
            } else {
                0nat
            }),
        retries_before(runs, runs.len() as int) <= LOG_ADDR_RETRIES,
{
    retries_count(runs, runs.len() as int);
    assert forall|i: int| 0 <= i < runs.len() implies (#[trigger] runs[i]).retries() == (
    if runs[i].address() != 0xffff && retries_before(runs, i) < LOG_ADDR_RETRIES {
        1nat
    } else {
        0nat
    }) by {
        retries_at(runs, i);
    }
}

/// The tries are all there once a device has lost its logical addresses.
pub proof fn loss_restores_tries(run: ChangeRun)
    requires
        run.is_whole(),
        run.task.cached.log_addrs@.len() > 0,
    ensures
        run.ended().task.log_addr_try == LOG_ADDR_RETRIES,
        run.ended().task.cached.log_addrs@.len() == 0,
        run.retries() == 0,
{
    notes_loss(run);
}

proof fn retries_at(runs: Seq<ChangeRun>, i: int)
    requires
        lacks_address(runs),
        0 <= i < runs.len(),
        runs[0].task.log_addr_try == LOG_ADDR_RETRIES,
        runs[0].task.cached.log_addrs@.len() == 0,
    ensures
        runs[i].retries() == (if runs[i].address() != 0xffff && retries_before(runs, i)
            < LOG_ADDR_RETRIES {
            1nat
        } else {
            0nat
        }),
{
    retries_count(runs, i);
    assert(runs[i].is_whole());
    one_retry(runs[i]);
}

proof fn retries_count(runs: Seq<ChangeRun>, n: int)
    requires
        lacks_address(runs),
        0 <= n <= runs.len(),
        runs.len() > 0 ==> {
            &&& runs[0].task.log_addr_try == LOG_ADDR_RETRIES
            &&& runs[0].task.cached.log_addrs@.len() == 0
        },
    ensures
        retries_before(runs, n) <= LOG_ADDR_RETRIES,
        n < runs.len() ==> {
            &&& runs[n].task.log_addr_try == LOG_ADDR_RETRIES - retries_before(runs, n)
            &&& runs[n].task.cached.log_addrs@.len() == 0
        },
    decreases n,
{
    if n > 0 {
        retries_count(runs, n - 1);
        assert(runs[n - 1].is_whole());
        one_retry(runs[n - 1]);
        if n < runs.len() {
            assert(runs[n].is_whole());
        }
    }
}

/// What is left to do of the handling of a change of state that finds no logical address.
spec fn retries_left(run: ChangeRun) -> nat {
    let address = if run.change.stage == ChangeStage::Address {
        run.address()
    } else {
        run.change.phys_addr
    };
    match run.change.stage {
        ChangeStage::Configured | ChangeStage::Over => 0,
        _ => if address != 0xffff && run.task.log_addr_try > 0 {
            1
        } else {
            0
        },
    }
}

/// Whether a stage is passed through where no logical address is found.
spec fn is_passed(run: ChangeRun) -> bool {
    match run.change.stage {
        ChangeStage::Address | ChangeStage::LogicalAddresses => true,
        ChangeStage::Configured | ChangeStage::Over => true,
        ChangeStage::Vendor | ChangeStage::AddressTold | ChangeStage::VendorTold => {
            run.change.log_addrs@.len() == 0
        },
        _ => false,
    }
}

proof fn one_retry(run: ChangeRun)
    requires
        is_passed(run),
        run.follows(),
        run.finds_none(),
        run.ended().change.stage == ChangeStage::Over,
        run.task.log_addr_try >= 0,
        run.task.cached.log_addrs@.len() == 0,
    ensures
        run.retries() == retries_left(run),
        run.ended().task.log_addr_try == run.task.log_addr_try - run.retries(),
        run.ended().task.cached.log_addrs@.len() == 0,
    decreases run.steps.len(),
{
    if run.steps.len() > 0 {
        assert(run.change.log_addrs@.len() == 0 ==> run.change.log_addrs@
            =~= run.task.cached.log_addrs@);
        assert(run.steps[0].change.log_addrs@.len() == 0 ==> run.steps[0].change.log_addrs@
            =~= run.task.cached.log_addrs@);
        one_retry(run.advanced());
    }
}

proof fn notes_loss(run: ChangeRun)
    requires
        is_passed(run),
        run.change.stage != ChangeStage::Configured,
        run.change.stage != ChangeStage::Over,
        run.follows(),
        run.finds_none(),
        run.ended().change.stage == ChangeStage::Over,
        run.task.cached.log_addrs@.len() > 0,
    ensures
        run.ended().task.log_addr_try == LOG_ADDR_RETRIES,
        run.ended().task.cached.log_addrs@.len() == 0,
        run.retries() == 0,
    decreases run.steps.len(),
{
    if run.steps.len() > 0 {
        let next = run.advanced();
        if next.change.stage == ChangeStage::LogicalTold {
            assert(run.ended() == next.ended() && next.follows() && next.finds_none());
            assert(next.steps.len() > 0);
            let last = next.advanced();
            assert(next.ended() == last.ended() && last.follows());
            assert(last.change.stage == ChangeStage::Over);
            assert(last.steps.len() == 0);
            assert(last.retries() == 0 && next.retries() == 0);
        } else {
            notes_loss(next);
        }
    }
}

/// Whether a message of the system, or the rest of its handling, may put the television to standby.
pub open spec fn may_stand_by(stage: SystemStage) -> bool {
    match stage {
        SystemStage::OwnAddress { standby_tv, force } => standby_tv || force,
        SystemStage::Inactive { standby_tv, force } => standby_tv || force,
        _ => false,
    }
}

/// The television is not put to standby unless the message of the system asks for that: not at once,
/// and not at any later step.
pub proof fn television_stays_on(
    handling: SystemHandling,
    task: DeviceTask,
    message: SystemMessage,
    inactive_source_on_suspend: bool,
    input: LifecycleInput,
)
    requires
        !(message matches SystemMessage::Standby { standby_tv, force } && (standby_tv || force)),
        !may_stand_by(handling.stage),
    ensures
        ({
            let (stage, action) = handling.started(task, message, inactive_source_on_suspend);
            !may_stand_by(stage) && action != LifecycleAction::Transmit(
                Message::Standby,
                LogicalAddress::Tv,
            )
        }),
        ({
            let (stage, action) = handling.moved(task, input);
            !may_stand_by(stage) && action != LifecycleAction::Transmit(
                Message::Standby,
                LogicalAddress::Tv,
            )
        }),
{
}

/// Unless it is forced to, a device that the television does not show leaves it on.
pub proof fn only_the_active_source_stands_by(task: DeviceTask, standby_tv: bool)
    requires
        !task.active,
    ensures
        SystemHandling::standing_by(task, standby_tv, false) == SystemHandling::ended(Ok(())),
{
}

/// Whether a message of the system, or the rest of its handling, may wake the television.
pub open spec fn may_wake(stage: SystemStage) -> bool {
    stage matches SystemStage::Resumed { wake_tv } && wake_tv
}

/// The television is not woken unless the message of the system asks for that: not at once, and not
/// at any later step.
pub proof fn television_stays_off(
    handling: SystemHandling,
    task: DeviceTask,
    message: SystemMessage,
    inactive_source_on_suspend: bool,
    input: LifecycleInput,
)
    requires
        !(message matches SystemMessage::Wake { wake_tv, from_standby } && wake_tv),
        !may_wake(handling.stage),
    ensures
        ({
            let (stage, action) = handling.started(task, message, inactive_source_on_suspend);
            !may_wake(stage) && action != LifecycleAction::WithLogicalAddress(Deferred::Wake)
        }),
        ({
            let (stage, action) = handling.moved(task, input);
            !may_wake(stage) && action != LifecycleAction::WithLogicalAddress(Deferred::Wake)
        }),
{
}

/// A button that was held down without a failure has been released in the end.
pub proof fn held_buttons_are_released(repeat: KeyRepeat, input: RepeatInput)
    requires
        repeat.stage != RepeatStage::Over,
    ensures
        repeat.moved(input).1 == RepeatAction::Return(Ok(())) ==> repeat.stage
            == RepeatStage::Released,
        repeat.moved(input).0 == RepeatStage::Released ==> repeat.moved(input).1
            == RepeatAction::Release(repeat.log_addr),
        repeat.stage == RepeatStage::Waited && input is Cancelled ==> repeat.moved(input).0
            == RepeatStage::Released,
{
}

/// The task of a device once something has come of an action: a device that was configured may have
/// another connector.
pub open spec fn noted(task: DeviceTask, input: LifecycleInput) -> DeviceTask {
    match input {
        LifecycleInput::Configured(connector) => DeviceTask { connector, ..task },
        _ => task,
    }
}

/// A point in the handling of a message of the system: the state and what is done there.
pub struct SystemPoint {
    pub handling: SystemHandling,
    pub task: DeviceTask,
    pub action: LifecycleAction,
}

impl SystemPoint {
    /// Whether a message of the system has just come.
    pub open spec fn begins(
        self,
        message: SystemMessage,
        inactive_source_on_suspend: bool,
    ) -> bool {
        (self.handling.stage, self.action) == self.handling.started(
            self.task,
            message,
            inactive_source_on_suspend,
        )
    }

    /// The point that follows on what came of the action.
    pub open spec fn given(self, input: LifecycleInput) -> SystemPoint {
        let (stage, action) = self.handling.moved(self.task, input);
        SystemPoint {
            handling: SystemHandling { stage, ..self.handling },
            task: noted(self.task, input),
            action,
        }
    }

    /// Whether nothing is left to do, and nothing went wrong.
    pub open spec fn is_done(self) -> bool {
        self.action == LifecycleAction::Return(Ok(())) && self.handling.stage == SystemStage::Over
    }

    /// Whether the handling ends with a failure.
    pub open spec fn has_failed(self, e: Error) -> bool {
        self.action == LifecycleAction::Return(Err(e)) && self.handling.stage == SystemStage::Over
    }

    /// Whether something is done as soon as the device has a logical address.
    pub open spec fn defers(self, deferred: Deferred) -> bool {
        self.action == LifecycleAction::WithLogicalAddress(deferred)
    }

    /// Whether all devices are told that this one is on, it is then asked who is the active source
    /// where that is wanted, and that is all, whatever comes of it.
    pub open spec fn reports_power(self, i: LifecycleInput, j: LifecycleInput) -> bool {
        &&& self.defers(Deferred::ReportPowerOn)
        &&& if self.handling.request_active_source {
            self.given(i).defers(Deferred::PendingActivate) && self.given(i).given(j).is_done()
        } else {
            self.given(i).is_done()
        }
    }

    /// Whether the television is put to standby and that is all, whatever comes of it.
    pub open spec fn stands_by(self, i: LifecycleInput) -> bool {
        &&& self.action == LifecycleAction::Transmit(Message::Standby, LogicalAddress::Tv)
        &&& self.given(i).is_done()
    }
}

/// After the system has slept, the device is found again first. Then the television is woken if
/// that is asked for, once, and after that all devices are told that this one is on. Whatever comes
/// of one of these, the others are done.
pub proof fn a_resume_wakes_the_television(
    at: SystemPoint,
    wake_tv: bool,
    inactive_source_on_suspend: bool,
    h: LifecycleInput,
    i: LifecycleInput,
    j: LifecycleInput,
    k: LifecycleInput,
)
    requires
        at.begins(
            SystemMessage::Wake { wake_tv, from_standby: true },
            inactive_source_on_suspend,
        ),
    ensures
        at.action == LifecycleAction::Resume,
        if wake_tv {
            &&& at.given(h).defers(Deferred::Wake)
            &&& at.given(h).given(i).reports_power(j, k)
        } else {
            at.given(h).reports_power(i, j)
        },
{
}

/// Without a sleep before it, a message to wake wakes the television if that is asked for, once,
/// and that is all.
pub proof fn a_call_wakes_the_television(
    at: SystemPoint,
    wake_tv: bool,
    inactive_source_on_suspend: bool,
    h: LifecycleInput,
)
    requires
        at.begins(
            SystemMessage::Wake { wake_tv, from_standby: false },
            inactive_source_on_suspend,
        ),
    ensures
        if wake_tv {
            at.defers(Deferred::Wake) && at.given(h).is_done()
        } else {
            at.is_done()
        },
{
}

/// A device that goes to sleep says before that it is no source any more, where that is wanted and
/// it knows its address. Then the television is put to standby by force, or where that is asked for
/// and it shows the device.
pub proof fn a_suspend_puts_the_television_to_standby(
    at: SystemPoint,
    standby_tv: bool,
    force: bool,
    inactive_source_on_suspend: bool,
    address: PhysicalAddress,
    e: Error,
    h: LifecycleInput,
    i: LifecycleInput,
)
    requires
        at.begins(SystemMessage::Standby { standby_tv, force }, inactive_source_on_suspend),
    ensures
        ({
            let sleeps = force || (standby_tv && at.task.active);
            if inactive_source_on_suspend {
                let told = at.given(LifecycleInput::Address(address));
                let untold = at.given(LifecycleInput::Failed(e));
                &&& at.action == LifecycleAction::ReadPhysicalAddress
                &&& told.action == LifecycleAction::Transmit(
                    Message::InactiveSource { address },
                    LogicalAddress::Tv,
                )
                &&& sleeps ==> told.given(h).stands_by(i) && untold.stands_by(i)
                &&& !sleeps ==> told.given(h).is_done() && untold.is_done()
            } else {
                &&& sleeps ==> at.stands_by(i)
                &&& !sleeps ==> at.is_done()
            }
        }),
{
}

/// A configuration that has been read again is applied to the device and then to its keys. The
/// first failure is reported.
pub proof fn a_reload_is_applied(
    at: SystemPoint,
    inactive_source_on_suspend: bool,
    connector: Option<DrmConnector>,
    e: Error,
)
    requires
        at.begins(SystemMessage::ReloadConfig, inactive_source_on_suspend),
    ensures
        at.action == LifecycleAction::Configure,
        at.given(LifecycleInput::Failed(e)).has_failed(e),
        at.given(LifecycleInput::Failed(e)).task == at.task,
        ({
            let configured = at.given(LifecycleInput::Configured(connector));
            &&& configured.task.connector == connector
            &&& configured.action == LifecycleAction::ConfigureUinput
            &&& configured.given(LifecycleInput::Done).is_done()
            &&& configured.given(LifecycleInput::Failed(e)).has_failed(e)
        }),
{
}

/// A device is configured again where its connector has changed, or where it cannot be told whose
/// connector has. Its keys stay as they are.
pub proof fn a_changed_connector_is_configured(
    at: SystemPoint,
    info: ConnectorInfo,
    inactive_source_on_suspend: bool,
    own: ConnectorInfo,
    connector: Option<DrmConnector>,
    e: Error,
)
    requires
        at.begins(SystemMessage::ReconfigureConnector(info), inactive_source_on_suspend),
    ensures
        ({
            let asked = info is DrmConnector && at.task.connector is Some;
            let known = at.given(LifecycleInput::Info(own));
            let configuring = if asked { known } else { at };
            &&& info is Unknown ==> at.is_done()
            &&& asked ==> at.action == LifecycleAction::DescribeConnector && at.given(
                LifecycleInput::Failed(e),
            ).has_failed(e)
            &&& asked && own != info ==> known.is_done()
            &&& !(info is Unknown) && (asked ==> own == info) ==> {
                &&& configuring.action == LifecycleAction::Configure
                &&& configuring.given(LifecycleInput::Configured(connector)).is_done()
                &&& configuring.given(LifecycleInput::Configured(connector)).task.connector
                    == connector
                &&& configuring.given(LifecycleInput::Failed(e)).has_failed(e)
            }
        }),
{
}

/// A button that is held down is pressed, and pressed again each time 450 milliseconds have passed,
/// until it is released. The first failure ends that.
pub proof fn a_held_button_is_repeated(
    log_addr: LogicalAddress,
    key: UiCommand,
    e: Error,
)
    ensures
        ({
            let (pressed, press) = KeyRepeat::begun(log_addr, key);
            let (stage, action) = pressed.moved(RepeatInput::Done);
            let waiting = KeyRepeat { stage, ..pressed };
            let (stage, again) = waiting.moved(RepeatInput::Elapsed);
            let (gone, release) = waiting.moved(RepeatInput::Cancelled);
            let released = KeyRepeat { stage: gone, ..pressed };
            &&& press == RepeatAction::Press(key, log_addr)
            &&& action == RepeatAction::Wait(450)
            &&& again == RepeatAction::Press(key, log_addr)
            &&& KeyRepeat { stage, ..pressed } == pressed
            &&& release == RepeatAction::Release(log_addr)
            &&& released.moved(RepeatInput::Done) == (
                RepeatStage::Over,
                RepeatAction::Return(Ok(())),
            )
            &&& pressed.moved(RepeatInput::Failed(e)).1 == RepeatAction::Return(Err(e))
            &&& released.moved(RepeatInput::Failed(e)).1 == RepeatAction::Return(Err(e))
        }),
{
}

/// What is read of a device when its state has changed: the address, the logical addresses and the
/// vendor, in this order.
pub open spec fn read_numbers(input: LifecycleInput) -> Seq<u8> {
    match input {
        LifecycleInput::LogicalAddresses(log_addrs) => log_addrs@,
        _ => Seq::empty(),
    }
}

/// The number of the vendor that is read: the three bytes of its identifier, or -1 for none.
pub open spec fn read_vendor(input: LifecycleInput) -> int {
    match input {
        LifecycleInput::Vendor(Some(vendor)) => vendor.0[0] * 65536 + vendor.0[1] * 256
            + vendor.0[2],
        _ => -1,
    }
}

/// An action where something holds.
pub open spec fn only_if(holds: bool, action: LifecycleAction) -> Seq<LifecycleAction> {
    if holds {
        seq![action]
    } else {
        Seq::empty()
    }
}

/// What is done once a device has a logical address: what has waited for that, in order, then an
/// audio system is asked for, and then the active source where that is wanted.
pub open spec fn catching_up(queue: Seq<Deferred>, request_active_source: bool) -> Seq<
    LifecycleAction,
> {
    queue.map_values(|d: Deferred| LifecycleAction::Run(d)) + seq![
        LifecycleAction::QueryAudioSystem,
    ] + only_if(
        request_active_source,
        LifecycleAction::WithLogicalAddress(Deferred::PendingActivate),
    )
}

/// What is done about logical addresses.
pub open spec fn settling(
    task: DeviceTask,
    phys_addr: u16,
    log_addrs: Seq<u8>,
    request_active_source: bool,
) -> Seq<LifecycleAction> {
    if task.cached.log_addrs@ == log_addrs {
        only_if(
            log_addrs.len() == 0 && phys_addr != 0xffff && task.log_addr_try > 0,
            LifecycleAction::Configure,
        )
    } else {
        seq![LifecycleAction::EmitLogicalAddressesChanged] + (if log_addrs.len() == 0 {
            Seq::empty()
        } else {
            catching_up(task.queue@, request_active_source)
        })
    }
}

impl ChangeRun {
    /// What is done, step by step.
    pub open spec fn actions(self) -> Seq<LifecycleAction> {
        self.steps.map_values(|step: ChangeStep| step.action)
    }

    /// Whether those who watch can be told all, and a device that is configured again can be.
    pub open spec fn works(self) -> bool
        decreases self.steps.len(),
    {
        self.steps.len() > 0 ==> {
            &&& match self.change.stage {
                ChangeStage::AddressTold => !(self.steps[0].input is Failed),
                ChangeStage::VendorTold => !(self.steps[0].input is Failed),
                ChangeStage::LogicalTold => !(self.steps[0].input is Failed),
                ChangeStage::Configured => !(self.steps[0].input is Failed),
                _ => true,
            }
            &&& self.advanced().works()
        }
    }
}

/// When the state of a device has changed, its address, logical addresses and vendor are read, and
/// those who watch are told each of them that has changed. New logical addresses let what has
/// waited for them be done. Without any, a device that is connected is configured again while tries
/// are left. In the end those who watch know what was read.
pub proof fn a_change_is_worked_off(run: ChangeRun)
    requires
        run.change.stage == ChangeStage::Address,
        run.follows(),
        run.works(),
        run.ended().change.stage == ChangeStage::Over,
    ensures
        run.steps.len() > 2,
        ({
            let phys_addr = run.address();
            let log_addrs = read_numbers(run.steps[1].input);
            let vendor = read_vendor(run.steps[2].input);
            let known = run.task.cached;
            let now = run.ended().task;
            &&& run.actions() == seq![
                LifecycleAction::ReadLogicalAddresses,
                LifecycleAction::ReadVendorId,
            ] + (only_if(
                known.phys_addr != phys_addr,
                LifecycleAction::EmitPhysicalAddressChanged,
            ) + (only_if(known.vendor_id != vendor, LifecycleAction::EmitVendorIdChanged) + (
            settling(run.task, phys_addr, log_addrs, run.change.request_active_source) + seq![
                LifecycleAction::Return(Ok(())),
            ])))
            &&& now.cached.phys_addr == phys_addr
            &&& now.cached.vendor_id == vendor
            &&& now.cached.log_addrs@ == log_addrs
            &&& now.active == run.task.active && now.cached.active == known.active
            &&& known.log_addrs@ != log_addrs && log_addrs.len() > 0 ==> now.queue@.len() == 0
        }),
{
    let one = run.advanced();
    assert(run.steps.len() > 0);
    assert(run.ended() == one.ended() && one.follows() && one.works());
    assert(one.steps.len() > 0);
    let two = one.advanced();
    assert(one.ended() == two.ended() && two.follows() && two.works());
    assert(two.steps.len() > 0);
    assert(two.steps[0] == run.steps[2] && one.steps[0] == run.steps[1]);
    vendor_bytes(run.steps[2].input);
    let three = two.advanced();
    assert(two.ended() == three.ended() && three.follows() && three.works());
    works_off(three);
    assert(three.change.vendor_id == read_vendor(run.steps[2].input));
    first_action(run);
    first_action(one);
    first_action(two);
    let rest = only_if(
        run.task.cached.vendor_id != three.change.vendor_id,
        LifecycleAction::EmitVendorIdChanged,
    ) + left(ChangeRun { change: StateChange { stage: ChangeStage::VendorTold, ..three.change }, ..two });
    assert(two.actions() =~= only_if(
        run.task.cached.phys_addr != run.address(),
        LifecycleAction::EmitPhysicalAddressChanged,
    ) + rest);
    assert(run.actions() =~= seq![
        LifecycleAction::ReadLogicalAddresses,
        LifecycleAction::ReadVendorId,
    ] + two.actions());
}

proof fn vendor_bytes(input: LifecycleInput)
    ensures
        vendor_number(
            match input {
                LifecycleInput::Vendor(vendor) => vendor,
                _ => None,
            },
        ) == read_vendor(input),
{
}

proof fn first_action(run: ChangeRun)
    requires
        run.steps.len() > 0,
    ensures
        run.actions() == seq![run.steps[0].action] + run.advanced().actions(),
{
    assert(run.actions() =~= seq![run.steps[0].action] + run.advanced().actions());
}

/// What is left to do once it has been told that something has changed.
spec fn left(run: ChangeRun) -> Seq<LifecycleAction> {
    let change = run.change;
    let settled = settling(
        run.task,
        change.phys_addr,
        change.log_addrs@,
        change.request_active_source,
    );
    (match change.stage {
        ChangeStage::AddressTold => only_if(
            run.task.cached.vendor_id != change.vendor_id,
            LifecycleAction::EmitVendorIdChanged,
        ) + settled,
        ChangeStage::VendorTold => settled,
        ChangeStage::LogicalTold => if change.log_addrs@.len() == 0 {
            Seq::empty()
        } else {
            catching_up(run.task.queue@, change.request_active_source)
        },
        ChangeStage::Ran(i) => catching_up(
            change.pending@.skip(i as int),
            change.request_active_source,
        ),
        ChangeStage::AudioAsked => only_if(
            change.request_active_source,
            LifecycleAction::WithLogicalAddress(Deferred::PendingActivate),
        ),
        _ => Seq::empty(),
    }) + (if change.stage == ChangeStage::Over {
        Seq::empty()
    } else {
        seq![LifecycleAction::Return(Ok(()))]
    })
}

proof fn catches_up(queue: Seq<Deferred>, request_active_source: bool)
    ensures
        catching_up(queue, request_active_source) == (if queue.len() > 0 {
            seq![LifecycleAction::Run(queue[0])] + catching_up(queue.skip(1), request_active_source)
        } else {
            seq![LifecycleAction::QueryAudioSystem] + only_if(
                request_active_source,
                LifecycleAction::WithLogicalAddress(Deferred::PendingActivate),
            )
        }),
{
    if queue.len() > 0 {
        assert(catching_up(queue, request_active_source) =~= seq![LifecycleAction::Run(queue[0])]
            + catching_up(queue.skip(1), request_active_source));
    } else {
        assert(catching_up(queue, request_active_source) =~= seq![
            LifecycleAction::QueryAudioSystem,
        ] + only_if(
            request_active_source,
            LifecycleAction::WithLogicalAddress(Deferred::PendingActivate),
        ));
    }
}

#[verifier::rlimit(60)]
proof fn works_off(run: ChangeRun)
    requires
        run.follows(),
        run.works(),
        run.ended().change.stage == ChangeStage::Over,
        run.change.stage != ChangeStage::Address,
        run.change.stage != ChangeStage::LogicalAddresses,
        run.change.stage != ChangeStage::Vendor,
    ensures
        run.actions() == left(run),
        ({
            let change = run.change;
            let was = run.task;
            let now = run.ended().task;
            &&& now.active == was.active && now.cached.active == was.cached.active
            &&& now.cached.phys_addr == was.cached.phys_addr
            &&& now.cached.vendor_id == (if change.stage == ChangeStage::AddressTold {
                change.vendor_id
            } else {
                was.cached.vendor_id
            })
            &&& now.cached.log_addrs@ == (if change.stage == ChangeStage::AddressTold
                || change.stage == ChangeStage::VendorTold {
                change.log_addrs@
            } else {
                was.cached.log_addrs@
            })
            &&& change.stage == ChangeStage::AddressTold || change.stage == ChangeStage::VendorTold
                ==> was.cached.log_addrs@ != change.log_addrs@ && change.log_addrs@.len() > 0
                ==> now.queue@.len() == 0
            &&& change.stage == ChangeStage::LogicalTold ==> change.log_addrs@.len() > 0
                ==> now.queue@.len() == 0
            &&& change.stage is Ran || change.stage == ChangeStage::AudioAsked || change.stage
                == ChangeStage::Queued ==> now.queue@ == was.queue@
        }),
    decreases run.steps.len(),
{
    if run.steps.len() > 0 {
        first_action(run);
        let next = run.advanced();
        works_off(next);
        match run.change.stage {
            ChangeStage::Ran(i) => {
                let rest = run.change.pending@.skip(i as int);
                catches_up(rest, run.change.request_active_source);
                assert(run.change.pending.len() == run.change.pending@.len());
                if rest.len() > 0 {
                    assert(next.change.stage == ChangeStage::Ran((i + 1) as usize));
                    assert(rest.skip(1) =~= next.change.pending@.skip(i + 1));
                }
                assert(run.actions() =~= left(run));
            },
            ChangeStage::LogicalTold => {
                catches_up(run.task.queue@, run.change.request_active_source);
                assert(run.actions() =~= left(run));
            },
            _ => {
                assert(run.actions() =~= left(run));
            },
        }
    } else {
        assert(run.actions() =~= Seq::empty());
        assert(left(run) =~= Seq::empty());
    }
}

/// The task asks for an audio system first, and then for the active source where that is wanted.
/// From then on it waits.
pub proof fn a_task_begins_with_questions(request_active_source: bool)
    ensures
        DeviceTask::step_after(TaskEvent::Started, request_active_source)
            == TaskStep::QueryAudioSystem,
        DeviceTask::step_after(TaskEvent::AudioAsked, true) == TaskStep::WithLogicalAddress(
            Deferred::PendingActivate,
        ),
        DeviceTask::step_after(TaskEvent::AudioAsked, false) == TaskStep::Wait,
        DeviceTask::step_after(TaskEvent::Done, request_active_source) == TaskStep::Wait,
{
}

/// What a poll finds is read, and what is read is handled. What goes wrong with that is let go.
pub proof fn what_is_found_is_handled(
    status: PollStatus,
    results: Vec<PollResult>,
    e: Error,
    request_active_source: bool,
)
    ensures
        status != PollStatus::Destroyed ==> DeviceTask::step_after(
            TaskEvent::Polled(Ok(status)),
            request_active_source,
        ) == TaskStep::HandleStatus(status),
        DeviceTask::step_after(TaskEvent::StatusHandled(Ok(results)), request_active_source)
            == TaskStep::HandleResults(results),
        DeviceTask::step_after(TaskEvent::Polled(Err(e)), request_active_source) == TaskStep::Wait,
        DeviceTask::step_after(TaskEvent::StatusHandled(Err(e)), request_active_source)
            == TaskStep::Wait,
{
}

/// Messages of the system are handled. The device is withdrawn where it is gone, where no messages
/// can come any more, and where the task is to end; and only where it is gone, so is what belongs to
/// it.
pub proof fn a_task_ends_with_its_device(
    message: SystemMessage,
    event: TaskEvent,
    request_active_source: bool,
)
    ensures
        DeviceTask::step_after(TaskEvent::Message(Some(message)), request_active_source)
            == TaskStep::HandleMessage(message),
        ({
            let step = DeviceTask::step_after(event, request_active_source);
            let gone = event == TaskEvent::Polled(Ok(PollStatus::Destroyed));
            &&& gone ==> step == (TaskStep::Deregister { gone: true })
            &&& event is Cancelled || event == TaskEvent::Message(None) ==> step == (
            TaskStep::Deregister { gone: false })
            &&& step is Deregister ==> gone || event is Cancelled || event == TaskEvent::Message(
                None,
            )
        }),
{
}

/// What needs a logical address is done at once where there is one, and else waits behind all that
/// waits already.
pub proof fn what_needs_an_address_waits(
    queue: Seq<Deferred>,
    deferred: Deferred,
    log_addrs: usize,
)
    ensures
        queued(queue, deferred, log_addrs).1 <==> log_addrs != 0,
        log_addrs != 0 ==> queued(queue, deferred, log_addrs).0 == queue,
        log_addrs == 0 ==> queued(queue, deferred, log_addrs).0 == queue + seq![deferred],
{
    assert(queue.push(deferred) =~= queue + seq![deferred]);
}

/// A device with a logical address asks all others for the active source and the audio system for
/// its mode, and tells all others that it is on. Without one it asks nothing.
pub proof fn questions_have_bytes(log_addrs: usize)
    ensures
        log_addrs > 0 ==> (source_question(log_addrs) matches Some((message, address))
            && message.encoded() == seq![0x85u8] && address.code() == 15),
        log_addrs > 0 ==> (audio_question(log_addrs) matches Some((message, address))
            && message.encoded() == seq![0x7du8] && address.code() == 5),
        log_addrs == 0 ==> source_question(log_addrs) is None && audio_question(log_addrs) is None,
        power_report().0.encoded() == seq![0x90u8, 0x00u8],
        power_report().1.code() == 15,
{
    crate::numbers::plain_messages(Message::RequestActiveSource);
    crate::numbers::plain_messages(Message::GiveSystemAudioModeStatus);
    crate::numbers::source_messages(power_report().0);
    assert(power_report().0.encoded() =~= seq![0x90u8, 0x00u8]);
}

/// The handling of a change of state begins with the physical address.
pub proof fn a_change_begins_with_the_address(
    change: StateChange,
    request_active_source: bool,
    action: LifecycleAction,
)
    requires
        change.begins(request_active_source, action),
    ensures
        change.stage == ChangeStage::Address,
        change.request_active_source == request_active_source,
        change.awaits(LifecycleInput::Address(PhysicalAddress(0))),
        action == LifecycleAction::ReadPhysicalAddress,
{
}

/// A device that has just been configured is not active, nothing waits for it, the television makes
/// the sound, and it may be configured again twenty times.
pub proof fn a_new_task_knows_nothing(
    task: DeviceTask,
    connector: Option<DrmConnector>,
    cached: Properties,
    has_uinput: bool,
)
    requires
        task.is_new(connector, cached, has_uinput),
    ensures
        !task.active && !task.awaiting_wake && task.active_key is None,
        task.queue@.len() == 0,
        task.audio_log_addr.code() == 0,
        task.log_addr_try == 20,
        task.connector == connector && task.cached == cached && task.has_uinput == has_uinput,
{
}

/// A device that was configured has the connector that was found, and all else stays.
pub proof fn connectors_are_noted(
    task: DeviceTask,
    connector: Option<DrmConnector>,
    input: LifecycleInput,
)
    ensures
        noted(task, LifecycleInput::Configured(connector)).connector == connector,
        task == (DeviceTask {
            connector: task.connector,
            ..noted(task, LifecycleInput::Configured(connector))
        }),
        !(input is Configured) ==> noted(task, input) == task,
{
}

/// Buttons are turned into keys where that is wanted and at least one of them stands for a key.
pub proof fn keys_are_made_of_mapped_buttons(config: ConfigView)
    ensures
        makes_keys(config) <==> config.uinput && exists|c: UiCommand| #[trigger]
            config.mappings.dom().contains(c),
{
    if forall|c: UiCommand| !#[trigger] config.mappings.dom().contains(c) {
        assert(config.mappings =~= Map::empty());
    }
}

} // verus!
