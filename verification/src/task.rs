//! The task of a device: how it answers messages from the bus.

use vstd::prelude::*;

use crate::address::{LogicalAddress, PhysicalAddress};
use crate::codec::{Coded, OperandEncodable};
use crate::device::{Envelope, MessageData};
use crate::drm::DrmConnector;
use crate::error::{Error, TxError};
use crate::message::{Message, Opcode};
use crate::operand::{AbortReason, PowerStatus, UiCommand};

verus! {

/// How often a device without a logical address is configured again.
pub const LOG_ADDR_RETRIES: i32 = 20;

/// How often a reply is sent before the task gives up.
pub const REPLY_RETRIES: u32 = 4;

/// What is to be done once the device has a logical address.
#[derive(Debug, Copy, Clone, PartialEq, Eq, Structural)]
pub enum Deferred {
    /// Ask who is the active source, and take the device for it until someone answers.
    PendingActivate,
    /// Wake the television.
    Wake,
    /// Tell all devices that this one is on.
    ReportPowerOn,
}

/// What is known of a device to those who watch it.
#[derive(Debug, Clone)]
pub struct Properties {
    pub phys_addr: u16,
    pub vendor_id: i32,
    pub log_addrs: Vec<u8>,
    pub active: bool,
    pub audio_log_addr: u8,
}

/// The state of the task of a device.
pub struct DeviceTask {
    /// The button that is held down.
    pub active_key: Option<UiCommand>,
    /// How often the device may still be configured again for want of a logical address.
    pub log_addr_try: i32,
    /// Whether the television has been woken and has not answered yet.
    pub awaiting_wake: bool,
    /// Whether the device is the active source.
    pub active: bool,
    pub connector: Option<DrmConnector>,
    /// The device that plays the sound.
    pub audio_log_addr: LogicalAddress,
    /// What is to be done once the device has a logical address.
    pub queue: Vec<Deferred>,
    pub cached: Properties,
    /// Whether buttons are turned into keys.
    pub has_uinput: bool,
}

/// What has to be done outside to handle a message.
pub enum TaskAction {
    /// Tell those who watch that a message was received.
    EmitReceived,
    EmitPressed(UiCommand),
    EmitReleased,
    EmitActiveChanged,
    EmitAudioChanged,
    KeyUp(UiCommand),
    KeyDown(UiCommand),
    ReadPhysicalAddress,
    Suspend,
    /// Let a registered handler answer a message with an opcode.
    AskHandler(u8),
    Transmit(Message, LogicalAddress),
    /// Nothing more.
    Return(Result<(), Error>),
}

/// What came of it.
pub enum TaskInput {
    Done,
    Address(PhysicalAddress),
    /// The answer of a handler, if it has one.
    Answer(Option<(Message, LogicalAddress)>),
    /// There is no such handler.
    NoHandler,
    Failed(Error),
}

/// What a registered handler says of a message.
#[derive(Debug, Copy, Clone, PartialEq, Eq, Structural)]
pub enum HandlerAnswer {
    /// It has handled the message.
    Handled,
    /// The message is to be refused.
    Refused(AbortReason),
    /// Nothing in time, or it failed.
    Silent,
}

impl HandlerAnswer {
    /// What is to be sent back to the one who sent a message with an opcode.
    pub open spec fn replied(self, opcode: u8, initiator: LogicalAddress) -> Option<
        (Message, LogicalAddress),
    > {
        match self {
            HandlerAnswer::Handled => None,
            HandlerAnswer::Refused(abort_reason) => Some(
                (Message::FeatureAbort { opcode, abort_reason }, initiator),
            ),
            HandlerAnswer::Silent => Some(
                (
                    Message::FeatureAbort { opcode, abort_reason: AbortReason::Undetermined },
                    initiator,
                ),
            ),
        }
    }

    /// What is to be sent back to the one who sent a message with an opcode.
    pub fn reply(self, opcode: u8, initiator: LogicalAddress) -> (r: Option<
        (Message, LogicalAddress),
    >)
        ensures
            r == self.replied(opcode, initiator),
    {
        let abort_reason = match self {
            HandlerAnswer::Handled => return None,
            HandlerAnswer::Refused(abort_reason) => abort_reason,
            HandlerAnswer::Silent => AbortReason::Undetermined,
        };
        Some((Message::FeatureAbort { opcode, abort_reason }, initiator))
    }
}

/// What is awaited.
pub enum Stage {
    Received,
    Pressed(UiCommand),
    Lifted(UiCommand),
    Lowered(UiCommand),
    Released,
    KeyReleased,
    /// The own address, to compare it with that of a stream path.
    StreamPath(PhysicalAddress),
    /// The own address, to compare it with that of the active source.
    Source(PhysicalAddress),
    /// The own address, to compare it with that of a new route.
    Route(PhysicalAddress),
    /// The own address, to send it.
    OwnAddress,
    Suspended,
    Answered,
    AudioChanged,
    /// That it was told whether the device is active, before a reply if there is one.
    ActiveChanged(Option<(Message, LogicalAddress)>),
    /// That a reply was sent, for the nth time.
    Sent(Message, LogicalAddress, u32),
    Over,
}

/// The handling of a message, while it goes on.
pub struct MessageHandling {
    pub message: MessageData,
    pub initiator: LogicalAddress,
    pub destination: LogicalAddress,
    /// The opcode of the message.
    pub opcode: u8,
    /// Whether the device may be put to standby.
    pub allow_standby: bool,
    pub stage: Stage,
}

/// The kinds of messages that the task answers by itself.
pub fn static_handlers() -> (r: Vec<Opcode>)
    ensures
        r@ == seq![
            Opcode::GiveDevicePowerStatus,
            Opcode::UserControlPressed,
            Opcode::UserControlReleased,
            Opcode::SetStreamPath,
            Opcode::Standby,
            Opcode::RoutingChange,
            Opcode::RequestActiveSource,
            Opcode::FeatureAbort,
            Opcode::ActiveSource,
        ],
{
    vec![
        Opcode::GiveDevicePowerStatus,
        Opcode::UserControlPressed,
        Opcode::UserControlReleased,
        Opcode::SetStreamPath,
        Opcode::Standby,
        Opcode::RoutingChange,
        Opcode::RequestActiveSource,
        Opcode::FeatureAbort,
        Opcode::ActiveSource,
    ]
}

/// Whether sending a reply is worth another try after an error.
pub open spec fn is_transient(e: Error) -> bool {
    e == Error::TxError(TxError::UnknownError) || e == Error::TxError(TxError::Aborted)
}

fn transient(e: &Error) -> (r: bool)
    ensures
        r == is_transient(*e),
{
    match e {
        Error::TxError(TxError::UnknownError) => true,
        Error::TxError(TxError::Aborted) => true,
        _ => false,
    }
}

/// What the task does about a message, by its kind.
pub enum Reaction {
    /// Send a reply.
    Reply(Message, LogicalAddress),
    Press(UiCommand),
    Release,
    /// Read the own address and go on at a stage.
    Compare(Stage),
    Suspend,
    /// The sound is played by a device.
    Audio(LogicalAddress),
    /// Let a registered handler answer.
    Dispatch,
    Ignore,
}

/// What is done about a message that the task does not answer by itself: a handler does, unless it
/// went to all devices.
pub open spec fn otherwise(destination: LogicalAddress) -> Reaction {
    if destination != LogicalAddress::Unregistered {
        Reaction::Dispatch
    } else {
        Reaction::Ignore
    }
}

impl DeviceTask {
    /// What the task does about a message.
    pub open spec fn reaction(
        &self,
        data: MessageData,
        initiator: LogicalAddress,
        destination: LogicalAddress,
        allow_standby: bool,
    ) -> Reaction {
        match data {
            MessageData::Valid(message) => match message {
                Message::GiveDevicePowerStatus => Reaction::Reply(
                    Message::ReportPowerStatus { status: PowerStatus::On },
                    initiator,
                ),
                Message::UserControlPressed { ui_command } => Reaction::Press(ui_command),
                Message::UserControlReleased => Reaction::Release,
                Message::SetStreamPath { address } => Reaction::Compare(Stage::StreamPath(address)),
                Message::ActiveSource { address } => Reaction::Compare(Stage::Source(address)),
                Message::Standby => if allow_standby {
                    Reaction::Suspend
                } else {
                    otherwise(destination)
                },
                Message::RoutingChange { original_address: _, new_address } => Reaction::Compare(
                    Stage::Route(new_address),
                ),
                Message::RequestActiveSource => if self.awaiting_wake || self.active {
                    Reaction::Compare(Stage::OwnAddress)
                } else {
                    otherwise(destination)
                },
                Message::SetSystemAudioMode { status } => Reaction::Audio(
                    if status {
                        initiator
                    } else {
                        LogicalAddress::Tv
                    },
                ),
                Message::SystemAudioModeStatus { status } => Reaction::Audio(
                    if status {
                        initiator
                    } else {
                        LogicalAddress::Tv
                    },
                ),
                Message::FeatureAbort { .. } => Reaction::Ignore,
                _ => otherwise(destination),
            },
            MessageData::Invalid(_) => otherwise(destination),
        }
    }

    fn react(
        &self,
        data: &MessageData,
        initiator: LogicalAddress,
        destination: LogicalAddress,
        allow_standby: bool,
    ) -> (r: Reaction)
        ensures
            r == self.reaction(*data, initiator, destination, allow_standby),
    {
        match data {
            MessageData::Valid(message) => match message {
                Message::GiveDevicePowerStatus => return Reaction::Reply(
                    Message::ReportPowerStatus { status: PowerStatus::On },
                    initiator,
                ),
                Message::UserControlPressed { ui_command } => return Reaction::Press(*ui_command),
                Message::UserControlReleased => return Reaction::Release,
                Message::SetStreamPath { address } => return Reaction::Compare(
                    Stage::StreamPath(*address),
                ),
                Message::ActiveSource { address } => return Reaction::Compare(
                    Stage::Source(*address),
                ),
                Message::Standby => if allow_standby {
                    return Reaction::Suspend;
                },
                Message::RoutingChange { original_address: _, new_address } => return Reaction::Compare(
                    Stage::Route(*new_address),
                ),
                Message::RequestActiveSource => if self.awaiting_wake || self.active {
                    return Reaction::Compare(Stage::OwnAddress);
                },
                Message::SetSystemAudioMode { status } => return Reaction::Audio(
                    if *status {
                        initiator
                    } else {
                        LogicalAddress::Tv
                    },
                ),
                Message::SystemAudioModeStatus { status } => return Reaction::Audio(
                    if *status {
                        initiator
                    } else {
                        LogicalAddress::Tv
                    },
                ),
                Message::FeatureAbort { .. } => return Reaction::Ignore,
                _ => {},
            },
            MessageData::Invalid(_) => {},
        }
        if destination != LogicalAddress::Broadcast {
            Reaction::Dispatch
        } else {
            Reaction::Ignore
        }
    }

    /// The task once it is known whether the device is active.
    pub open spec fn with_active(self, active: bool) -> DeviceTask {
        if self.active == active {
            self
        } else {
            DeviceTask { active, cached: Properties { active, ..self.cached }, ..self }
        }
    }

    /// Whether those who watch have to be told that the device is active, or that it is not.
    pub open spec fn tells_active(self, active: bool) -> bool {
        self.active != active && self.cached.active != active
    }

    /// Note whether the device is active. Tells whether those who watch have to be told.
    pub fn set_active(&mut self, active: bool) -> (r: bool)
        ensures
            *final(self) == old(self).with_active(active),
            r == old(self).tells_active(active),
    {
        if self.active == active {
            return false;
        }
        self.active = active;
        if self.cached.active != active {
            self.cached.active = active;
            true
        } else {
            false
        }
    }
}

/// A state of the task and of the handling of a message, with what is to be done.
pub struct Move {
    pub task: DeviceTask,
    pub stage: Stage,
    pub action: TaskAction,
}

/// The end of the handling of a message.
pub open spec fn finish(task: DeviceTask) -> Move {
    Move { task, stage: Stage::Over, action: TaskAction::Return(Ok(())) }
}

/// A reply is sent, if there is one.
pub open spec fn send(task: DeviceTask, reply: Option<(Message, LogicalAddress)>) -> Move {
    match reply {
        Some((message, address)) => Move {
            task,
            stage: Stage::Sent(message, address, 1),
            action: TaskAction::Transmit(message, address),
        },
        None => finish(task),
    }
}

/// The device becomes active or not, and then a reply is sent, if there is one.
pub open spec fn activate(
    task: DeviceTask,
    active: bool,
    reply: Option<(Message, LogicalAddress)>,
) -> Move {
    if task.tells_active(active) {
        Move {
            task: task.with_active(active),
            stage: Stage::ActiveChanged(reply),
            action: TaskAction::EmitActiveChanged,
        }
    } else {
        send(task.with_active(active), reply)
    }
}

impl MessageHandling {
    /// The reply that tells all devices that this one is the active source.
    pub open spec fn active_source(own: PhysicalAddress) -> Option<(Message, LogicalAddress)> {
        Some((Message::ActiveSource { address: own }, LogicalAddress::Unregistered))
    }

    /// The reply that refuses the message.
    pub open spec fn refusal(self, abort_reason: AbortReason) -> Option<
        (Message, LogicalAddress),
    > {
        Some((Message::FeatureAbort { opcode: self.opcode, abort_reason }, self.initiator))
    }

    /// What follows once those who watch know that the message was received.
    pub open spec fn after_received(self, task: DeviceTask) -> Move {
        match task.reaction(self.message, self.initiator, self.destination, self.allow_standby) {
            Reaction::Reply(message, address) => send(task, Some((message, address))),
            Reaction::Press(command) => Move {
                task,
                stage: Stage::Pressed(command),
                action: TaskAction::EmitPressed(command),
            },
            Reaction::Release => Move {
                task,
                stage: Stage::Released,
                action: TaskAction::EmitReleased,
            },
            Reaction::Compare(stage) => Move {
                task,
                stage,
                action: TaskAction::ReadPhysicalAddress,
            },
            Reaction::Suspend => Move {
                task,
                stage: Stage::Suspended,
                action: TaskAction::Suspend,
            },
            Reaction::Audio(address) => {
                let now = DeviceTask { audio_log_addr: address, ..task };
                if task.cached.audio_log_addr != address.code() {
                    Move {
                        task: DeviceTask {
                            cached: Properties { audio_log_addr: address.code(), ..task.cached },
                            ..now
                        },
                        stage: Stage::AudioChanged,
                        action: TaskAction::EmitAudioChanged,
                    }
                } else {
                    finish(now)
                }
            },
            Reaction::Dispatch => Move {
                task,
                stage: Stage::Answered,
                action: TaskAction::AskHandler(self.opcode),
            },
            Reaction::Ignore => finish(task),
        }
    }

    /// What follows on what came of the last action.
    pub open spec fn moved(self, task: DeviceTask, input: TaskInput) -> Move {
        match (self.stage, input) {
            (Stage::Received, TaskInput::Done) => self.after_received(task),
            (Stage::Pressed(command), TaskInput::Done) => if !task.has_uinput {
                finish(DeviceTask { active_key: Some(command), ..task })
            } else {
                match task.active_key {
                    Some(held) => Move {
                        task,
                        stage: Stage::Lifted(command),
                        action: TaskAction::KeyUp(held),
                    },
                    None => Move {
                        task,
                        stage: Stage::Lowered(command),
                        action: TaskAction::KeyDown(command),
                    },
                }
            },
            (Stage::Lifted(command), TaskInput::Done) => Move {
                task,
                stage: Stage::Lowered(command),
                action: TaskAction::KeyDown(command),
            },
            (Stage::Lowered(command), TaskInput::Done) => finish(
                DeviceTask { active_key: Some(command), ..task },
            ),
            (Stage::Released, TaskInput::Done) => match task.active_key {
                Some(held) if task.has_uinput => Move {
                    task,
                    stage: Stage::KeyReleased,
                    action: TaskAction::KeyUp(held),
                },
                _ => finish(DeviceTask { active_key: None, ..task }),
            },
            (Stage::KeyReleased, TaskInput::Done) => finish(
                DeviceTask { active_key: None, ..task },
            ),
            (Stage::StreamPath(address), TaskInput::Address(own)) => if address == own {
                activate(task, true, Self::active_source(own))
            } else {
                activate(task, false, None)
            },
            (Stage::Source(address), TaskInput::Address(own)) => activate(
                task,
                address == own,
                None,
            ),
            (Stage::Route(address), TaskInput::Address(own)) => if address == own {
                activate(DeviceTask { awaiting_wake: false, ..task }, true, None)
            } else {
                activate(task, false, None)
            },
            (Stage::OwnAddress, TaskInput::Address(own)) => send(task, Self::active_source(own)),
            (Stage::Suspended, TaskInput::Done) => finish(task),
            (Stage::Suspended, TaskInput::Failed(_)) => send(
                task,
                self.refusal(AbortReason::IncorrectMode),
            ),
            (Stage::Answered, TaskInput::Answer(reply)) => send(task, reply),
            (Stage::Answered, TaskInput::NoHandler) => send(
                task,
                self.refusal(AbortReason::UnrecognizedOp),
            ),
            (Stage::AudioChanged, TaskInput::Done) => finish(task),
            (Stage::ActiveChanged(reply), TaskInput::Done) => send(task, reply),
            (Stage::Sent(_, _, _), TaskInput::Done) => finish(task),
            (Stage::Sent(message, address, n), TaskInput::Failed(e)) => if n < REPLY_RETRIES
                && is_transient(e) {
                Move {
                    task,
                    stage: Stage::Sent(message, address, (n + 1) as u32),
                    action: TaskAction::Transmit(message, address),
                }
            } else {
                Move { task, stage: Stage::Over, action: TaskAction::Return(Err(e)) }
            },
            (_, TaskInput::Failed(e)) => Move {
                task,
                stage: Stage::Over,
                action: TaskAction::Return(Err(e)),
            },
            _ => Move { task, stage: Stage::Over, action: TaskAction::Return(Ok(())) },
        }
    }

    /// Whether an input can come of the last action.
    pub open spec fn awaits(self, input: TaskInput) -> bool {
        match self.stage {
            Stage::Over => false,
            Stage::StreamPath(_) | Stage::Source(_) | Stage::Route(_) | Stage::OwnAddress => input
                is Address || input is Failed,
            Stage::Answered => input is Answer || input is NoHandler,
            _ => input is Done || input is Failed,
        }
    }

    /// The handling of a message at its beginning, and what is done first.
    pub open spec fn begun(envelope: Envelope, allow_standby: bool) -> (
        MessageHandling,
        TaskAction,
    ) {
        (
            MessageHandling {
                message: envelope.message,
                initiator: envelope.initiator,
                destination: envelope.destination,
                opcode: envelope.message.bytes()[0],
                allow_standby,
                stage: Stage::Received,
            },
            TaskAction::EmitReceived,
        )
    }

    /// Begin to handle a message.
    pub fn start(envelope: &Envelope, allow_standby: bool) -> (r: (MessageHandling, TaskAction))
        requires
            envelope.message.bytes().len() > 0,
        ensures
            r == Self::begun(*envelope, allow_standby),
    {
        (
            MessageHandling {
                message: envelope.message,
                initiator: envelope.initiator,
                destination: envelope.destination,
                opcode: envelope.message.opcode(),
                allow_standby,
                stage: Stage::Received,
            },
            TaskAction::EmitReceived,
        )
    }

    fn finish(&mut self) -> (action: TaskAction)
        ensures
            *final(self) == (MessageHandling { stage: Stage::Over, ..*old(self) }),
            action == TaskAction::Return(Ok(())),
    {
        self.stage = Stage::Over;
        TaskAction::Return(Ok(()))
    }

    fn send(&mut self, reply: Option<(Message, LogicalAddress)>) -> (action: TaskAction)
        ensures
            *final(self) == (MessageHandling { stage: final(self).stage, ..*old(self) }),
            forall|task: DeviceTask|
                #[trigger] send(task, reply) == (Move { task, stage: final(self).stage, action }),
    {
        match reply {
            Some((message, address)) => {
                self.stage = Stage::Sent(message, address, 1);
                TaskAction::Transmit(message, address)
            },
            None => self.finish(),
        }
    }

    fn activate(
        &mut self,
        task: &mut DeviceTask,
        active: bool,
        reply: Option<(Message, LogicalAddress)>,
    ) -> (action: TaskAction)
        ensures
            *final(self) == (MessageHandling { stage: final(self).stage, ..*old(self) }),
            activate(*old(task), active, reply) == (Move {
                task: *final(task),
                stage: final(self).stage,
                action,
            }),
    {
        if task.set_active(active) {
            self.stage = Stage::ActiveChanged(reply);
            TaskAction::EmitActiveChanged
        } else {
            let action = self.send(reply);
            assert(send(*task, reply) == (Move { task: *task, stage: self.stage, action }));
            action
        }
    }

    fn received(&mut self, task: &mut DeviceTask) -> (action: TaskAction)
        ensures
            *final(self) == (MessageHandling { stage: final(self).stage, ..*old(self) }),
            old(self).after_received(*old(task)) == (Move {
                task: *final(task),
                stage: final(self).stage,
                action,
            }),
    {
        match task.react(&self.message, self.initiator, self.destination, self.allow_standby) {
            Reaction::Reply(message, address) => {
                let reply: Option<(Message, LogicalAddress)> = Some((message, address));
                let action = self.send(reply);
                assert(send(*task, reply) == (Move { task: *task, stage: self.stage, action }));
                action
            },
            Reaction::Press(command) => {
                self.stage = Stage::Pressed(command);
                TaskAction::EmitPressed(command)
            },
            Reaction::Release => {
                self.stage = Stage::Released;
                TaskAction::EmitReleased
            },
            Reaction::Compare(stage) => {
                self.stage = stage;
                TaskAction::ReadPhysicalAddress
            },
            Reaction::Suspend => {
                self.stage = Stage::Suspended;
                TaskAction::Suspend
            },
            Reaction::Audio(address) => {
                task.audio_log_addr = address;
                let code: u8 = address.to_primitive();
                if task.cached.audio_log_addr != code {
                    task.cached.audio_log_addr = code;
                    self.stage = Stage::AudioChanged;
                    TaskAction::EmitAudioChanged
                } else {
                    self.finish()
                }
            },
            Reaction::Dispatch => {
                self.stage = Stage::Answered;
                TaskAction::AskHandler(self.opcode)
            },
            Reaction::Ignore => self.finish(),
        }
    }

    fn compare(&mut self, task: &mut DeviceTask, own: PhysicalAddress) -> (action: TaskAction)
        requires
            old(self).awaits(TaskInput::Address(own)),
        ensures
            *final(self) == (MessageHandling { stage: final(self).stage, ..*old(self) }),
            old(self).moved(*old(task), TaskInput::Address(own)) == (Move {
                task: *final(task),
                stage: final(self).stage,
                action,
            }),
    {
        match &self.stage {
            Stage::StreamPath(address) => {
                if *address == own {
                    self.activate(
                        task,
                        true,
                        Some((Message::ActiveSource { address: own }, LogicalAddress::Broadcast)),
                    )
                } else {
                    self.activate(task, false, None)
                }
            },
            Stage::Source(address) => {
                let active = *address == own;
                self.activate(task, active, None)
            },
            Stage::Route(address) => {
                if *address == own {
                    task.awaiting_wake = false;
                    self.activate(task, true, None)
                } else {
                    self.activate(task, false, None)
                }
            },
            _ => {
                let reply: Option<(Message, LogicalAddress)> = Some(
                    (Message::ActiveSource { address: own }, LogicalAddress::Broadcast),
                );
                let action = self.send(reply);
                assert(send(*task, reply) == (Move { task: *task, stage: self.stage, action }));
                action
            },
        }
    }

    fn refuse(&mut self, task: &DeviceTask, abort_reason: AbortReason) -> (action: TaskAction)
        ensures
            *final(self) == (MessageHandling { stage: final(self).stage, ..*old(self) }),
            send(*task, old(self).refusal(abort_reason)) == (Move {
                task: *task,
                stage: final(self).stage,
                action,
            }),
    {
        let reply: Option<(Message, LogicalAddress)> = Some(
            (Message::FeatureAbort { opcode: self.opcode, abort_reason }, self.initiator),
        );
        let action = self.send(reply);
        assert(send(*task, reply) == (Move { task: *task, stage: self.stage, action }));
        action
    }

    fn failed(&mut self, task: &DeviceTask, e: Error) -> (action: TaskAction)
        requires
            old(self).awaits(TaskInput::Failed(e)),
        ensures
            *final(self) == (MessageHandling { stage: final(self).stage, ..*old(self) }),
            old(self).moved(*task, TaskInput::Failed(e)) == (Move {
                task: *task,
                stage: final(self).stage,
                action,
            }),
    {
        match &self.stage {
            Stage::Suspended => self.refuse(task, AbortReason::IncorrectMode),
            Stage::Sent(message, address, n) => {
                if *n < REPLY_RETRIES && transient(&e) {
                    let (message, address, n): (Message, LogicalAddress, u32) = (
                        *message,
                        *address,
                        *n,
                    );
                    self.stage = Stage::Sent(message, address, n + 1);
                    TaskAction::Transmit(message, address)
                } else {
                    self.stage = Stage::Over;
                    TaskAction::Return(Err(e))
                }
            },
            _ => {
                self.stage = Stage::Over;
                TaskAction::Return(Err(e))
            },
        }
    }

    fn done(&mut self, task: &mut DeviceTask) -> (action: TaskAction)
        requires
            old(self).awaits(TaskInput::Done),
        ensures
            *final(self) == (MessageHandling { stage: final(self).stage, ..*old(self) }),
            old(self).moved(*old(task), TaskInput::Done) == (Move {
                task: *final(task),
                stage: final(self).stage,
                action,
            }),
    {
        match &self.stage {
            Stage::Received => self.received(task),
            Stage::Pressed(command) => {
                let command: UiCommand = *command;
                if !task.has_uinput {
                    task.active_key = Some(command);
                    self.finish()
                } else {
                    match task.active_key {
                        Some(held) => {
                            self.stage = Stage::Lifted(command);
                            TaskAction::KeyUp(held)
                        },
                        None => {
                            self.stage = Stage::Lowered(command);
                            TaskAction::KeyDown(command)
                        },
                    }
                }
            },
            Stage::Lifted(command) => {
                let command: UiCommand = *command;
                self.stage = Stage::Lowered(command);
                TaskAction::KeyDown(command)
            },
            Stage::Lowered(command) => {
                task.active_key = Some(*command);
                self.finish()
            },
            Stage::Released => {
                match task.active_key {
                    Some(held) if task.has_uinput => {
                        self.stage = Stage::KeyReleased;
                        TaskAction::KeyUp(held)
                    },
                    _ => {
                        task.active_key = None;
                        self.finish()
                    },
                }
            },
            Stage::KeyReleased => {
                task.active_key = None;
                self.finish()
            },
            Stage::ActiveChanged(reply) => {
                let reply: Option<(Message, LogicalAddress)> = *reply;
                let action = self.send(reply);
                assert(send(*task, reply) == (Move { task: *task, stage: self.stage, action }));
                action
            },
            _ => self.finish(),
        }
    }

    /// Go on with what came of the last action. A failure ends the handling, but for two exceptions:
    /// a device that cannot be suspended refuses the message, and a reply is sent again where that
    /// may help, up to four times in all.
    pub fn next(&mut self, task: &mut DeviceTask, input: TaskInput) -> (action: TaskAction)
        requires
            old(self).awaits(input),
        ensures
            *final(self) == (MessageHandling { stage: final(self).stage, ..*old(self) }),
            old(self).moved(*old(task), input) == (Move {
                task: *final(task),
                stage: final(self).stage,
                action,
            }),
    {
        match input {
            TaskInput::Done => self.done(task),
            TaskInput::Failed(e) => self.failed(task, e),
            TaskInput::Address(own) => self.compare(task, own),
            TaskInput::Answer(reply) => {
                let action = self.send(reply);
                assert(send(*task, reply) == (Move { task: *task, stage: self.stage, action }));
                action
            },
            TaskInput::NoHandler => self.refuse(task, AbortReason::UnrecognizedOp),
        }
    }
}

impl DeviceTask {
    /// Whether those who watch know what the task knows.
    pub open spec fn in_sync(self) -> bool {
        self.cached.active == self.active && self.cached.audio_log_addr
            == self.audio_log_addr.code()
    }
}

/// How often messages are sent while a message is handled, by all that comes of what is done.
pub open spec fn transmissions(
    handling: MessageHandling,
    task: DeviceTask,
    inputs: Seq<TaskInput>,
) -> nat
    decreases inputs.len(),
{
    if inputs.len() == 0 || handling.stage == Stage::Over {
        0
    } else {
        let m = handling.moved(task, inputs[0]);
        let rest = transmissions(
            MessageHandling { stage: m.stage, ..handling },
            m.task,
            inputs.skip(1),
        );
        if m.action is Transmit {
            rest + 1
        } else {
            rest
        }
    }
}

/// However sending fails, nothing is sent more than four times in answer to a message.
pub proof fn replies_are_bounded(envelope: Envelope, task: DeviceTask, inputs: Seq<TaskInput>, allow_standby: bool)
    ensures
        transmissions(
            MessageHandling {
                message: envelope.message,
                initiator: envelope.initiator,
                destination: envelope.destination,
                opcode: envelope.message.bytes()[0],
                allow_standby,
                stage: Stage::Received,
            },
            task,
            inputs,
        ) <= REPLY_RETRIES,
{
    transmissions_left(
        MessageHandling {
            message: envelope.message,
            initiator: envelope.initiator,
            destination: envelope.destination,
            opcode: envelope.message.bytes()[0],
            allow_standby,
            stage: Stage::Received,
        },
        task,
        inputs,
    );
}

proof fn transmissions_left(handling: MessageHandling, task: DeviceTask, inputs: Seq<TaskInput>)
    requires
        handling.stage matches Stage::Sent(_, _, n) ==> 1 <= n <= REPLY_RETRIES,
    ensures
        transmissions(handling, task, inputs) <= (match handling.stage {
            Stage::Sent(_, _, n) => REPLY_RETRIES - n,
            _ => REPLY_RETRIES as int,
        }),
    decreases inputs.len(),
{
    if inputs.len() > 0 && handling.stage != Stage::Over {
        let m = handling.moved(task, inputs[0]);
        transmissions_left(MessageHandling { stage: m.stage, ..handling }, m.task, inputs.skip(1));
    }
}

/// What those who watch know is kept up to date with every step.
pub proof fn watchers_stay_in_sync(
    handling: MessageHandling,
    task: DeviceTask,
    input: TaskInput,
)
    requires
        task.in_sync(),
    ensures
        handling.moved(task, input).task.in_sync(),
        handling.moved(task, input).task.active != task.active ==> handling.moved(
            task,
            input,
        ).action == TaskAction::EmitActiveChanged,
{
}

/// The device is active just when the address that a message names is its own.
pub proof fn activity_follows_addresses(
    handling: MessageHandling,
    task: DeviceTask,
    address: PhysicalAddress,
    own: PhysicalAddress,
)
    requires
        handling.stage == Stage::StreamPath(address) || handling.stage == Stage::Source(address)
            || handling.stage == Stage::Route(address),
    ensures
        handling.moved(task, TaskInput::Address(own)).task.active == (address == own),
{
}

/// A message that nobody handles is refused where it was meant for this device, and its sender is
/// told the opcode.
pub proof fn unhandled_messages_are_refused(handling: MessageHandling, task: DeviceTask)
    requires
        handling.stage == Stage::Received,
        task.reaction(
            handling.message,
            handling.initiator,
            handling.destination,
            handling.allow_standby,
        ) == Reaction::Dispatch,
    ensures
        handling.destination != LogicalAddress::Unregistered,
        handling.moved(task, TaskInput::Done).action == TaskAction::AskHandler(handling.opcode),
        ({
            let m = handling.moved(task, TaskInput::Done);
            MessageHandling { stage: m.stage, ..handling }.moved(m.task, TaskInput::NoHandler).action
                == TaskAction::Transmit(
                Message::FeatureAbort {
                    opcode: handling.opcode,
                    abort_reason: AbortReason::UnrecognizedOp,
                },
                handling.initiator,
            )
        }),
{
}

/// A refusal is never answered.
pub proof fn refusals_are_not_answered(
    handling: MessageHandling,
    task: DeviceTask,
    opcode: u8,
    abort_reason: AbortReason,
)
    requires
        handling.stage == Stage::Received,
        handling.message == MessageData::Valid(Message::FeatureAbort { opcode, abort_reason }),
    ensures
        handling.moved(task, TaskInput::Done) == finish(task),
{
}

/// At most one key is down at a time: a key goes down only where none is, or once the one that is
/// down has gone up, and only a key that is down goes up.
pub proof fn one_key_at_a_time(handling: MessageHandling, task: DeviceTask, input: TaskInput)
    ensures
        handling.moved(task, input).action is KeyDown ==> task.active_key is None
            || handling.stage is Lifted,
        handling.moved(task, input).stage is Lifted ==> (task.active_key matches Some(held)
            && handling.moved(task, input).action == TaskAction::KeyUp(held)),
        handling.moved(task, input).action matches TaskAction::KeyUp(command) ==> task.active_key
            == Some(command),
        handling.stage is KeyReleased && input is Done ==> handling.moved(
            task,
            input,
        ).task.active_key is None,
        handling.stage matches Stage::Lowered(command) ==> input is Done ==> handling.moved(
            task,
            input,
        ).task.active_key == Some(command),
{
}

/// A message and all that comes of what is done about it.
pub struct Handled {
    pub handling: MessageHandling,
    pub inputs: Seq<TaskInput>,
}

impl Handled {
    /// The handling after the first of the inputs, with what is left of them.
    pub open spec fn advanced(self, task: DeviceTask) -> Handled {
        Handled {
            handling: MessageHandling {
                stage: self.handling.moved(task, self.inputs[0]).stage,
                ..self.handling
            },
            inputs: self.inputs.skip(1),
        }
    }

    /// The handling and the task after all of the inputs.
    pub open spec fn ended(self, task: DeviceTask) -> (MessageHandling, DeviceTask)
        decreases self.inputs.len(),
    {
        if self.inputs.len() == 0 {
            (self.handling, task)
        } else {
            self.advanced(task).ended(self.handling.moved(task, self.inputs[0]).task)
        }
    }

    /// The keys that go up and down on the way.
    pub open spec fn key_calls(self, task: DeviceTask) -> Seq<TaskAction>
        decreases self.inputs.len(),
    {
        if self.inputs.len() == 0 {
            Seq::empty()
        } else {
            let m = self.handling.moved(task, self.inputs[0]);
            key_call(m.action) + self.advanced(task).key_calls(m.task)
        }
    }

    /// Whether the inputs can come of what is done, and no key fails to go up or down.
    pub open spec fn goes_well(self, task: DeviceTask) -> bool
        decreases self.inputs.len(),
    {
        self.inputs.len() > 0 ==> {
            &&& self.handling.awaits(self.inputs[0])
            &&& moves_key(self.handling.stage) ==> !(self.inputs[0] is Failed)
            &&& self.advanced(task).goes_well(self.handling.moved(task, self.inputs[0]).task)
        }
    }
}

/// Whether a key is on its way up or down.
pub open spec fn moves_key(stage: Stage) -> bool {
    stage is Lifted || stage is Lowered || stage is KeyReleased
}

/// What an action does to the keys.
pub open spec fn key_call(action: TaskAction) -> Seq<TaskAction> {
    if action is KeyUp || action is KeyDown {
        seq![action]
    } else {
        Seq::empty()
    }
}

/// Whether keys go up and down one at a time, where one may be down at first: none goes down before
/// the one that is down has gone up, and none goes up that is not down.
pub open spec fn one_at_a_time(held: Option<UiCommand>, calls: Seq<TaskAction>) -> bool
    decreases calls.len(),
{
    if calls.len() == 0 {
        true
    } else {
        match calls[0] {
            TaskAction::KeyDown(command) => held is None && one_at_a_time(
                Some(command),
                calls.skip(1),
            ),
            TaskAction::KeyUp(command) => held == Some(command) && one_at_a_time(
                None,
                calls.skip(1),
            ),
            _ => false,
        }
    }
}

/// The key that is down in the end, where one may be down at first.
pub open spec fn held_after(held: Option<UiCommand>, calls: Seq<TaskAction>) -> Option<UiCommand>
    decreases calls.len(),
{
    if calls.len() == 0 {
        held
    } else {
        held_after(
            match calls[0] {
                TaskAction::KeyDown(command) => Some(command),
                _ => None,
            },
            calls.skip(1),
        )
    }
}

/// The task after a run of messages.
pub open spec fn task_after(task: DeviceTask, run: Seq<Handled>) -> DeviceTask
    decreases run.len(),
{
    if run.len() == 0 {
        task
    } else {
        task_after(run[0].ended(task).1, run.skip(1))
    }
}

/// The keys that go up and down over a run of messages.
pub open spec fn run_key_calls(task: DeviceTask, run: Seq<Handled>) -> Seq<TaskAction>
    decreases run.len(),
{
    if run.len() == 0 {
        Seq::empty()
    } else {
        run[0].key_calls(task) + run_key_calls(run[0].ended(task).1, run.skip(1))
    }
}

/// Whether messages are handled one after the other, each but the last to its end, and no key fails
/// to go up or down.
pub open spec fn run_goes_well(task: DeviceTask, run: Seq<Handled>) -> bool
    decreases run.len(),
{
    run.len() > 0 ==> {
        &&& run[0].handling.stage == Stage::Received
        &&& run[0].goes_well(task)
        &&& run.len() > 1 ==> run[0].ended(task).0.stage == Stage::Over
        &&& run_goes_well(run[0].ended(task).1, run.skip(1))
    }
}

/// Whether all messages of a run are handled to their end.
pub open spec fn is_over(task: DeviceTask, run: Seq<Handled>) -> bool
    decreases run.len(),
{
    run.len() > 0 ==> run[0].ended(task).0.stage == Stage::Over && is_over(
        run[0].ended(task).1,
        run.skip(1),
    )
}

/// Over any run of messages at most one key is down at any time: a key that has gone down goes up
/// before another goes down. Between messages, the key that is down is the one that the task knows.
pub proof fn one_key_is_held(task: DeviceTask, run: Seq<Handled>)
    requires
        task.has_uinput,
        run_goes_well(task, run),
    ensures
        one_at_a_time(task.active_key, run_key_calls(task, run)),
        forall|i: int|
            0 <= i < run_key_calls(task, run).len() - 1 ==> ((
            #[trigger] run_key_calls(task, run)[i]) matches TaskAction::KeyDown(command)
                ==> run_key_calls(task, run)[i + 1] == TaskAction::KeyUp(command)),
        is_over(task, run) ==> task_after(task, run).active_key == held_after(
            task.active_key,
            run_key_calls(task, run),
        ),
{
    runs_one_at_a_time(task, run);
    down_then_up(task.active_key, run_key_calls(task, run));
}

/// Once a button has been released without a failure no key is down, and where none was, no key
/// goes up or down.
pub proof fn released_keys_are_up(task: DeviceTask, handled: Handled)
    requires
        task.has_uinput,
        handled.handling.stage == Stage::Received,
        handled.handling.message == MessageData::Valid(Message::UserControlReleased),
        handled.goes_well(task),
        forall|i: int| 0 <= i < handled.inputs.len() ==> !(#[trigger] handled.inputs[i] is Failed),
        handled.ended(task).0.stage == Stage::Over,
    ensures
        handled.ended(task).1.active_key is None,
        held_after(task.active_key, handled.key_calls(task)) is None,
        task.active_key is None ==> handled.key_calls(task) == Seq::<TaskAction>::empty(),
{
    keys_one_at_a_time(handled, task, task.active_key);
    let first = handled.advanced(task);
    assert(handled.inputs.len() > 0);
    assert(handled.inputs[0] is Done);
    assert(handled.handling.moved(task, handled.inputs[0]).task == task);
    assert(first.handling.stage == Stage::Released);
    assert(first.goes_well(task) && handled.ended(task) == first.ended(task));
    assert(first.inputs.len() > 0);
    assert(first.inputs[0] == handled.inputs[1]);
    assert(first.inputs[0] is Done);
    let second = first.advanced(task);
    let m = first.handling.moved(task, first.inputs[0]);
    assert(second.goes_well(m.task) && first.ended(task) == second.ended(m.task));
    if task.active_key is Some {
        assert(second.handling.stage == Stage::KeyReleased);
        assert(second.inputs.len() > 0);
        assert(second.inputs[0] == handled.inputs[2]);
        assert(second.inputs[0] is Done);
        let third = second.advanced(task);
        let last = second.handling.moved(task, second.inputs[0]).task;
        assert(third.goes_well(last) && second.ended(task) == third.ended(last));
        assert(third.handling.stage == Stage::Over);
        assert(third.inputs.len() == 0);
    } else {
        assert(second.handling.stage == Stage::Over);
        assert(second.inputs.len() == 0);
        assert(second.key_calls(m.task) =~= Seq::empty());
        assert(first.key_calls(task) =~= Seq::empty());
        assert(handled.key_calls(task) =~= Seq::empty());
    }
}

/// The key that is down while a message is handled.
spec fn down_at(stage: Stage, task: DeviceTask) -> Option<UiCommand> {
    match stage {
        Stage::Lifted(_) => None,
        Stage::Lowered(command) => Some(command),
        Stage::KeyReleased => None,
        _ => task.active_key,
    }
}

proof fn one_step(handling: MessageHandling, task: DeviceTask, input: TaskInput)
    requires
        task.has_uinput,
        handling.awaits(input),
        moves_key(handling.stage) ==> !(input is Failed),
    ensures
        ({
            let m = handling.moved(task, input);
            let held = down_at(handling.stage, task);
            &&& m.task.has_uinput
            &&& one_at_a_time(held, key_call(m.action))
            &&& held_after(held, key_call(m.action)) == down_at(m.stage, m.task)
        }),
{
    reveal_with_fuel(one_at_a_time, 2);
    reveal_with_fuel(held_after, 2);
}

proof fn keys_one_at_a_time(handled: Handled, task: DeviceTask, held: Option<UiCommand>)
    requires
        task.has_uinput,
        handled.goes_well(task),
        held == down_at(handled.handling.stage, task),
    ensures
        one_at_a_time(held, handled.key_calls(task)),
        handled.ended(task).1.has_uinput,
        held_after(held, handled.key_calls(task)) == down_at(
            handled.ended(task).0.stage,
            handled.ended(task).1,
        ),
    decreases handled.inputs.len(),
{
    if handled.inputs.len() > 0 {
        let m = handled.handling.moved(task, handled.inputs[0]);
        let call = key_call(m.action);
        let rest = handled.advanced(task).key_calls(m.task);
        one_step(handled.handling, task, handled.inputs[0]);
        keys_one_at_a_time(handled.advanced(task), m.task, down_at(m.stage, m.task));
        one_after_the_other(held, call, rest);
    }
}

proof fn runs_one_at_a_time(task: DeviceTask, run: Seq<Handled>)
    requires
        task.has_uinput,
        run_goes_well(task, run),
    ensures
        one_at_a_time(task.active_key, run_key_calls(task, run)),
        is_over(task, run) ==> task_after(task, run).active_key == held_after(
            task.active_key,
            run_key_calls(task, run),
        ),
    decreases run.len(),
{
    if run.len() > 0 {
        let calls = run[0].key_calls(task);
        let now = run[0].ended(task).1;
        keys_one_at_a_time(run[0], task, task.active_key);
        if run.len() == 1 {
            assert(run_key_calls(now, run.skip(1)) =~= Seq::empty());
            assert(calls + run_key_calls(now, run.skip(1)) =~= calls);
            assert(task_after(now, run.skip(1)) == now);
        } else {
            runs_one_at_a_time(now, run.skip(1));
            one_after_the_other(task.active_key, calls, run_key_calls(now, run.skip(1)));
        }
    }
}

proof fn one_after_the_other(held: Option<UiCommand>, a: Seq<TaskAction>, b: Seq<TaskAction>)
    requires
        one_at_a_time(held, a),
        one_at_a_time(held_after(held, a), b),
    ensures
        one_at_a_time(held, a + b),
        held_after(held, a + b) == held_after(held_after(held, a), b),
    decreases a.len(),
{
    if a.len() == 0 {
        assert(a + b =~= b);
    } else {
        let next = match a[0] {
            TaskAction::KeyDown(command) => Some(command),
            _ => None,
        };
        one_after_the_other(next, a.skip(1), b);
        assert((a + b).skip(1) =~= a.skip(1) + b);
    }
}

proof fn down_then_up(held: Option<UiCommand>, calls: Seq<TaskAction>)
    requires
        one_at_a_time(held, calls),
    ensures
        forall|i: int|
            0 <= i < calls.len() - 1 ==> ((#[trigger] calls[i]) matches TaskAction::KeyDown(command)
                ==> calls[i + 1] == TaskAction::KeyUp(command)),
    decreases calls.len(),
{
    if calls.len() > 1 {
        let rest = calls.skip(1);
        let next = match calls[0] {
            TaskAction::KeyDown(command) => Some(command),
            _ => None,
        };
        down_then_up(next, rest);
        assert forall|i: int| 0 <= i < calls.len() - 1 implies ((
        #[trigger] calls[i]) matches TaskAction::KeyDown(command) ==> calls[i + 1]
            == TaskAction::KeyUp(command)) by {
            if i > 0 {
                assert(rest[i - 1] == calls[i]);
            } else {
                assert(rest[0] == calls[1]);
                assert(one_at_a_time(next, rest));
            }
        }
    }
}

/// A point in the handling of a message: the state and what is done there.
pub struct Point {
    pub handling: MessageHandling,
    pub task: DeviceTask,
    pub action: TaskAction,
}

impl Point {
    /// The point at which a message has been received.
    pub open spec fn received(self, data: MessageData) -> bool {
        &&& self.handling.stage == Stage::Received
        &&& self.handling.message == data
    }

    /// The point that follows on what came of the action.
    pub open spec fn given(self, input: TaskInput) -> Point {
        let m = self.handling.moved(self.task, input);
        Point {
            handling: MessageHandling { stage: m.stage, ..self.handling },
            task: m.task,
            action: m.action,
        }
    }

    /// Whether nothing is left to do, and nothing went wrong.
    pub open spec fn is_done(self) -> bool {
        self.action == TaskAction::Return(Ok(())) && self.handling.stage == Stage::Over
    }

    /// Whether a message is sent next, at once or right after those who watch have been told that
    /// the device is active, and all is done once that has worked.
    pub open spec fn sends(self, message: Message, address: LogicalAddress) -> bool {
        let here = if self.action is EmitActiveChanged {
            self.given(TaskInput::Done)
        } else {
            self
        };
        here.action == TaskAction::Transmit(message, address) && here.given(TaskInput::Done).is_done()
    }

    /// Whether nothing is sent any more, and nothing but to tell those who watch that the device is
    /// active, or not, is left to do.
    pub open spec fn is_silent(self) -> bool {
        self.is_done() || (self.action is EmitActiveChanged && self.given(TaskInput::Done).is_done())
    }
}

/// A stream path to this device makes it the active source, and it tells all devices its own
/// address. A stream path to another device makes it inactive, and it says nothing.
pub proof fn stream_paths_are_answered(at: Point, address: PhysicalAddress, own: PhysicalAddress)
    requires
        at.received(MessageData::Valid(Message::SetStreamPath { address })),
    ensures
        at.given(TaskInput::Done).action == TaskAction::ReadPhysicalAddress,
        ({
            let now = at.given(TaskInput::Done).given(TaskInput::Address(own));
            &&& now.task.active == (address == own)
            &&& address == own ==> now.sends(
                Message::ActiveSource { address: own },
                LogicalAddress::Broadcast,
            )
            &&& address != own ==> now.is_silent()
        }),
{
}

/// The device that says it is the active source is: this one, or another. Nothing is answered.
pub proof fn active_sources_are_noted(at: Point, address: PhysicalAddress, own: PhysicalAddress)
    requires
        at.received(MessageData::Valid(Message::ActiveSource { address })),
    ensures
        at.given(TaskInput::Done).action == TaskAction::ReadPhysicalAddress,
        ({
            let now = at.given(TaskInput::Done).given(TaskInput::Address(own));
            &&& now.task.active == (address == own)
            &&& now.task.awaiting_wake == at.task.awaiting_wake
            &&& now.is_silent()
        }),
{
}

/// A route to this device makes it the active source and shows that the television is awake, a
/// route to another device makes it inactive. Nothing is answered.
pub proof fn routes_are_followed(
    at: Point,
    original_address: PhysicalAddress,
    new_address: PhysicalAddress,
    own: PhysicalAddress,
)
    requires
        at.received(
            MessageData::Valid(Message::RoutingChange { original_address, new_address }),
        ),
    ensures
        at.given(TaskInput::Done).action == TaskAction::ReadPhysicalAddress,
        ({
            let now = at.given(TaskInput::Done).given(TaskInput::Address(own));
            &&& now.task.active == (new_address == own)
            &&& now.task.awaiting_wake == (new_address != own && at.task.awaiting_wake)
            &&& now.is_silent()
        }),
{
}

/// Those who watch are told that the device has become active, or is not any more, just where they
/// do not know yet.
pub proof fn watchers_are_told_of_activity(
    at: Point,
    address: PhysicalAddress,
    other: PhysicalAddress,
    own: PhysicalAddress,
)
    requires
        at.received(MessageData::Valid(Message::SetStreamPath { address })) || at.received(
            MessageData::Valid(Message::ActiveSource { address }),
        ) || at.received(
            MessageData::Valid(
                Message::RoutingChange { original_address: other, new_address: address },
            ),
        ),
        at.task.in_sync(),
    ensures
        ({
            let now = at.given(TaskInput::Done).given(TaskInput::Address(own));
            now.action is EmitActiveChanged <==> at.task.active != (address == own)
        }),
{
}

/// Whoever asks for the active source is told, by all devices hearing it, where this device is or
/// is about to be that.
pub proof fn the_active_source_answers(at: Point, own: PhysicalAddress)
    requires
        at.received(MessageData::Valid(Message::RequestActiveSource)),
        at.task.active || at.task.awaiting_wake,
    ensures
        at.given(TaskInput::Done).action == TaskAction::ReadPhysicalAddress,
        at.given(TaskInput::Done).given(TaskInput::Address(own)).action == TaskAction::Transmit(
            Message::ActiveSource { address: own },
            LogicalAddress::Broadcast,
        ),
        at.given(TaskInput::Done).given(TaskInput::Address(own)).sends(
            Message::ActiveSource { address: own },
            LogicalAddress::Broadcast,
        ),
        at.given(TaskInput::Done).given(TaskInput::Address(own)).task == at.task,
{
}

/// Whoever asks for the state of power is told that the device is on.
pub proof fn power_is_reported(at: Point)
    requires
        at.received(MessageData::Valid(Message::GiveDevicePowerStatus)),
    ensures
        at.given(TaskInput::Done).action == TaskAction::Transmit(
            Message::ReportPowerStatus { status: PowerStatus::On },
            at.handling.initiator,
        ),
        at.given(TaskInput::Done).sends(
            Message::ReportPowerStatus { status: PowerStatus::On },
            at.handling.initiator,
        ),
        at.given(TaskInput::Done).task == at.task,
{
}

/// The sound is played by the device that says its audio mode is on, and by the television once one
/// says that it is off. Those who watch are told where they do not know yet.
pub proof fn audio_modes_are_noted(at: Point, status: bool)
    requires
        at.received(MessageData::Valid(Message::SetSystemAudioMode { status })) || at.received(
            MessageData::Valid(Message::SystemAudioModeStatus { status }),
        ),
    ensures
        ({
            let now = at.given(TaskInput::Done);
            &&& status ==> now.task.audio_log_addr == at.handling.initiator
            &&& !status ==> now.task.audio_log_addr == LogicalAddress::Tv
            &&& now.task.cached.audio_log_addr == now.task.audio_log_addr.code()
            &&& now.task.active == at.task.active
            &&& if at.task.cached.audio_log_addr == now.task.audio_log_addr.code() {
                now.is_done()
            } else {
                now.action is EmitAudioChanged && now.given(TaskInput::Done).is_done()
            }
        }),
{
}

/// Where that is allowed, a message to stand by suspends the system. Where that fails, whoever sent
/// the message is told that this is not the time for it.
pub proof fn standby_suspends(at: Point, e: Error)
    requires
        at.received(MessageData::Valid(Message::Standby)),
        at.handling.allow_standby,
    ensures
        at.given(TaskInput::Done).action == TaskAction::Suspend,
        at.given(TaskInput::Done).given(TaskInput::Done).is_done(),
        at.given(TaskInput::Done).given(TaskInput::Failed(e)).sends(
            Message::FeatureAbort {
                opcode: at.handling.opcode,
                abort_reason: AbortReason::IncorrectMode,
            },
            at.handling.initiator,
        ),
        at.given(TaskInput::Done).given(TaskInput::Failed(e)).action is Transmit,
{
}

/// A button that is pressed is told to those who watch. Where buttons are turned into keys, the key
/// of the button before goes up and that of the button goes down. The button counts as held.
pub proof fn pressed_buttons_are_passed_on(at: Point, ui_command: UiCommand)
    requires
        at.received(MessageData::Valid(Message::UserControlPressed { ui_command })),
    ensures
        ({
            let told = at.given(TaskInput::Done);
            let next = told.given(TaskInput::Done);
            &&& told.action == TaskAction::EmitPressed(ui_command)
            &&& !at.task.has_uinput ==> next.is_done() && next.task.active_key == Some(ui_command)
            &&& at.task.has_uinput ==> {
                let down = match at.task.active_key {
                    Some(held) => next.given(TaskInput::Done),
                    None => next,
                };
                &&& at.task.active_key matches Some(held) ==> next.action == TaskAction::KeyUp(held)
                &&& down.action == TaskAction::KeyDown(ui_command)
                &&& down.given(TaskInput::Done).is_done()
                &&& down.given(TaskInput::Done).task.active_key == Some(ui_command)
            }
        }),
{
}

/// A button that is released is told to those who watch, and none counts as held any more. Where
/// buttons are turned into keys, the key of the button that was held goes up.
pub proof fn released_buttons_are_passed_on(at: Point)
    requires
        at.received(MessageData::Valid(Message::UserControlReleased)),
    ensures
        ({
            let told = at.given(TaskInput::Done);
            let next = told.given(TaskInput::Done);
            &&& told.action == TaskAction::EmitReleased
            &&& if at.task.has_uinput && at.task.active_key is Some {
                &&& next.action == TaskAction::KeyUp(at.task.active_key->Some_0)
                &&& next.given(TaskInput::Done).is_done()
                &&& next.given(TaskInput::Done).task.active_key is None
            } else {
                next.is_done() && next.task.active_key is None
            }
        }),
{
}

/// Whether a message is one that the task answers by itself, whatever its state.
pub open spec fn is_answered_here(message: Message) -> bool {
    ||| message is GiveDevicePowerStatus
    ||| message is UserControlPressed || message is UserControlReleased
    ||| message is SetStreamPath || message is ActiveSource || message is RoutingChange
    ||| message is SetSystemAudioMode || message is SystemAudioModeStatus
    ||| message is FeatureAbort
}

/// All other messages are left to the handler for their opcode, whose answer is sent, if it has one.
/// Without a handler the sender is told that the opcode is not known. What went to all devices is
/// left alone.
pub proof fn other_messages_are_handed_on(
    at: Point,
    reply: Message,
    address: LogicalAddress,
)
    requires
        at.handling.stage == Stage::Received,
        match at.handling.message {
            MessageData::Valid(message) => {
                &&& !is_answered_here(message)
                &&& message is Standby ==> !at.handling.allow_standby
                &&& message is RequestActiveSource ==> !at.task.active && !at.task.awaiting_wake
            },
            MessageData::Invalid(_) => true,
        },
    ensures
        ({
            let next = at.given(TaskInput::Done);
            &&& next.task == at.task
            &&& if at.handling.destination == LogicalAddress::Broadcast {
                next.is_done()
            } else {
                &&& next.action == TaskAction::AskHandler(at.handling.opcode)
                &&& next.given(TaskInput::Answer(None)).is_done()
                &&& next.given(TaskInput::Answer(Some((reply, address)))).action
                    == TaskAction::Transmit(reply, address)
                &&& next.given(TaskInput::Answer(Some((reply, address)))).sends(reply, address)
                &&& next.given(TaskInput::NoHandler).action == TaskAction::Transmit(
                    Message::FeatureAbort {
                        opcode: at.handling.opcode,
                        abort_reason: AbortReason::UnrecognizedOp,
                    },
                    at.handling.initiator,
                )
                &&& next.given(TaskInput::NoHandler).given(TaskInput::Done).is_done()
            }
        }),
{
}

/// A message that could not be sent because the line was disturbed, or the attempt was aborted, is
/// sent again as it was, and once that works all is well. After any other failure, or the fourth,
/// the failure is reported.
pub proof fn sending_is_tried_again(
    at: Point,
    message: Message,
    address: LogicalAddress,
    n: u32,
    e: Error,
)
    requires
        at.handling.stage == Stage::Sent(message, address, n),
        1 <= n <= 4,
    ensures
        at.given(TaskInput::Done).is_done(),
        ({
            let next = at.given(TaskInput::Failed(e));
            let passing = e == Error::TxError(TxError::UnknownError) || e == Error::TxError(
                TxError::Aborted,
            );
            if passing && n < 4 {
                &&& next.action == TaskAction::Transmit(message, address)
                &&& next.handling.stage == Stage::Sent(message, address, (n + 1) as u32)
            } else {
                next.action == TaskAction::Return(Err(e))
            }
        }),
        at.given(TaskInput::Failed(e)).task == at.task,
{
}

/// What is to be sent is sent for the first time.
pub proof fn sending_begins_with_the_first_try(at: Point, input: TaskInput)
    requires
        !(at.handling.stage is Sent),
    ensures
        at.given(input).action matches TaskAction::Transmit(message, address) ==> at.given(
            input,
        ).handling.stage == Stage::Sent(message, address, 1),
{
}

/// Whatever else fails ends the handling with that failure, and changes nothing.
pub proof fn failures_are_reported(at: Point, e: Error)
    requires
        at.handling.awaits(TaskInput::Failed(e)),
        at.handling.stage != Stage::Suspended,
        !(at.handling.stage is Sent),
    ensures
        at.given(TaskInput::Failed(e)).action == TaskAction::Return(Err(e)),
        at.given(TaskInput::Failed(e)).handling.stage == Stage::Over,
        at.given(TaskInput::Failed(e)).task == at.task,
{
}

/// The handling of a message begins with what was received, and those who watch are told so first.
pub proof fn handling_begins_with_what_was_received(
    envelope: Envelope,
    allow_standby: bool,
    task: DeviceTask,
)
    ensures
        ({
            let (handling, action) = MessageHandling::begun(envelope, allow_standby);
            &&& (Point { handling, task, action }).received(envelope.message)
            &&& handling.initiator == envelope.initiator
            &&& handling.destination == envelope.destination
            &&& handling.opcode == envelope.message.bytes()[0]
            &&& handling.allow_standby == allow_standby
            &&& action == TaskAction::EmitReceived
        }),
{
}

/// A message that a handler refuses, or leaves without an answer, is refused to the one who sent it,
/// with its opcode and the reason. One that is handled is not answered.
pub proof fn handlers_have_messages_refused(
    opcode: u8,
    initiator: LogicalAddress,
    reason: AbortReason,
)
    ensures
        HandlerAnswer::Handled.replied(opcode, initiator) is None,
        HandlerAnswer::Refused(reason).replied(opcode, initiator) matches Some((message, to))
            && message.encoded() == seq![0x00u8, opcode, reason.code()] && to == initiator,
        HandlerAnswer::Silent.replied(opcode, initiator) matches Some((message, to))
            && message.encoded() == seq![0x00u8, opcode, 0x05u8] && to == initiator,
{
    let refusal = Message::FeatureAbort { opcode, abort_reason: reason };
    let silence = Message::FeatureAbort { opcode, abort_reason: AbortReason::Undetermined };
    crate::numbers::source_messages(refusal);
    crate::numbers::source_messages(silence);
    assert(refusal.encoded() =~= seq![0x00u8, opcode, reason.code()]);
    assert(silence.encoded() =~= seq![0x00u8, opcode, 0x05u8]);
}

} // verus!
