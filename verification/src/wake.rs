//! Waking the television, and finding it again after the system has slept.

use vstd::prelude::*;

use crate::address::{LogicalAddress, PhysicalAddress};
use crate::drm::DrmConnector;
use crate::error::Error;
use crate::task::DeviceTask;

verus! {

/// How often the television is told to show the device.
pub const WAKE_TRIES: u32 = 2;

/// How long to wait after waking the television before it is told to show the device, in
/// milliseconds.
pub const ACTIVE_SOURCE_DELAY: u64 = 100;

/// How long to wait for the television to show the device, in milliseconds.
pub const WAKE_DELAY: u64 = 1000;

/// How often a device is configured again after a resume.
pub const RESUME_TRIES: u32 = 5;

/// What has to be done outside.
pub enum WakeAction {
    /// Tell the television to wake.
    Wake,
    /// Wait for some milliseconds.
    Sleep(u64),
    /// Tell the television to show this device.
    SetActiveSource,
    /// Configure the device.
    Configure,
    ReadPhysicalAddress,
    ReadLogicalAddresses,
    /// Ask whether a device is there.
    PollAddress(LogicalAddress),
    /// Nothing more.
    Return(Result<(), Error>),
}

/// What came of it.
pub enum WakeInput {
    Done,
    /// The device is configured and has this connector.
    Configured(Option<DrmConnector>),
    Address(PhysicalAddress),
    /// How many logical addresses the device has.
    LogicalAddresses(usize),
    Failed(Error),
}

/// What is awaited while the television is woken.
#[derive(Debug, Copy, Clone, PartialEq, Eq, Structural)]
pub enum WakeStage {
    Woken,
    Settled,
    Shown,
    Configured,
    Waited,
    Over,
}

/// The waking of the television, while it goes on.
#[derive(Debug, Copy, Clone, PartialEq, Eq, Structural)]
pub struct Waking {
    pub stage: WakeStage,
    /// How often the television may still be told to show the device.
    pub tries: u32,
}

/// A state of the task and of the waking, with what is to be done.
pub struct WakeMove {
    pub task: DeviceTask,
    pub waking: Waking,
    pub action: WakeAction,
}

impl Waking {
    /// The end.
    pub open spec fn ended(self, task: DeviceTask, result: Result<(), Error>) -> WakeMove {
        WakeMove {
            task,
            waking: Waking { stage: WakeStage::Over, ..self },
            action: WakeAction::Return(result),
        }
    }

    /// The television is told once more to show the device, as long as that is worth it.
    pub open spec fn retried(self, task: DeviceTask) -> WakeMove {
        if self.tries > 0 {
            WakeMove {
                task,
                waking: Waking { stage: WakeStage::Shown, tries: (self.tries - 1) as u32 },
                action: WakeAction::SetActiveSource,
            }
        } else {
            self.ended(task, Ok(()))
        }
    }

    /// The television is given time to answer.
    pub open spec fn paused(self, task: DeviceTask) -> WakeMove {
        WakeMove {
            task,
            waking: Waking { stage: WakeStage::Waited, ..self },
            action: WakeAction::Sleep(WAKE_DELAY),
        }
    }

    /// What follows on what came of the last action. A device that has lost its logical address is
    /// configured again; one that is gone ends the waking.
    pub open spec fn moved(self, task: DeviceTask, input: WakeInput) -> WakeMove {
        match self.stage {
            WakeStage::Woken => match input {
                WakeInput::Failed(e) => self.ended(task, Err(e)),
                _ => WakeMove {
                    task: DeviceTask { awaiting_wake: true, ..task },
                    waking: Waking { stage: WakeStage::Settled, ..self },
                    action: WakeAction::Sleep(ACTIVE_SOURCE_DELAY),
                },
            },
            WakeStage::Shown => match input {
                WakeInput::Failed(e) => if e == Error::NoLogicalAddress {
                    WakeMove {
                        task,
                        waking: Waking { stage: WakeStage::Configured, ..self },
                        action: WakeAction::Configure,
                    }
                } else if e == Error::Disconnected {
                    self.ended(DeviceTask { awaiting_wake: false, ..task }, Err(e))
                } else {
                    self.paused(task)
                },
                _ => if task.awaiting_wake {
                    self.paused(task)
                } else {
                    self.ended(task, Ok(()))
                },
            },
            WakeStage::Configured => match input {
                WakeInput::Failed(e) => if e == Error::Disconnected {
                    self.ended(DeviceTask { awaiting_wake: false, ..task }, Err(e))
                } else {
                    self.retried(task)
                },
                WakeInput::Configured(connector) => self.retried(DeviceTask { connector, ..task }),
                _ => self.retried(task),
            },
            _ => self.retried(task),
        }
    }

    /// Whether an input can come of the last action.
    pub open spec fn awaits(self, input: WakeInput) -> bool {
        match self.stage {
            WakeStage::Over => false,
            WakeStage::Woken | WakeStage::Shown => input is Done || input is Failed,
            WakeStage::Configured => input is Configured || input is Failed,
            _ => input is Done,
        }
    }

    /// The waking of a television at its beginning, and what is done first.
    pub open spec fn begun() -> (Waking, WakeAction) {
        (Waking { stage: WakeStage::Woken, tries: WAKE_TRIES }, WakeAction::Wake)
    }

    /// Begin to wake the television.
    pub fn start() -> (r: (Waking, WakeAction))
        ensures
            r == Self::begun(),
    {
        (Waking { stage: WakeStage::Woken, tries: WAKE_TRIES }, WakeAction::Wake)
    }

    fn retry(&mut self) -> (action: WakeAction)
        ensures
            forall|task: DeviceTask|
                #[trigger] old(self).retried(task) == (WakeMove {
                    task,
                    waking: *final(self),
                    action,
                }),
    {
        if self.tries > 0 {
            self.stage = WakeStage::Shown;
            self.tries = self.tries - 1;
            WakeAction::SetActiveSource
        } else {
            self.stage = WakeStage::Over;
            WakeAction::Return(Ok(()))
        }
    }

    /// Go on with what came of the last action.
    pub fn next(&mut self, task: &mut DeviceTask, input: WakeInput) -> (action: WakeAction)
        requires
            old(self).awaits(input),
        ensures
            old(self).moved(*old(task), input) == (WakeMove {
                task: *final(task),
                waking: *final(self),
                action,
            }),
    {
        match self.stage {
            WakeStage::Woken => match input {
                WakeInput::Failed(e) => {
                    self.stage = WakeStage::Over;
                    WakeAction::Return(Err(e))
                },
                _ => {
                    task.awaiting_wake = true;
                    self.stage = WakeStage::Settled;
                    WakeAction::Sleep(ACTIVE_SOURCE_DELAY)
                },
            },
            WakeStage::Shown => match input {
                WakeInput::Failed(e) => match e {
                    Error::NoLogicalAddress => {
                        self.stage = WakeStage::Configured;
                        WakeAction::Configure
                    },
                    Error::Disconnected => {
                        task.awaiting_wake = false;
                        self.stage = WakeStage::Over;
                        WakeAction::Return(Err(Error::Disconnected))
                    },
                    _ => {
                        self.stage = WakeStage::Waited;
                        WakeAction::Sleep(WAKE_DELAY)
                    },
                },
                _ => {
                    if task.awaiting_wake {
                        self.stage = WakeStage::Waited;
                        WakeAction::Sleep(WAKE_DELAY)
                    } else {
                        self.stage = WakeStage::Over;
                        WakeAction::Return(Ok(()))
                    }
                },
            },
            WakeStage::Configured => match input {
                WakeInput::Failed(e) => match e {
                    Error::Disconnected => {
                        task.awaiting_wake = false;
                        self.stage = WakeStage::Over;
                        WakeAction::Return(Err(Error::Disconnected))
                    },
                    _ => {
                        let ghost t = *task;
                        let action = self.retry();
                        assert(old(self).retried(t) == (WakeMove { task: t, waking: *self, action }));
                        action
                    },
                },
                WakeInput::Configured(connector) => {
                    task.connector = connector;
                    let ghost t = *task;
                    let action = self.retry();
                    assert(old(self).retried(t) == (WakeMove { task: t, waking: *self, action }));
                    action
                },
                _ => self.retry(),
            },
            _ => {
                let ghost t = *task;
                let action = self.retry();
                assert(old(self).retried(t) == (WakeMove { task: t, waking: *self, action }));
                action
            },
        }
    }
}

/// What is awaited while a device is found again after a resume.
#[derive(Debug, Copy, Clone, PartialEq, Eq, Structural)]
pub enum ResumeStage {
    Waited,
    Configured,
    Address,
    LogicalAddresses,
    Polled,
    Over,
}

/// The finding of a device after a resume, while it goes on.
#[derive(Debug, Copy, Clone, PartialEq, Eq, Structural)]
pub struct Resuming {
    pub stage: ResumeStage,
    /// How often the device has been tried.
    pub attempt: u32,
}

/// How long to wait before each attempt to find a device after a resume, in milliseconds.
pub open spec fn resume_delay(attempt: int) -> u64 {
    if attempt == 0 {
        0
    } else if attempt == 1 {
        250
    } else if attempt == 2 {
        500
    } else if attempt == 3 {
        1000
    } else {
        2000
    }
}

fn delay_of(attempt: u32) -> (r: u64)
    ensures
        r == resume_delay(attempt as int),
{
    match attempt {
        0 => 0,
        1 => 250,
        2 => 500,
        3 => 1000,
        _ => 2000,
    }
}

impl Resuming {
    /// What holds while it goes on.
    pub open spec fn wf(self) -> bool {
        self.attempt < RESUME_TRIES
    }

    /// The next attempt, if there is one. Whether the television was found makes no difference to
    /// what follows.
    pub open spec fn retried(self) -> (Resuming, WakeAction) {
        if self.attempt + 1 < RESUME_TRIES {
            (
                Resuming { stage: ResumeStage::Waited, attempt: (self.attempt + 1) as u32 },
                WakeAction::Sleep(resume_delay(self.attempt + 1)),
            )
        } else {
            (Resuming { stage: ResumeStage::Over, ..self }, WakeAction::Return(Ok(())))
        }
    }

    /// The same, awaiting something else.
    pub open spec fn at(self, stage: ResumeStage) -> Resuming {
        Resuming { stage, ..self }
    }

    /// What follows on what came of the last action. An attempt succeeds when the device is
    /// configured, has a physical and a logical address, and reaches the television.
    pub open spec fn moved(self, input: WakeInput) -> (Resuming, WakeAction) {
        match self.stage {
            ResumeStage::Waited => (self.at(ResumeStage::Configured), WakeAction::Configure),
            ResumeStage::Configured => if input is Failed {
                self.retried()
            } else {
                (self.at(ResumeStage::Address), WakeAction::ReadPhysicalAddress)
            },
            ResumeStage::Address => match input {
                WakeInput::Address(address) if address != PhysicalAddress(0xffff) => (
                    self.at(ResumeStage::LogicalAddresses),
                    WakeAction::ReadLogicalAddresses,
                ),
                _ => self.retried(),
            },
            ResumeStage::LogicalAddresses => match input {
                WakeInput::LogicalAddresses(n) if n > 0 => (
                    self.at(ResumeStage::Polled),
                    WakeAction::PollAddress(LogicalAddress::Tv),
                ),
                _ => self.retried(),
            },
            _ => if input is Done {
                (self.at(ResumeStage::Over), WakeAction::Return(Ok(())))
            } else {
                self.retried()
            },
        }
    }

    /// Whether an input can come of the last action.
    pub open spec fn awaits(self, input: WakeInput) -> bool {
        match self.stage {
            ResumeStage::Over => false,
            ResumeStage::Waited => input is Done,
            ResumeStage::Configured => input is Configured || input is Failed,
            ResumeStage::Address => input is Address || input is Failed,
            ResumeStage::LogicalAddresses => input is LogicalAddresses || input is Failed,
            ResumeStage::Polled => input is Done || input is Failed,
        }
    }

    /// The finding of a device at its beginning, and what is done first.
    pub open spec fn begun() -> (Resuming, WakeAction) {
        (Resuming { stage: ResumeStage::Waited, attempt: 0 }, WakeAction::Sleep(0))
    }

    /// Begin to find a device after a resume.
    pub fn start() -> (r: (Resuming, WakeAction))
        ensures
            r == Self::begun(),
            r.0.wf(),
    {
        (Resuming { stage: ResumeStage::Waited, attempt: 0 }, WakeAction::Sleep(0))
    }

    fn retry(&mut self) -> (action: WakeAction)
        requires
            old(self).wf(),
        ensures
            (*final(self), action) == old(self).retried(),
            final(self).wf(),
    {
        if self.attempt + 1 < RESUME_TRIES {
            self.stage = ResumeStage::Waited;
            self.attempt = self.attempt + 1;
            WakeAction::Sleep(delay_of(self.attempt))
        } else {
            self.stage = ResumeStage::Over;
            WakeAction::Return(Ok(()))
        }
    }

    /// Go on with what came of the last action.
    pub fn next(&mut self, task: &mut DeviceTask, input: WakeInput) -> (action: WakeAction)
        requires
            old(self).wf(),
            old(self).awaits(input),
        ensures
            (*final(self), action) == old(self).moved(input),
            final(self).wf(),
            *final(task) == (match input {
                WakeInput::Configured(connector) => DeviceTask { connector, ..*old(task) },
                _ => *old(task),
            }),
    {
        match self.stage {
            ResumeStage::Waited => {
                self.stage = ResumeStage::Configured;
                WakeAction::Configure
            },
            ResumeStage::Configured => match input {
                WakeInput::Configured(connector) => {
                    task.connector = connector;
                    self.stage = ResumeStage::Address;
                    WakeAction::ReadPhysicalAddress
                },
                _ => self.retry(),
            },
            ResumeStage::Address => match input {
                WakeInput::Address(address) if address.is_valid() => {
                    self.stage = ResumeStage::LogicalAddresses;
                    WakeAction::ReadLogicalAddresses
                },
                _ => self.retry(),
            },
            ResumeStage::LogicalAddresses => match input {
                WakeInput::LogicalAddresses(n) if n > 0 => {
                    self.stage = ResumeStage::Polled;
                    WakeAction::PollAddress(LogicalAddress::Tv)
                },
                _ => self.retry(),
            },
            _ => match input {
                WakeInput::Done => {
                    self.stage = ResumeStage::Over;
                    WakeAction::Return(Ok(()))
                },
                _ => self.retry(),
            },
        }
    }
}

/// How often the television is told to show the device, by all that comes of what is done.
pub open spec fn shows(waking: Waking, task: DeviceTask, inputs: Seq<WakeInput>) -> nat
    decreases inputs.len(),
{
    if inputs.len() == 0 || waking.stage == WakeStage::Over {
        0
    } else {
        let m = waking.moved(task, inputs[0]);
        let rest = shows(m.waking, m.task, inputs.skip(1));
        if m.action == WakeAction::SetActiveSource {
            rest + 1
        } else {
            rest
        }
    }
}

/// The television is told to show the device no more often than there are tries.
pub proof fn waking_is_bounded(waking: Waking, task: DeviceTask, inputs: Seq<WakeInput>)
    ensures
        shows(waking, task, inputs) <= waking.tries,
    decreases inputs.len(),
{
    if inputs.len() > 0 && waking.stage != WakeStage::Over {
        let m = waking.moved(task, inputs[0]);
        waking_is_bounded(m.waking, m.task, inputs.skip(1));
    }
}

/// How often the device is configured, by all that comes of what is done.
pub open spec fn configurations(resuming: Resuming, inputs: Seq<WakeInput>) -> nat
    decreases inputs.len(),
{
    if inputs.len() == 0 || resuming.stage == ResumeStage::Over {
        0
    } else {
        let m = resuming.moved(inputs[0]);
        let rest = configurations(m.0, inputs.skip(1));
        if m.1 == WakeAction::Configure {
            rest + 1
        } else {
            rest
        }
    }
}

/// A device is configured no more than five times after a resume.
pub proof fn resuming_is_bounded(inputs: Seq<WakeInput>)
    ensures
        configurations(Resuming { stage: ResumeStage::Waited, attempt: 0 }, inputs) <= RESUME_TRIES,
{
    configurations_left(Resuming { stage: ResumeStage::Waited, attempt: 0 }, inputs);
}

proof fn configurations_left(resuming: Resuming, inputs: Seq<WakeInput>)
    requires
        resuming.wf(),
    ensures
        configurations(resuming, inputs) <= RESUME_TRIES - resuming.attempt - (if resuming.stage
            == ResumeStage::Waited {
            0int
        } else {
            1
        }),
    decreases inputs.len(),
{
    if inputs.len() > 0 && resuming.stage != ResumeStage::Over {
        configurations_left(resuming.moved(inputs[0]).0, inputs.skip(1));
    }
}

impl WakeMove {
    /// What follows on what came of the action.
    pub open spec fn given(self, input: WakeInput) -> WakeMove {
        self.waking.moved(self.task, input)
    }

    /// Whether the television is told once more to show the device where that was not done as often
    /// as it is worth, and all is done else.
    pub open spec fn shows_again(self, tries: u32) -> bool {
        if tries > 0 {
            self.action == WakeAction::SetActiveSource && self.waking == (Waking {
                stage: WakeStage::Shown,
                tries: (tries - 1) as u32,
            })
        } else {
            self.action == WakeAction::Return(Ok(())) && self.waking.stage == WakeStage::Over
        }
    }

    /// Whether the waking ends with a failure.
    pub open spec fn has_failed(self, e: Error) -> bool {
        self.action == WakeAction::Return(Err(e)) && self.waking.stage == WakeStage::Over
    }
}

/// The television is woken first. From then on an answer is awaited, and after a tenth of a second
/// it is told to show the device, up to twice. A television that cannot be woken is left alone.
pub proof fn a_woken_television_is_told_to_show(at: WakeMove, e: Error)
    requires
        at.waking == (Waking { stage: WakeStage::Woken, tries: WAKE_TRIES }),
    ensures
        WAKE_TRIES == 2,
        at.given(WakeInput::Done).action == WakeAction::Sleep(100),
        at.given(WakeInput::Done).task == (DeviceTask { awaiting_wake: true, ..at.task }),
        at.given(WakeInput::Done).given(WakeInput::Done).shows_again(2),
        at.given(WakeInput::Done).given(WakeInput::Done).task.awaiting_wake,
        at.given(WakeInput::Failed(e)).has_failed(e),
        at.given(WakeInput::Failed(e)).task == at.task,
{
}

/// Once the television shows the device all is done. Until it does, it is told so again after a
/// second, also where that failed.
pub proof fn a_television_is_given_time(at: WakeMove, e: Error)
    requires
        at.waking.stage == WakeStage::Shown,
        e != Error::NoLogicalAddress,
        e != Error::Disconnected,
    ensures
        if at.task.awaiting_wake {
            &&& at.given(WakeInput::Done).action == WakeAction::Sleep(1000)
            &&& at.given(WakeInput::Done).given(WakeInput::Done).shows_again(at.waking.tries)
            &&& at.given(WakeInput::Done).given(WakeInput::Done).task == at.task
        } else {
            &&& at.given(WakeInput::Done).action == WakeAction::Return(Ok(()))
            &&& at.given(WakeInput::Done).task == at.task
        },
        at.given(WakeInput::Failed(e)).action == WakeAction::Sleep(1000),
        at.given(WakeInput::Failed(e)).given(WakeInput::Done).shows_again(at.waking.tries),
        at.given(WakeInput::Failed(e)).given(WakeInput::Done).task == at.task,
{
}

/// A device that has lost its logical address is configured again, and the television is told again
/// without a wait, whether that worked or not.
pub proof fn a_lost_address_is_configured(
    at: WakeMove,
    connector: Option<DrmConnector>,
    e: Error,
)
    requires
        at.waking.stage == WakeStage::Shown,
        e != Error::Disconnected,
    ensures
        ({
            let configuring = at.given(WakeInput::Failed(Error::NoLogicalAddress));
            let configured = configuring.given(WakeInput::Configured(connector));
            let failed = configuring.given(WakeInput::Failed(e));
            &&& configuring.action == WakeAction::Configure && configuring.task == at.task
            &&& configured.shows_again(at.waking.tries)
            &&& configured.task == (DeviceTask { connector, ..at.task })
            &&& failed.shows_again(at.waking.tries)
            &&& failed.task == at.task
        }),
{
}

/// A device that is gone is not waited for any more.
pub proof fn a_lost_device_is_given_up(at: WakeMove)
    requires
        at.waking.stage == WakeStage::Shown,
    ensures
        ({
            let gone = WakeInput::Failed(Error::Disconnected);
            let lost = at.given(gone);
            let later = at.given(WakeInput::Failed(Error::NoLogicalAddress)).given(gone);
            &&& lost.has_failed(Error::Disconnected) && later.has_failed(Error::Disconnected)
            &&& lost.task == (DeviceTask { awaiting_wake: false, ..at.task })
            &&& later.task == (DeviceTask { awaiting_wake: false, ..at.task })
        }),
{
}

/// A point in the finding of a device after a resume: the state and what is done there.
pub struct ResumePoint {
    pub resuming: Resuming,
    pub action: WakeAction,
}

impl ResumePoint {
    /// What follows on what came of the action.
    pub open spec fn given(self, input: WakeInput) -> ResumePoint {
        let (resuming, action) = self.resuming.moved(input);
        ResumePoint { resuming, action }
    }

    /// Whether it is tried again after an attempt: after a quarter of a second, then after twice as
    /// long each time, but not after the fifth.
    pub open spec fn tries_again(self, attempt: u32) -> bool {
        if attempt < 4 {
            &&& attempt == 0 ==> self.action == WakeAction::Sleep(250)
            &&& attempt == 1 ==> self.action == WakeAction::Sleep(500)
            &&& attempt == 2 ==> self.action == WakeAction::Sleep(1000)
            &&& attempt == 3 ==> self.action == WakeAction::Sleep(2000)
            &&& self.resuming == (Resuming {
                stage: ResumeStage::Waited,
                attempt: (attempt + 1) as u32,
            })
        } else {
            self.action == WakeAction::Return(Ok(())) && self.resuming.stage == ResumeStage::Over
        }
    }
}

/// After a resume the device is configured. It is found once it has a physical address and a
/// logical one and the television answers. Whatever is missing, it is tried again.
pub proof fn a_device_is_found_again(
    at: ResumePoint,
    connector: Option<DrmConnector>,
    address: PhysicalAddress,
    n: usize,
    e: Error,
)
    requires
        at.resuming.stage == ResumeStage::Waited,
        at.resuming.attempt < 5,
        address.0 != 0xffff,
        n > 0,
    ensures
        ({
            let attempt = at.resuming.attempt;
            let failed = WakeInput::Failed(e);
            let configuring = at.given(WakeInput::Done);
            let reading = configuring.given(WakeInput::Configured(connector));
            let counting = reading.given(WakeInput::Address(address));
            let asking = counting.given(WakeInput::LogicalAddresses(n));
            &&& configuring.action == WakeAction::Configure
            &&& configuring.given(failed).tries_again(attempt)
            &&& reading.action == WakeAction::ReadPhysicalAddress
            &&& reading.given(failed).tries_again(attempt)
            &&& reading.given(WakeInput::Address(PhysicalAddress(0xffff))).tries_again(attempt)
            &&& counting.action == WakeAction::ReadLogicalAddresses
            &&& counting.given(failed).tries_again(attempt)
            &&& counting.given(WakeInput::LogicalAddresses(0)).tries_again(attempt)
            &&& asking.action == WakeAction::PollAddress(LogicalAddress::Tv)
            &&& asking.given(failed).tries_again(attempt)
            &&& asking.given(WakeInput::Done).action == WakeAction::Return(Ok(()))
            &&& asking.given(WakeInput::Done).resuming.stage == ResumeStage::Over
        }),
{
}

/// To wake the television comes first, and it is told to show the device up to twice. After a resume
/// the first of five attempts to find the device is made at once.
pub proof fn waking_and_finding_begin(task: DeviceTask)
    ensures
        Waking::begun().1 == WakeAction::Wake,
        Waking::begun().0 == (Waking { stage: WakeStage::Woken, tries: 2 }),
        Resuming::begun().1 == WakeAction::Sleep(0),
        Resuming::begun().0.moved(WakeInput::Done).1 == WakeAction::Configure,
        Resuming::begun().0.attempt == 0,
        RESUME_TRIES == 5,
{
}

} // verus!
