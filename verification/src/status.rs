//! Handling of what a poll found: events are dequeued before messages are received.

use vstd::prelude::*;

use crate::address::Timeout;
use crate::device::{
    envelope_error, CEC_EVENT_LOST_MSGS, CEC_EVENT_PIN_5V_HIGH, CEC_EVENT_PIN_5V_LOW,
    CEC_EVENT_PIN_CEC_HIGH, CEC_EVENT_PIN_CEC_LOW, CEC_EVENT_PIN_HPD_HIGH, CEC_EVENT_PIN_HPD_LOW,
    CEC_EVENT_STATE_CHANGE, CecMsg, Device, Envelope, LogAddrs, Pin, PinEvent, PinState, PollResult,
    PollStatus,
};
use crate::error::Error;

verus! {

/// What has to be done outside to handle a status, and in the end the results.
pub enum StatusAction {
    /// Dequeue an event.
    DequeueEvent,
    /// Read the logical addresses.
    ReadLogAddrs,
    /// Receive a message, waiting no longer than this.
    Receive(Timeout),
    /// Nothing more: these are the results.
    Return(Result<Vec<PollResult>, Error>),
}

/// What came of it.
pub enum StatusInput {
    /// An event, and the number of lost messages that it carries if it is about those.
    Event { event: u32, lost_msgs: u32 },
    LogAddrs(LogAddrs),
    Received(CecMsg),
    Failed(Error),
}

/// What is awaited.
#[derive(Debug, Copy, Clone, PartialEq, Eq, Structural)]
pub enum StatusStage {
    Event,
    LogAddrs,
    Message,
    Nothing,
}

/// The handling of a status, while it goes on.
pub struct StatusHandling {
    pub status: PollStatus,
    pub stage: StatusStage,
    pub results: Vec<PollResult>,
}

/// What an event says by itself. That the state changed is not among these: it takes more to handle.
pub open spec fn event_result(event: u32, lost_msgs: u32) -> Option<PollResult> {
    if event == CEC_EVENT_LOST_MSGS {
        Some(PollResult::LostMessages(lost_msgs))
    } else if event == CEC_EVENT_PIN_CEC_LOW {
        Some(PollResult::PinEvent(PinEvent { pin: Pin::Cec, state: PinState::Low }))
    } else if event == CEC_EVENT_PIN_CEC_HIGH {
        Some(PollResult::PinEvent(PinEvent { pin: Pin::Cec, state: PinState::High }))
    } else if event == CEC_EVENT_PIN_HPD_LOW {
        Some(PollResult::PinEvent(PinEvent { pin: Pin::HotPlugDetect, state: PinState::Low }))
    } else if event == CEC_EVENT_PIN_HPD_HIGH {
        Some(PollResult::PinEvent(PinEvent { pin: Pin::HotPlugDetect, state: PinState::High }))
    } else if event == CEC_EVENT_PIN_5V_LOW {
        Some(PollResult::PinEvent(PinEvent { pin: Pin::Power5V, state: PinState::Low }))
    } else if event == CEC_EVENT_PIN_5V_HIGH {
        Some(PollResult::PinEvent(PinEvent { pin: Pin::Power5V, state: PinState::High }))
    } else {
        None
    }
}

fn pin_event(pin: Pin, state: PinState) -> (r: Option<PollResult>)
    ensures
        r == Some(PollResult::PinEvent(PinEvent { pin, state })),
{
    Some(PollResult::PinEvent(PinEvent { pin, state }))
}

fn read_event(event: u32, lost_msgs: u32) -> (r: Option<PollResult>)
    ensures
        r == event_result(event, lost_msgs),
{
    match event {
        CEC_EVENT_LOST_MSGS => Some(PollResult::LostMessages(lost_msgs)),
        CEC_EVENT_PIN_CEC_LOW => pin_event(Pin::Cec, PinState::Low),
        CEC_EVENT_PIN_CEC_HIGH => pin_event(Pin::Cec, PinState::High),
        CEC_EVENT_PIN_HPD_LOW => pin_event(Pin::HotPlugDetect, PinState::Low),
        CEC_EVENT_PIN_HPD_HIGH => pin_event(Pin::HotPlugDetect, PinState::High),
        CEC_EVENT_PIN_5V_LOW => pin_event(Pin::Power5V, PinState::Low),
        CEC_EVENT_PIN_5V_HIGH => pin_event(Pin::Power5V, PinState::High),
        _ => None,
    }
}

impl StatusHandling {
    /// Whether the results so far go out with an action: a message is received if the status says
    /// that there is one, and else the results are returned.
    pub open spec fn goes_on(&self, results: Seq<PollResult>, action: StatusAction) -> bool {
        if self.status == PollStatus::GotMessage || self.status == PollStatus::GotAll {
            &&& action == StatusAction::Receive(Timeout { ms: 1 })
            &&& self.stage == StatusStage::Message
            &&& self.results@ == results
        } else {
            &&& action matches StatusAction::Return(Ok(out)) && out@ == results
            &&& self.stage == StatusStage::Nothing
        }
    }

    fn proceed(&mut self) -> (action: StatusAction)
        ensures
            final(self).status == old(self).status,
            final(self).goes_on(old(self).results@, action),
    {
        if self.status.got_message() {
            self.stage = StatusStage::Message;
            StatusAction::Receive(Timeout::from_ms(1))
        } else {
            self.stage = StatusStage::Nothing;
            let mut out: Vec<PollResult> = Vec::new();
            out.append(&mut self.results);
            assert(out@ =~= old(self).results@);
            StatusAction::Return(Ok(out))
        }
    }

    fn fail(&mut self, e: Error) -> (action: StatusAction)
        ensures
            final(self).status == old(self).status,
            final(self).stage == StatusStage::Nothing,
            action == StatusAction::Return(Err(e)),
    {
        self.stage = StatusStage::Nothing;
        StatusAction::Return(Err(e))
    }

    /// Whether this is the handling of a status at its beginning, with what is done first.
    pub open spec fn begins(self, action: StatusAction) -> bool {
        if self.status == PollStatus::GotEvent || self.status == PollStatus::GotAll {
            &&& action == StatusAction::DequeueEvent
            &&& self.stage == StatusStage::Event
            &&& self.results@ == Seq::<PollResult>::empty()
        } else {
            self.goes_on(Seq::empty(), action)
        }
    }

    /// Begin to handle a status.
    pub fn start(status: PollStatus) -> (r: (StatusHandling, StatusAction))
        ensures
            r.0.status == status,
            r.0.begins(r.1),
    {
        let mut handling = StatusHandling {
            status,
            stage: StatusStage::Event,
            results: Vec::new(),
        };
        if status.got_event() {
            (handling, StatusAction::DequeueEvent)
        } else {
            let action = handling.proceed();
            (handling, action)
        }
    }

    /// What follows on what came of the last action, and what is done there.
    pub open spec fn moves(
        self,
        input: StatusInput,
        now: StatusHandling,
        action: StatusAction,
    ) -> bool {
        match input {
            StatusInput::Failed(e) => action == StatusAction::Return(Err(e))
                && now.stage == StatusStage::Nothing,
            StatusInput::Event { event, lost_msgs } => if event == CEC_EVENT_STATE_CHANGE {
                action == StatusAction::ReadLogAddrs && now.stage
                    == StatusStage::LogAddrs && now.results == self.results
            } else {
                match event_result(event, lost_msgs) {
                    Some(result) => now.goes_on(
                        self.results@.push(result),
                        action,
                    ),
                    None => action == StatusAction::Return(Err(Error::InvalidData))
                        && now.stage == StatusStage::Nothing,
                }
            },
            StatusInput::LogAddrs(_) => now.goes_on(
                self.results@.push(PollResult::StateChange),
                action,
            ),
            StatusInput::Received(raw) => now.stage == StatusStage::Nothing
                && match envelope_error(raw) {
                Some(e) => action matches StatusAction::Return(Err(err)) && err@ == e,
                None => action matches StatusAction::Return(Ok(out)) && out@.len()
                    == self.results@.len() + 1 && out@.drop_last() == self.results@
                    && (out@.last() matches PollResult::Message(envelope) && envelope.holds(
                    raw,
                )),
            },
        }
    }

    /// Go on with what came of the last action. A failure ends the handling, as does an event or a
    /// message that makes no sense.
    pub fn next(&mut self, device: &mut Device, input: StatusInput) -> (action: StatusAction)
        requires
            match old(self).stage {
                StatusStage::Event => input is Event || input is Failed,
                StatusStage::LogAddrs => input is LogAddrs || input is Failed,
                StatusStage::Message => input is Received || input is Failed,
                StatusStage::Nothing => false,
            },
        ensures
            final(self).status == old(self).status,
            input matches StatusInput::LogAddrs(log_addrs) ==> {
                &&& final(device).internal_log_addrs == log_addrs
                &&& final(device).tx_logical_address == log_addrs.first()
            },
            !(input is LogAddrs) ==> *final(device) == *old(device),
            old(self).moves(input, *final(self), action),
    {
        match input {
            StatusInput::Failed(e) => self.fail(e),
            StatusInput::Event { event, lost_msgs } => {
                if event == CEC_EVENT_STATE_CHANGE {
                    self.stage = StatusStage::LogAddrs;
                    StatusAction::ReadLogAddrs
                } else {
                    match read_event(event, lost_msgs) {
                        Some(result) => {
                            self.results.push(result);
                            self.proceed()
                        },
                        None => self.fail(Error::InvalidData),
                    }
                }
            },
            StatusInput::LogAddrs(log_addrs) => {
                device.refresh(log_addrs);
                self.results.push(PollResult::StateChange);
                self.proceed()
            },
            StatusInput::Received(raw) => {
                self.stage = StatusStage::Nothing;
                match Envelope::try_from(raw) {
                    Err(e) => StatusAction::Return(Err(e)),
                    Ok(envelope) => {
                        let mut out: Vec<PollResult> = Vec::new();
                        out.append(&mut self.results);
                        out.push(PollResult::Message(envelope));
                        assert(out@.drop_last() =~= old(self).results@);
                        StatusAction::Return(Ok(out))
                    },
                }
            },
        }
    }
}

/// What the numbers of the kernel's events mean. That of a change of state is none of these, and
/// there are no others.
pub proof fn events_have_numbers(event: u32, lost_msgs: u32)
    ensures
        CEC_EVENT_STATE_CHANGE == 1,
        event_result(2, lost_msgs) == Some(PollResult::LostMessages(lost_msgs)),
        event_result(3, lost_msgs) == Some(
            PollResult::PinEvent(PinEvent { pin: Pin::Cec, state: PinState::Low }),
        ),
        event_result(4, lost_msgs) == Some(
            PollResult::PinEvent(PinEvent { pin: Pin::Cec, state: PinState::High }),
        ),
        event_result(5, lost_msgs) == Some(
            PollResult::PinEvent(PinEvent { pin: Pin::HotPlugDetect, state: PinState::Low }),
        ),
        event_result(6, lost_msgs) == Some(
            PollResult::PinEvent(PinEvent { pin: Pin::HotPlugDetect, state: PinState::High }),
        ),
        event_result(7, lost_msgs) == Some(
            PollResult::PinEvent(PinEvent { pin: Pin::Power5V, state: PinState::Low }),
        ),
        event_result(8, lost_msgs) == Some(
            PollResult::PinEvent(PinEvent { pin: Pin::Power5V, state: PinState::High }),
        ),
        event < 2 || event > 8 ==> event_result(event, lost_msgs) is None,
{
}

/// Once events are worked off, a message is received just where the status says that there is one,
/// and what was found so far is kept for the end.
pub proof fn messages_are_received_after_events(
    handling: StatusHandling,
    results: Seq<PollResult>,
    action: StatusAction,
)
    requires
        handling.goes_on(results, action),
    ensures
        action is Receive <==> handling.status == PollStatus::GotMessage || handling.status
            == PollStatus::GotAll,
        action matches StatusAction::Receive(timeout) ==> timeout.ms == 1 && handling.results@
            == results,
        !(action is Receive) ==> (action matches StatusAction::Return(Ok(out)) && out@ == results),
{
}

/// A status with an event begins with that event. Without one, a message is received, or there is
/// nothing to be told.
pub proof fn events_come_first(handling: StatusHandling, action: StatusAction)
    requires
        handling.begins(action),
    ensures
        action is DequeueEvent <==> handling.status == PollStatus::GotEvent || handling.status
            == PollStatus::GotAll,
        action is Receive <==> handling.status == PollStatus::GotMessage,
        action matches StatusAction::Return(result) ==> (result matches Ok(out) && out@.len() == 0),
        !(action is ReadLogAddrs),
{
}

/// That the state has changed is told once the logical addresses have been read. Another event is
/// told as it is, one that is not known is refused, and a failure ends all.
pub proof fn events_are_told(
    handling: StatusHandling,
    event: u32,
    lost_msgs: u32,
    log_addrs: LogAddrs,
    e: Error,
    now: StatusHandling,
    action: StatusAction,
)
    requires
        now.status == handling.status,
    ensures
        handling.moves(StatusInput::Event { event: 1, lost_msgs }, now, action) ==> action
            == StatusAction::ReadLogAddrs && now.stage == StatusStage::LogAddrs && now.results
            == handling.results,
        handling.moves(StatusInput::LogAddrs(log_addrs), now, action) ==> now.goes_on(
            handling.results@ + seq![PollResult::StateChange],
            action,
        ),
        2 <= event <= 8 && handling.moves(StatusInput::Event { event, lost_msgs }, now, action)
            ==> now.goes_on(
            handling.results@ + seq![event_result(event, lost_msgs)->Some_0],
            action,
        ),
        (event == 0 || event > 8) && handling.moves(
            StatusInput::Event { event, lost_msgs },
            now,
            action,
        ) ==> action == StatusAction::Return(Err(Error::InvalidData)),
        handling.moves(StatusInput::Failed(e), now, action) ==> action == StatusAction::Return(
            Err(e),
        ),
{
    assert(handling.results@.push(PollResult::StateChange) =~= handling.results@
        + seq![PollResult::StateChange]);
    if 2 <= event <= 8 {
        let result = event_result(event, lost_msgs)->Some_0;
        assert(handling.results@.push(result) =~= handling.results@ + seq![result]);
    }
}

/// A message that is received comes behind all that was found before, unless it makes no sense.
pub proof fn messages_are_told_last(
    handling: StatusHandling,
    raw: CecMsg,
    now: StatusHandling,
    action: StatusAction,
)
    requires
        handling.moves(StatusInput::Received(raw), now, action),
    ensures
        match envelope_error(raw) {
            Some(e) => action matches StatusAction::Return(Err(err)) && err@ == e,
            None => action matches StatusAction::Return(Ok(out)) && (out@.last() matches
                PollResult::Message(envelope) && envelope.holds(raw) && out@ == handling.results@
                + seq![PollResult::Message(envelope)]),
        },
{
    if envelope_error(raw) is None {
        let out = action->Return_0->Ok_0@;
        assert(out =~= handling.results@ + seq![out.last()]);
    }
}

} // verus!
