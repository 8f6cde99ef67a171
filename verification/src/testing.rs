//! A device in memory, for trying out what drives devices. It answers as a driver would, keeps what
//! is sent, and hands out what it is told to have received.

use vstd::prelude::*;
use vstd::string::StringSliceAdditionalSpecFns;

use crate::address::{
    FollowerMode, InitiatorMode, LogicalAddress, LogicalAddressType, PhysicalAddress, VendorId,
};
use crate::codec::Coded;
use crate::configure::{CEC_CAP_LOG_ADDRS, CEC_CAP_PHYS_ADDR, CEC_CAP_TRANSMIT};
use crate::device::{ConnectorInfo, Envelope, MessageData, PollResult, PollStatus};
use crate::error::{bad_length, outcome, Error, ErrorView, RangeView, TxError};
use crate::message::Message;
use crate::operand::{BufferOperand, UiCommand};

verus! {

/// A device in memory.
pub struct AsyncDevice {
    pub caps: u32,
    /// Whether the device finds no logical address that is free.
    pub force_unregistered: bool,
    pub follower: FollowerMode,
    pub initiator: InitiatorMode,
    pub phys_addr: PhysicalAddress,
    pub log_addrs: Vec<LogicalAddress>,
    pub osd_name: BufferOperand,
    pub vendor_id: Option<VendorId>,
    /// What was sent and not looked at yet, the oldest first.
    pub tx_queue: Vec<(Message, LogicalAddress)>,
    /// What was received and not read yet, the oldest first.
    pub rx_queue: Vec<Envelope>,
    /// What those who poll the device have still to be told, the oldest first.
    pub statuses: Vec<PollStatus>,
    /// Whether those whose presence is asked for are there, the next first. All others are there.
    pub poll_results: Vec<bool>,
    pub sequence: u32,
}

/// The logical address that a device gets by its kind, where it is the only one on the bus.
pub open spec fn first_address(ty: LogicalAddressType) -> LogicalAddress {
    match ty {
        LogicalAddressType::Tv => LogicalAddress::Tv,
        LogicalAddressType::Record => LogicalAddress::RecordingDevice1,
        LogicalAddressType::Tuner => LogicalAddress::Tuner1,
        LogicalAddressType::Playback => LogicalAddress::PlaybackDevice1,
        LogicalAddressType::AudioSystem => LogicalAddress::AudioSystem,
        LogicalAddressType::Specific => LogicalAddress::Specific,
        LogicalAddressType::Unregistered => LogicalAddress::Unregistered,
    }
}

fn address_for(ty: LogicalAddressType) -> (r: LogicalAddress)
    ensures
        r == first_address(ty),
{
    match ty {
        LogicalAddressType::Tv => LogicalAddress::Tv,
        LogicalAddressType::Record => LogicalAddress::RecordingDevice1,
        LogicalAddressType::Tuner => LogicalAddress::Tuner1,
        LogicalAddressType::Playback => LogicalAddress::PlaybackDevice1,
        LogicalAddressType::AudioSystem => LogicalAddress::AudioSystem,
        LogicalAddressType::Specific => LogicalAddress::Specific,
        LogicalAddressType::Unregistered => LogicalAddress::Unregistered,
    }
}

impl AsyncDevice {
    /// Whether the device can do something.
    pub open spec fn can(self, cap: u32) -> bool {
        self.caps & cap == cap
    }

    /// Why the device cannot send, if so.
    pub open spec fn tx_refusal(self) -> Option<ErrorView> {
        if self.log_addrs@.len() == 0 {
            Some(ErrorView::NoLogicalAddress)
        } else if forall|i: int|
            0 <= i < self.log_addrs@.len() ==> #[trigger] self.log_addrs@[i]
                == LogicalAddress::Unregistered {
            Some(ErrorView::InvalidData)
        } else if self.initiator == InitiatorMode::Disabled {
            Some(ErrorView::InvalidData)
        } else {
            None
        }
    }

    /// A device that can do nothing and knows nothing.
    pub fn open() -> (r: AsyncDevice)
        ensures
            r.caps == 0,
            !r.force_unregistered,
            r.follower == FollowerMode::Disabled,
            r.initiator == InitiatorMode::Disabled,
            r.phys_addr == PhysicalAddress(0xffff),
            r.log_addrs@.len() == 0,
            r.osd_name@.len() == 0,
            r.vendor_id is None,
            r.tx_queue@.len() == 0,
            r.rx_queue@.len() == 0,
            r.statuses@.len() == 0,
            r.poll_results@.len() == 0,
            r.sequence == 1,
    {
        AsyncDevice {
            caps: 0,
            force_unregistered: false,
            follower: FollowerMode::Disabled,
            initiator: InitiatorMode::Disabled,
            phys_addr: PhysicalAddress(0xffff),
            log_addrs: Vec::new(),
            osd_name: BufferOperand::new(),
            vendor_id: None,
            tx_queue: Vec::new(),
            rx_queue: Vec::new(),
            statuses: Vec::new(),
            poll_results: Vec::new(),
            sequence: 1,
        }
    }

    fn receive(&mut self, message: Message, initiator: LogicalAddress, destination: LogicalAddress)
        requires
            old(self).sequence < u32::MAX,
        ensures
            final(self).rx_queue@ == old(self).rx_queue@.push(
                (Envelope {
                    message: MessageData::Valid(message),
                    initiator,
                    destination,
                    timestamp: 0,
                    sequence: old(self).sequence,
                }),
            ),
            final(self).statuses@ == old(self).statuses@.push(PollStatus::GotMessage),
            *final(self) == (AsyncDevice {
                rx_queue: final(self).rx_queue,
                statuses: final(self).statuses,
                sequence: (old(self).sequence + 1) as u32,
                ..*old(self)
            }),
    {
        let envelope = Envelope {
            message: MessageData::Valid(message),
            initiator,
            destination,
            timestamp: 0,
            sequence: self.sequence,
        };
        self.sequence = self.sequence + 1;
        self.rx_queue.push(envelope);
        self.statuses.push(PollStatus::GotMessage);
    }

    /// Let the device receive a message that it sends to another. It needs a logical address.
    pub fn queue_rx_message(&mut self, message: Message, destination: LogicalAddress)
        requires
            old(self).log_addrs@.len() > 0,
            old(self).sequence < u32::MAX,
        ensures
            final(self).rx_queue@ == old(self).rx_queue@.push(
                (Envelope {
                    message: MessageData::Valid(message),
                    initiator: old(self).log_addrs@[0],
                    destination,
                    timestamp: 0,
                    sequence: old(self).sequence,
                }),
            ),
            final(self).statuses@ == old(self).statuses@.push(PollStatus::GotMessage),
            *final(self) == (AsyncDevice {
                rx_queue: final(self).rx_queue,
                statuses: final(self).statuses,
                sequence: (old(self).sequence + 1) as u32,
                ..*old(self)
            }),
    {
        let initiator = self.log_addrs[0];
        self.receive(message, initiator, destination);
    }

    /// Let the device receive a message that another sends to it. It needs a logical address.
    pub fn send_rx_message(&mut self, message: Message, initiator: LogicalAddress)
        requires
            old(self).log_addrs@.len() > 0,
            old(self).sequence < u32::MAX,
        ensures
            final(self).rx_queue@ == old(self).rx_queue@.push(
                (Envelope {
                    message: MessageData::Valid(message),
                    initiator,
                    destination: old(self).log_addrs@[0],
                    timestamp: 0,
                    sequence: old(self).sequence,
                }),
            ),
            final(self).statuses@ == old(self).statuses@.push(PollStatus::GotMessage),
            *final(self) == (AsyncDevice {
                rx_queue: final(self).rx_queue,
                statuses: final(self).statuses,
                sequence: (old(self).sequence + 1) as u32,
                ..*old(self)
            }),
    {
        let destination = self.log_addrs[0];
        self.receive(message, initiator, destination);
    }

    /// The oldest message that was sent and not looked at yet.
    pub fn dequeue_tx_message(&mut self) -> (r: Option<(Message, LogicalAddress)>)
        ensures
            if old(self).tx_queue@.len() > 0 {
                &&& r == Some(old(self).tx_queue@[0])
                &&& final(self).tx_queue@ == old(self).tx_queue@.skip(1)
                &&& *final(self) == (AsyncDevice { tx_queue: final(self).tx_queue, ..*old(self) })
            } else {
                r is None && *final(self) == *old(self)
            },
    {
        if self.tx_queue.len() > 0 {
            let first = self.tx_queue.remove(0);
            assert(self.tx_queue@ =~= old(self).tx_queue@.skip(1));
            Some(first)
        } else {
            None
        }
    }

    /// What those who poll the device are told next.
    pub fn poll(&mut self) -> (r: Option<PollStatus>)
        ensures
            if old(self).statuses@.len() > 0 {
                &&& r == Some(old(self).statuses@[0])
                &&& final(self).statuses@ == old(self).statuses@.skip(1)
                &&& *final(self) == (AsyncDevice { statuses: final(self).statuses, ..*old(self) })
            } else {
                r is None && *final(self) == *old(self)
            },
    {
        if self.statuses.len() > 0 {
            let first = self.statuses.remove(0);
            assert(self.statuses@ =~= old(self).statuses@.skip(1));
            Some(first)
        } else {
            None
        }
    }

    /// Let the device send, or not. A device that cannot transmit refuses.
    pub fn set_initiator_mode(&mut self, mode: InitiatorMode) -> (r: Result<(), Error>)
        ensures
            if old(self).can(CEC_CAP_TRANSMIT) {
                r is Ok && *final(self) == (AsyncDevice { initiator: mode, ..*old(self) })
            } else {
                &&& outcome(r) == Err::<(), ErrorView>(ErrorView::InvalidData)
                &&& *final(self) == *old(self)
            },
    {
        if self.caps & CEC_CAP_TRANSMIT != CEC_CAP_TRANSMIT {
            return Err(Error::InvalidData);
        }
        self.initiator = mode;
        Ok(())
    }

    /// Let the device receive, or not.
    pub fn set_follower_mode(&mut self, mode: FollowerMode)
        ensures
            *final(self) == (AsyncDevice { follower: mode, ..*old(self) }),
    {
        self.follower = mode;
    }

    /// Set the physical address. A device that has one by itself refuses.
    pub fn set_physical_address(&mut self, phys_addr: PhysicalAddress) -> (r: Result<(), Error>)
        ensures
            if old(self).can(CEC_CAP_PHYS_ADDR) {
                r is Ok && *final(self) == (AsyncDevice { phys_addr, ..*old(self) })
            } else {
                &&& outcome(r) == Err::<(), ErrorView>(ErrorView::InvalidData)
                &&& *final(self) == *old(self)
            },
    {
        if self.caps & CEC_CAP_PHYS_ADDR != CEC_CAP_PHYS_ADDR {
            return Err(Error::InvalidData);
        }
        self.phys_addr = phys_addr;
        Ok(())
    }

    /// Whether the device takes logical addresses: it is for this side to set them, the device may
    /// send, it has none yet, and it is connected.
    pub open spec fn takes_addresses(self) -> bool {
        &&& self.can(CEC_CAP_LOG_ADDRS)
        &&& self.initiator != InitiatorMode::Disabled
        &&& self.log_addrs@.len() == 0
        &&& self.phys_addr.0 != 0xffff
    }

    /// Ask for logical addresses by their kinds.
    pub fn set_logical_addresses(&mut self, log_addrs: &[LogicalAddressType]) -> (r: Result<
        (),
        Error,
    >)
        ensures
            if old(self).takes_addresses() {
                &&& r is Ok
                &&& final(self).log_addrs@ == (if old(self).force_unregistered {
                    seq![LogicalAddress::Unregistered]
                } else {
                    log_addrs@.map_values(|ty: LogicalAddressType| first_address(ty))
                })
                &&& final(self).statuses@ == old(self).statuses@.push(PollStatus::GotEvent)
                &&& *final(self) == (AsyncDevice {
                    log_addrs: final(self).log_addrs,
                    statuses: final(self).statuses,
                    ..*old(self)
                })
            } else {
                &&& outcome(r) == Err::<(), ErrorView>(ErrorView::InvalidData)
                &&& *final(self) == *old(self)
            },
    {
        if self.caps & CEC_CAP_LOG_ADDRS != CEC_CAP_LOG_ADDRS || self.initiator
            == InitiatorMode::Disabled || self.log_addrs.len() > 0 || !self.phys_addr.is_valid() {
            return Err(Error::InvalidData);
        }
        let mut found: Vec<LogicalAddress> = Vec::new();
        if self.force_unregistered {
            found.push(LogicalAddress::Unregistered);
            assert(found@ =~= seq![LogicalAddress::Unregistered]);
        } else {
            let mut i: usize = 0;
            while i < log_addrs.len()
                invariant
                    i <= log_addrs@.len(),
                    found@ == log_addrs@.take(i as int).map_values(
                        |ty: LogicalAddressType| first_address(ty),
                    ),
                decreases log_addrs@.len() - i,
            {
                found.push(address_for(log_addrs[i]));
                i += 1;
                assert(found@ =~= log_addrs@.take(i as int).map_values(
                    |ty: LogicalAddressType| first_address(ty),
                ));
            }
            assert(log_addrs@.take(i as int) =~= log_addrs@);
        }
        self.log_addrs = found;
        self.statuses.push(PollStatus::GotEvent);
        Ok(())
    }

    /// Give up all logical addresses.
    pub fn clear_logical_addresses(&mut self) -> (r: Result<(), Error>)
        ensures
            if old(self).can(CEC_CAP_LOG_ADDRS) {
                &&& r is Ok
                &&& final(self).log_addrs@.len() == 0
                &&& final(self).statuses@ == old(self).statuses@.push(PollStatus::GotEvent)
                &&& *final(self) == (AsyncDevice {
                    log_addrs: final(self).log_addrs,
                    statuses: final(self).statuses,
                    ..*old(self)
                })
            } else {
                &&& outcome(r) == Err::<(), ErrorView>(ErrorView::InvalidData)
                &&& *final(self) == *old(self)
            },
    {
        if self.caps & CEC_CAP_LOG_ADDRS != CEC_CAP_LOG_ADDRS {
            return Err(Error::InvalidData);
        }
        self.log_addrs = Vec::new();
        self.statuses.push(PollStatus::GotEvent);
        Ok(())
    }

    /// Set the name of the device, of up to fourteen bytes.
    pub fn set_osd_name(&mut self, name: &str) -> (r: Result<(), Error>)
        ensures
            if name.spec_bytes().len() <= 14 {
                &&& r is Ok
                &&& final(self).osd_name@ == name.spec_bytes()
                &&& *final(self) == (AsyncDevice { osd_name: final(self).osd_name, ..*old(self) })
            } else {
                &&& outcome(r) == Err::<(), ErrorView>(
                    bad_length(RangeView::AtMost(14), name.spec_bytes().len()),
                )
                &&& *final(self) == *old(self)
            },
    {
        match BufferOperand::from_str(name) {
            Ok(buffer) => {
                self.osd_name = buffer;
                Ok(())
            },
            Err(e) => Err(e),
        }
    }

    /// Set the vendor of the device.
    pub fn set_vendor_id(&mut self, vendor_id: Option<VendorId>)
        ensures
            *final(self) == (AsyncDevice { vendor_id, ..*old(self) }),
    {
        self.vendor_id = vendor_id;
    }

    /// Send a message. Tells its number.
    pub fn tx_message(&mut self, message: &Message, destination: LogicalAddress) -> (r: Result<
        u32,
        Error,
    >)
        requires
            old(self).sequence < u32::MAX,
        ensures
            match old(self).tx_refusal() {
                Some(e) => outcome(r) == Err::<u32, ErrorView>(e) && *final(self) == *old(self),
                None => {
                    &&& outcome(r) == Ok::<u32, ErrorView>(old(self).sequence)
                    &&& final(self).tx_queue@ == old(self).tx_queue@.push((*message, destination))
                    &&& *final(self) == (AsyncDevice {
                        tx_queue: final(self).tx_queue,
                        sequence: (old(self).sequence + 1) as u32,
                        ..*old(self)
                    })
                },
            },
    {
        if self.log_addrs.len() == 0 {
            return Err(Error::NoLogicalAddress);
        }
        let mut registered = false;
        let mut i: usize = 0;
        while i < self.log_addrs.len()
            invariant
                i <= self.log_addrs@.len(),
                *self == *old(self),
                registered == !(forall|k: int|
                    0 <= k < i ==> #[trigger] self.log_addrs@[k] == LogicalAddress::Unregistered),
            decreases self.log_addrs@.len() - i,
        {
            if self.log_addrs[i] != LogicalAddress::Unregistered {
                registered = true;
            }
            i += 1;
        }
        if !registered || self.initiator == InitiatorMode::Disabled {
            return Err(Error::InvalidData);
        }
        self.tx_queue.push((*message, destination));
        let sequence: u32 = self.sequence;
        self.sequence = sequence + 1;
        Ok(sequence)
    }

    /// Read the oldest message that was received.
    pub fn rx_message(&mut self) -> (r: Result<Envelope, Error>)
        ensures
            if old(self).log_addrs@.len() == 0 {
                &&& outcome(r) == Err::<Envelope, ErrorView>(ErrorView::NoLogicalAddress)
                &&& *final(self) == *old(self)
            } else if old(self).follower == FollowerMode::Disabled {
                &&& outcome(r) == Err::<Envelope, ErrorView>(ErrorView::InvalidData)
                &&& *final(self) == *old(self)
            } else if old(self).rx_queue@.len() == 0 {
                &&& outcome(r) == Err::<Envelope, ErrorView>(ErrorView::Timeout)
                &&& *final(self) == *old(self)
            } else {
                &&& outcome(r) == Ok::<Envelope, ErrorView>(old(self).rx_queue@[0])
                &&& final(self).rx_queue@ == old(self).rx_queue@.skip(1)
                &&& *final(self) == (AsyncDevice { rx_queue: final(self).rx_queue, ..*old(self) })
            },
    {
        if self.log_addrs.len() == 0 {
            return Err(Error::NoLogicalAddress);
        }
        if self.follower == FollowerMode::Disabled {
            return Err(Error::InvalidData);
        }
        if self.rx_queue.len() == 0 {
            return Err(Error::Timeout);
        }
        let first = self.rx_queue.remove(0);
        assert(self.rx_queue@ =~= old(self).rx_queue@.skip(1));
        Ok(first)
    }

    /// Settle whether the next device whose presence is asked for is there.
    pub fn queue_poll_result(&mut self, there: bool)
        ensures
            final(self).poll_results@ == old(self).poll_results@.push(there),
            *final(self) == (AsyncDevice { poll_results: final(self).poll_results, ..*old(self) }),
    {
        self.poll_results.push(there);
    }

    /// Ask whether a device is there. All are, unless it was settled otherwise.
    pub fn poll_address(&mut self) -> (r: Result<(), Error>)
        ensures
            if old(self).poll_results@.len() > 0 {
                &&& outcome(r) == (if old(self).poll_results@[0] {
                    Ok::<(), ErrorView>(())
                } else {
                    Err(ErrorView::TxError(TxError::Nack))
                })
                &&& final(self).poll_results@ == old(self).poll_results@.skip(1)
                &&& *final(self) == (AsyncDevice {
                    poll_results: final(self).poll_results,
                    ..*old(self)
                })
            } else {
                r is Ok && *final(self) == *old(self)
            },
    {
        if self.poll_results.len() > 0 {
            let there = self.poll_results.remove(0);
            assert(self.poll_results@ =~= old(self).poll_results@.skip(1));
            if there {
                Ok(())
            } else {
                Err(Error::TxError(TxError::Nack))
            }
        } else {
            Ok(())
        }
    }

    /// What there is by a status: a change of state, the oldest message that was received, or both.
    pub fn handle_status(&mut self, status: PollStatus) -> (r: Vec<PollResult>)
        ensures
            ({
                let event = status == PollStatus::GotEvent || status == PollStatus::GotAll;
                let message = (status == PollStatus::GotMessage || status == PollStatus::GotAll)
                    && old(self).rx_queue@.len() > 0;
                &&& r@ == (if event {
                    seq![PollResult::StateChange]
                } else {
                    Seq::empty()
                }) + (if message {
                    seq![PollResult::Message(old(self).rx_queue@[0])]
                } else {
                    Seq::empty()
                })
                &&& final(self).rx_queue@ == (if message {
                    old(self).rx_queue@.skip(1)
                } else {
                    old(self).rx_queue@
                })
                &&& *final(self) == (AsyncDevice { rx_queue: final(self).rx_queue, ..*old(self) })
            }),
    {
        let mut results: Vec<PollResult> = Vec::new();
        if status.got_event() {
            results.push(PollResult::StateChange);
        }
        if status.got_message() && self.rx_queue.len() > 0 {
            let first = self.rx_queue.remove(0);
            assert(self.rx_queue@ =~= old(self).rx_queue@.skip(1));
            results.push(PollResult::Message(first));
        }
        results
    }

    /// The device does not know its connector.
    pub fn get_connector_info(&self) -> (r: ConnectorInfo)
        ensures
            r == ConnectorInfo::NoConnector,
    {
        ConnectorInfo::NoConnector
    }

    /// Send a device to standby.
    pub fn standby(&mut self, target: LogicalAddress) -> (r: Result<(), Error>)
        requires
            old(self).sequence < u32::MAX,
        ensures
            old(self).sent(*final(self), r, Message::Standby, target),
    {
        match self.tx_message(&Message::Standby, target) {
            Ok(_) => Ok(()),
            Err(e) => Err(e),
        }
    }

    /// Tell a device that a button is pressed.
    pub fn press_user_control(&mut self, ui_command: UiCommand, target: LogicalAddress) -> (r:
        Result<(), Error>)
        requires
            old(self).sequence < u32::MAX,
        ensures
            old(self).sent(*final(self), r, Message::UserControlPressed { ui_command }, target),
    {
        match self.tx_message(&Message::UserControlPressed { ui_command }, target) {
            Ok(_) => Ok(()),
            Err(e) => Err(e),
        }
    }

    /// Tell a device that a button is released.
    pub fn release_user_control(&mut self, target: LogicalAddress) -> (r: Result<(), Error>)
        requires
            old(self).sequence < u32::MAX,
        ensures
            old(self).sent(*final(self), r, Message::UserControlReleased, target),
    {
        match self.tx_message(&Message::UserControlReleased, target) {
            Ok(_) => Ok(()),
            Err(e) => Err(e),
        }
    }

    /// Whether a message was sent from one state to another, or refused.
    pub open spec fn sent(
        self,
        now: AsyncDevice,
        r: Result<(), Error>,
        message: Message,
        destination: LogicalAddress,
    ) -> bool {
        match self.tx_refusal() {
            Some(e) => outcome(r) == Err::<(), ErrorView>(e) && now == self,
            None => {
                &&& r is Ok
                &&& now.tx_queue@ == self.tx_queue@.push((message, destination))
                &&& now == (AsyncDevice {
                    tx_queue: now.tx_queue,
                    sequence: (self.sequence + 1) as u32,
                    ..self
                })
            },
        }
    }
}

/// A device that is alone on the bus gets the first address of its kind.
pub proof fn kinds_of_devices_have_first_addresses()
    ensures
        first_address(LogicalAddressType::Tv).code() == 0,
        first_address(LogicalAddressType::Record).code() == 1,
        first_address(LogicalAddressType::Tuner).code() == 3,
        first_address(LogicalAddressType::Playback).code() == 4,
        first_address(LogicalAddressType::AudioSystem).code() == 5,
        first_address(LogicalAddressType::Specific).code() == 14,
        first_address(LogicalAddressType::Unregistered).code() == 15,
{
}

/// A device sends if it may and one of its addresses is not that of devices without one. A device
/// without addresses says so.
pub proof fn devices_send_with_an_address(device: AsyncDevice)
    ensures
        device.tx_refusal() is None <==> device.initiator != InitiatorMode::Disabled && exists|i: int|
            0 <= i < device.log_addrs@.len() && (#[trigger] device.log_addrs@[i]).code() != 15,
        device.log_addrs@.len() == 0 <==> device.tx_refusal() == Some(ErrorView::NoLogicalAddress),
        device.log_addrs@.len() > 0 && device.tx_refusal() is Some ==> device.tx_refusal() == Some(
            ErrorView::InvalidData,
        ),
{
    assert forall|i: int| 0 <= i < device.log_addrs@.len() implies ((
    #[trigger] device.log_addrs@[i]).code() == 15 <==> device.log_addrs@[i]
        == LogicalAddress::Unregistered) by {
        LogicalAddress::one_to_one();
    }
}

} // verus!
