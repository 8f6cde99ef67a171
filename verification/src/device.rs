//! Hardware devices: what is sent to the kernel, and what is made of what it hands back.

use tinyvec::ArrayVec;
use vstd::prelude::*;
use vstd::string::StringSliceAdditionalSpecFns;

use crate::address::{
    CEC_VENDOR_ID_NONE, LogicalAddress, LogicalAddressType, PhysicalAddress, Timeout, VendorId,
};
use crate::bytes14::{list_bytes, list_from_array, list_slice};
use crate::codec::{Coded, OperandEncodable};
use crate::error::{bad_length, outcome, Error, ErrorView, Range, RangeView, RxError, TxError};
use crate::message::{Message, Opcode};
use crate::operand::{BufferOperand, UiCommand};

verus! {

/// The most bytes in a message, with its header.
pub const CEC_MAX_MSG_SIZE: u32 = 16;

/// The most logical addresses of a device.
pub const CEC_MAX_LOG_ADDRS: usize = 4;

pub const CEC_RX_STATUS_OK: u8 = 0x01;

pub const CEC_RX_STATUS_TIMEOUT: u8 = 0x02;

pub const CEC_RX_STATUS_FEATURE_ABORT: u8 = 0x04;

pub const CEC_RX_STATUS_ABORTED: u8 = 0x08;

pub const CEC_TX_STATUS_OK: u8 = 0x01;

pub const CEC_TX_STATUS_ARB_LOST: u8 = 0x02;

pub const CEC_TX_STATUS_NACK: u8 = 0x04;

pub const CEC_TX_STATUS_LOW_DRIVE: u8 = 0x08;

pub const CEC_TX_STATUS_ERROR: u8 = 0x10;

pub const CEC_TX_STATUS_MAX_RETRIES: u8 = 0x20;

pub const CEC_TX_STATUS_ABORTED: u8 = 0x40;

pub const CEC_TX_STATUS_TIMEOUT: u8 = 0x80;

pub const CEC_EVENT_STATE_CHANGE: u32 = 1;

pub const CEC_EVENT_LOST_MSGS: u32 = 2;

pub const CEC_EVENT_PIN_CEC_LOW: u32 = 3;

pub const CEC_EVENT_PIN_CEC_HIGH: u32 = 4;

pub const CEC_EVENT_PIN_HPD_LOW: u32 = 5;

pub const CEC_EVENT_PIN_HPD_HIGH: u32 = 6;

pub const CEC_EVENT_PIN_5V_LOW: u32 = 7;

pub const CEC_EVENT_PIN_5V_HIGH: u32 = 8;

pub const CEC_CONNECTOR_TYPE_NO_CONNECTOR: u32 = 0;

pub const CEC_CONNECTOR_TYPE_DRM: u32 = 1;

pub const POLLIN: i16 = 0x01;

pub const POLLPRI: i16 = 0x02;

pub const POLLHUP: i16 = 0x10;

/// A message as the kernel takes it and hands it out.
#[derive(Debug, Copy, Clone, PartialEq, Eq, Hash)]
pub struct CecMsg {
    pub tx_ts: u64,
    pub rx_ts: u64,
    pub len: u32,
    pub timeout: u32,
    pub sequence: u32,
    pub flags: u32,
    pub msg: [u8; 16],
    pub reply: u8,
    pub rx_status: u8,
    pub tx_status: u8,
    pub tx_arb_lost_cnt: u8,
    pub tx_nack_cnt: u8,
    pub tx_low_drive_cnt: u8,
    pub tx_error_cnt: u8,
}

impl CecMsg {
    /// Whether nothing but the header, the length, the wait and the awaited reply is set.
    pub open spec fn is_fresh(self) -> bool {
        &&& self.tx_ts == 0 && self.rx_ts == 0 && self.sequence == 0 && self.flags == 0
        &&& self.rx_status == 0 && self.tx_status == 0 && self.tx_arb_lost_cnt == 0
        &&& self.tx_nack_cnt == 0 && self.tx_low_drive_cnt == 0 && self.tx_error_cnt == 0
    }

    /// A message of a header alone.
    pub fn new(initiator: u8, destination: u8) -> (r: CecMsg)
        requires
            initiator < 16,
            destination < 16,
        ensures
            r.is_fresh(),
            r.len == 1,
            r.timeout == 0,
            r.reply == 0,
            r.msg@ == seq![(initiator * 16 + destination) as u8] + Seq::new(15, |i: int| 0u8),
    {
        let mut r = CecMsg::from_timeout(0);
        r.len = 1;
        r.msg[0] = initiator * 16 + destination;
        assert(r.msg@ =~= seq![(initiator * 16 + destination) as u8] + Seq::new(15, |i: int| 0u8));
        r
    }

    /// An empty message to be filled within a time.
    pub fn from_timeout(timeout: u32) -> (r: CecMsg)
        ensures
            r.is_fresh(),
            r.len == 0,
            r.timeout == timeout,
            r.reply == 0,
            r.msg@ == Seq::new(16, |i: int| 0u8),
    {
        let r = CecMsg {
            tx_ts: 0,
            rx_ts: 0,
            len: 0,
            timeout,
            sequence: 0,
            flags: 0,
            msg: [0u8; 16],
            reply: 0,
            rx_status: 0,
            tx_status: 0,
            tx_arb_lost_cnt: 0,
            tx_nack_cnt: 0,
            tx_low_drive_cnt: 0,
            tx_error_cnt: 0,
        };
        assert(r.msg@ =~= Seq::new(16, |i: int| 0u8));
        r
    }

    /// What is sent after the header.
    pub open spec fn body(self) -> Seq<u8> {
        self.msg@.subrange(1, self.len as int)
    }

    /// Whether the length is one that a message with an opcode has.
    pub open spec fn length_ok(self) -> bool {
        2 <= self.len <= CEC_MAX_MSG_SIZE
    }
}

/// How a transmission failed, by the flags that the kernel set. Exhausted retries come with the
/// reason of the last failure, which is the one that is reported.
pub open spec fn tx_failure(status: u8) -> TxError {
    if status & CEC_TX_STATUS_ARB_LOST != 0 {
        TxError::ArbLost
    } else if status & CEC_TX_STATUS_NACK != 0 {
        TxError::Nack
    } else if status & CEC_TX_STATUS_LOW_DRIVE != 0 {
        TxError::LowDrive
    } else if status & CEC_TX_STATUS_ERROR != 0 {
        TxError::UnknownError
    } else if status & CEC_TX_STATUS_ABORTED != 0 {
        TxError::Aborted
    } else if status & CEC_TX_STATUS_TIMEOUT != 0 {
        TxError::Timeout
    } else if status & CEC_TX_STATUS_MAX_RETRIES != 0 {
        TxError::MaxRetries
    } else {
        TxError::UnknownError
    }
}

/// How a transmission failed, by the flags that the kernel set.
pub fn tx_error(status: u8) -> (r: TxError)
    ensures
        r == tx_failure(status),
{
    if status & CEC_TX_STATUS_ARB_LOST != 0 {
        TxError::ArbLost
    } else if status & CEC_TX_STATUS_NACK != 0 {
        TxError::Nack
    } else if status & CEC_TX_STATUS_LOW_DRIVE != 0 {
        TxError::LowDrive
    } else if status & CEC_TX_STATUS_ERROR != 0 {
        TxError::UnknownError
    } else if status & CEC_TX_STATUS_ABORTED != 0 {
        TxError::Aborted
    } else if status & CEC_TX_STATUS_TIMEOUT != 0 {
        TxError::Timeout
    } else if status & CEC_TX_STATUS_MAX_RETRIES != 0 {
        TxError::MaxRetries
    } else {
        TxError::UnknownError
    }
}

/// An enum containing the message data, either successfully parsed or invalid.
#[derive(Debug, Copy, Clone, PartialEq, Hash)]
pub enum MessageData {
    /// Valid, parsed data
    Valid(Message),
    /// Invalid, unparsed data
    Invalid(ArrayVec<[u8; 14]>),
}

impl MessageData {
    /// The bytes of the data.
    pub open spec fn bytes(self) -> Seq<u8> {
        match self {
            MessageData::Valid(message) => message.encoded(),
            MessageData::Invalid(bytes) => list_bytes(bytes),
        }
    }

    /// The first byte of the data.
    #[must_use]
    pub fn opcode(&self) -> (r: u8)
        requires
            self.bytes().len() > 0,
        ensures
            r == self.bytes()[0],
            self matches MessageData::Valid(message) ==> r == message.kind().code(),
    {
        match self {
            MessageData::Valid(message) => message.opcode().to_primitive(),
            MessageData::Invalid(bytes) => list_slice(bytes)[0],
        }
    }

    /// The bytes of the data.
    #[must_use]
    pub fn to_bytes(&self) -> (r: Vec<u8>)
        ensures
            r@ == self.bytes(),
    {
        match self {
            MessageData::Valid(message) => message.to_bytes(),
            MessageData::Invalid(bytes) => {
                let r = vstd::slice::slice_to_vec(list_slice(bytes));
                r
            },
        }
    }
}

/// A representation of a received [`Message`] and its associated metadata.
#[derive(Debug, Clone, Hash)]
pub struct Envelope {
    /// The received message data.
    pub message: MessageData,
    /// The logical address of the CEC device that sent the message.
    pub initiator: LogicalAddress,
    /// The logical address to which this message was sent. Unless the device is a monitor, this is
    /// the logical address of the device itself or [`LogicalAddress::Broadcast`].
    pub destination: LogicalAddress,
    /// The time at which this message was received. This may be different
    /// from the time at which the message was read out of the kernel.
    pub timestamp: u64,
    /// A system-tracked sequence number.
    pub sequence: u32,
}

/// Why a message of the kernel holds nothing to read, if so.
pub open spec fn envelope_error(raw: CecMsg) -> Option<ErrorView> {
    if raw.rx_status & CEC_RX_STATUS_TIMEOUT != 0 {
        Some(ErrorView::Timeout)
    } else if raw.rx_status & CEC_RX_STATUS_ABORTED != 0 {
        Some(ErrorView::Abort)
    } else if raw.rx_status & CEC_RX_STATUS_FEATURE_ABORT != 0 {
        Some(ErrorView::RxError(RxError::FeatureAbort))
    } else if !raw.length_ok() {
        Some(ErrorView::InvalidData)
    } else {
        None
    }
}

impl Envelope {
    /// Whether the envelope is what a message of the kernel holds: the parsed message, or the first
    /// fourteen of its bytes where they are no message.
    pub open spec fn holds(self, raw: CecMsg) -> bool {
        &&& self.initiator.code() == raw.msg[0] / 16
        &&& self.destination.code() == raw.msg[0] % 16
        &&& self.timestamp == raw.rx_ts
        &&& self.sequence == raw.sequence
        &&& match Message::decoded(raw.body()) {
            Ok(message) => self.message == MessageData::Valid(message),
            Err(_) => self.message matches MessageData::Invalid(list) && list_bytes(list)
                == raw.body().take(if raw.body().len() <= 14 { raw.body().len() as int } else { 14 }),
        }
    }

    /// Read a message of the kernel.
    pub fn try_from(message: CecMsg) -> (r: Result<Envelope, Error>)
        ensures
            match envelope_error(message) {
                Some(e) => r matches Err(err) && err@ == e,
                None => r matches Ok(envelope) && envelope.holds(message)
                    && envelope.message.bytes().len() > 0,
            },
    {
        if message.rx_status & CEC_RX_STATUS_TIMEOUT != 0 {
            return Err(Error::Timeout);
        }
        if message.rx_status & CEC_RX_STATUS_ABORTED != 0 {
            return Err(Error::Abort);
        }
        if message.rx_status & CEC_RX_STATUS_FEATURE_ABORT != 0 {
            return Err(Error::RxError(RxError::FeatureAbort));
        }
        if message.len < 2 || message.len > CEC_MAX_MSG_SIZE {
            return Err(Error::InvalidData);
        }
        let len: usize = message.len as usize;
        let bytes = vstd::slice::slice_subrange(message.msg.as_slice(), 1, len);
        assert(bytes@ =~= message.body());
        let initiator: LogicalAddress = nibble_address(message.msg[0] / 16);
        let destination: LogicalAddress = nibble_address(message.msg[0] % 16);
        let timestamp: u64 = message.rx_ts;
        let sequence: u32 = message.sequence;
        let data = match Message::try_from_bytes(bytes) {
            Ok(message) => MessageData::Valid(message),
            Err(_) => {
                let invalid_len: usize = if bytes.len() <= 14 {
                    bytes.len()
                } else {
                    14
                };
                let first = first_fourteen(&message.msg);
                assert(first@.take(invalid_len as int) =~= message.body().take(invalid_len as int));
                MessageData::Invalid(list_from_array(first, invalid_len))
            },
        };
        Ok(Envelope { message: data, initiator, destination, timestamp, sequence })
    }
}

fn nibble_address(n: u8) -> (r: LogicalAddress)
    requires
        n < 16,
    ensures
        r.code() == n,
{
    match LogicalAddress::from_primitive(n) {
        Some(address) => address,
        None => LogicalAddress::Unregistered,
    }
}

fn first_fourteen(msg: &[u8; 16]) -> (r: [u8; 14])
    ensures
        r@ == msg@.subrange(1, 15),
{
    let mut r: [u8; 14] = [0u8; 14];
    let mut i: usize = 0;
    while i < 14
        invariant
            i <= 14,
            forall|k: int| 0 <= k < i ==> r@[k] == msg@[k + 1],
        decreases 14 - i,
    {
        r[i] = msg[i + 1];
        i += 1;
    }
    assert(r@ =~= msg@.subrange(1, 15));
    r
}

/// A physical pin that can be monitored via [`PinEvent`]s.
#[derive(Debug, Copy, Clone, PartialEq, Eq, Hash, Structural)]
pub enum Pin {
    /// The CEC data pin (13)
    Cec,
    /// The hot plug detect (HPD) pin (19)
    HotPlugDetect,
    /// The +5 V power pin (18)
    Power5V,
}

/// The logic level of a physical pin as reported in a [`PinEvent`].
#[derive(Debug, Copy, Clone, PartialEq, Eq, Hash, Structural)]
pub enum PinState {
    Low,
    High,
}

/// An event representing a logic level change of a physical pin.
#[derive(Debug, Copy, Clone, PartialEq, Eq, Hash, Structural)]
pub struct PinEvent {
    /// Which physical pin generated the event.
    pub pin: Pin,
    /// The logic level of the pin.
    pub state: PinState,
}

/// Which information is available from the kernel.
#[derive(Debug, Copy, Clone, PartialEq, Eq, Hash, Structural)]
pub enum PollStatus {
    Nothing,
    Destroyed,
    GotEvent,
    GotMessage,
    GotAll,
}

impl PollStatus {
    /// Whether there is a message to receive.
    #[must_use]
    pub fn got_message(&self) -> (r: bool)
        ensures
            r == (*self == PollStatus::GotMessage || *self == PollStatus::GotAll),
    {
        matches!(self, PollStatus::GotMessage | PollStatus::GotAll)
    }

    /// Whether there is an event to dequeue.
    #[must_use]
    pub fn got_event(&self) -> (r: bool)
        ensures
            r == (*self == PollStatus::GotEvent || *self == PollStatus::GotAll),
    {
        matches!(self, PollStatus::GotEvent | PollStatus::GotAll)
    }
}

/// What a single message or event from the kernel says.
#[derive(Debug, Clone, Hash)]
pub enum PollResult {
    /// The device received a [`Message`].
    Message(Envelope),
    /// A monitored pin changed state.
    PinEvent(PinEvent),
    /// The message queue was full and a number of messages were
    /// received and lost. To avoid this, make sure to poll as
    /// frequently as possible.
    LostMessages(u32),
    /// The device state changed. Usually this means the device was configured, unconfigured,
    /// or the physical address changed. If the caller has cached any properties like logical
    /// address or physical address, these values should be refreshed.
    StateChange,
}

/// Information about how the CEC device is connected to the system.
#[derive(Debug, Clone, PartialEq, Hash)]
pub enum ConnectorInfo {
    NoConnector,
    /// Tells which drm connector is associated with the CEC adapter.
    DrmConnector {
        /// drm card number
        card_no: u32,
        /// drm connector ID
        connector_id: u32,
    },
    Unknown { ty: u32, data: [u32; 16] },
}

impl ConnectorInfo {
    /// The connector that the kernel describes by a type and sixteen words.
    pub open spec fn described(ty: u32, data: [u32; 16]) -> ConnectorInfo {
        if ty == CEC_CONNECTOR_TYPE_NO_CONNECTOR {
            ConnectorInfo::NoConnector
        } else if ty == CEC_CONNECTOR_TYPE_DRM {
            ConnectorInfo::DrmConnector { card_no: data[0], connector_id: data[1] }
        } else {
            ConnectorInfo::Unknown { ty, data }
        }
    }

    /// The connector that the kernel describes by a type and sixteen words. A DRM connector is
    /// described by the first two.
    pub fn from_raw(ty: u32, data: [u32; 16]) -> (r: ConnectorInfo)
        ensures
            r == Self::described(ty, data),
    {
        if ty == CEC_CONNECTOR_TYPE_NO_CONNECTOR {
            ConnectorInfo::NoConnector
        } else if ty == CEC_CONNECTOR_TYPE_DRM {
            ConnectorInfo::DrmConnector { card_no: data[0], connector_id: data[1] }
        } else {
            ConnectorInfo::Unknown { ty, data }
        }
    }
}

/// Polls the kernel queues of a device.
pub struct DevicePoller {}

impl DevicePoller {
    /// What a poll found, by the number of files that are ready and the events on this one.
    pub open spec fn found(ready: usize, revents: Option<i16>) -> Result<PollStatus, ErrorView> {
        if ready == 0 {
            Err(ErrorView::Timeout)
        } else {
            match revents {
                None => Ok(PollStatus::Nothing),
                Some(flags) => if flags & POLLHUP == POLLHUP {
                    Ok(PollStatus::Destroyed)
                } else if flags & POLLIN == POLLIN && flags & POLLPRI == POLLPRI {
                    Ok(PollStatus::GotAll)
                } else if flags & POLLIN == POLLIN {
                    Ok(PollStatus::GotMessage)
                } else if flags & POLLPRI == POLLPRI {
                    Ok(PollStatus::GotEvent)
                } else {
                    Err(ErrorView::UnknownError("Polling error encountered"@))
                },
            }
        }
    }

    /// What a poll found, by the number of files that are ready and the events on this one.
    pub fn status(ready: usize, revents: Option<i16>) -> (r: Result<PollStatus, Error>)
        ensures
            outcome(r) == Self::found(ready, revents),
    {
        if ready == 0 {
            return Err(Error::Timeout);
        }
        match revents {
            None => Ok(PollStatus::Nothing),
            Some(flags) => {
                if flags & POLLHUP == POLLHUP {
                    Ok(PollStatus::Destroyed)
                } else if flags & POLLIN == POLLIN && flags & POLLPRI == POLLPRI {
                    Ok(PollStatus::GotAll)
                } else if flags & POLLIN == POLLIN {
                    Ok(PollStatus::GotMessage)
                } else if flags & POLLPRI == POLLPRI {
                    Ok(PollStatus::GotEvent)
                } else {
                    Err(Error::UnknownError("Polling error encountered".to_owned()))
                }
            },
        }
    }
}

/// The logical addresses of a device, as the kernel takes them and hands them out.
#[derive(Debug, Copy, Clone, PartialEq, Eq, Hash)]
pub struct LogAddrs {
    pub log_addr: [u8; 4],
    pub num_log_addrs: u8,
    pub vendor_id: u32,
    pub osd_name: [u8; 15],
    pub primary_device_type: [u8; 4],
    pub log_addr_type: [u8; 4],
}

impl LogAddrs {
    /// The address by which the device sends: the first one, if there is one that makes sense.
    pub open spec fn first(self) -> LogicalAddress {
        if self.num_log_addrs > 0 {
            match LogicalAddress::with_code(self.log_addr[0]) {
                Some(address) => address,
                None => LogicalAddress::Unregistered,
            }
        } else {
            LogicalAddress::Unregistered
        }
    }

    fn first_address(&self) -> (r: LogicalAddress)
        ensures
            r == self.first(),
    {
        if self.num_log_addrs > 0 {
            match LogicalAddress::from_primitive(self.log_addr[0]) {
                Some(address) => address,
                None => LogicalAddress::Unregistered,
            }
        } else {
            LogicalAddress::Unregistered
        }
    }
}

/// The number for the primary device type that goes with a type of logical address; 255 where there
/// is none.
pub open spec fn device_type_code(ty: LogicalAddressType) -> u8 {
    match ty.device_type() {
        Some(device_type) => device_type.code(),
        None => 0xff,
    }
}

/// Whether the kernel sent a frame, and else why not.
pub open spec fn sending_result(frame: CecMsg) -> Result<(), ErrorView> {
    if frame.tx_status & CEC_TX_STATUS_OK != 0 {
        Ok(())
    } else {
        Err(ErrorView::TxError(tx_failure(frame.tx_status)))
    }
}

/// Why there is no reply to a frame, if there is none.
pub open spec fn reply_error(frame: CecMsg) -> Option<ErrorView> {
    match sending_result(frame) {
        Ok(()) => envelope_error(frame),
        Err(e) => Some(e),
    }
}

/// The message that tells the television to switch to an address, and who it is for.
pub open spec fn showing(address: PhysicalAddress) -> (Message, LogicalAddress) {
    (Message::ActiveSource { address }, LogicalAddress::Unregistered)
}

/// The messages that wake the television and, if an address is given, tell it to switch to that, and
/// who they are for. With `text_view`, it is to dismiss any menu as well.
pub open spec fn waking(active: Option<PhysicalAddress>, text_view: bool) -> Seq<
    (Message, LogicalAddress),
> {
    let first = if text_view { Message::TextViewOn } else { Message::ImageViewOn };
    match active {
        Some(address) => seq![(first, LogicalAddress::Tv), showing(address)],
        None => seq![(first, LogicalAddress::Tv)],
    }
}

/// The message that sends a device to standby, and who it is for.
pub open spec fn sleeping(target: LogicalAddress) -> (Message, LogicalAddress) {
    (Message::Standby, target)
}

/// The message for a button that is pressed, and who it is for.
pub open spec fn pressing(ui_command: UiCommand, target: LogicalAddress) -> (
    Message,
    LogicalAddress,
) {
    (Message::UserControlPressed { ui_command }, target)
}

/// The message for a button that is released, and who it is for.
pub open spec fn releasing(target: LogicalAddress) -> (Message, LogicalAddress) {
    (Message::UserControlReleased, target)
}

/// The state of a CEC device that this side keeps.
#[derive(Debug, Copy, Clone, PartialEq, Eq)]
pub struct Device {
    pub tx_logical_address: LogicalAddress,
    pub internal_log_addrs: LogAddrs,
}

impl Device {
    /// Whether a frame carries a message from this device to the one that it is for, without a reply
    /// that is waited for.
    pub open spec fn carries(self, frame: CecMsg, sent: (Message, LogicalAddress)) -> bool {
        is_frame(
            frame,
            self.tx_logical_address,
            sent.1,
            sent.0.encoded(),
            Opcode::FeatureAbort,
            0,
        )
    }

    /// The device once it asks for no logical address.
    pub open spec fn cleared(self) -> Device {
        Device {
            tx_logical_address: LogicalAddress::Unregistered,
            internal_log_addrs: LogAddrs { num_log_addrs: 0, ..self.internal_log_addrs },
        }
    }

    /// The device once the kernel has answered a request for some logical addresses.
    pub open spec fn answered(self, answer: LogAddrs, count: usize) -> Device {
        Device {
            tx_logical_address: if count > 0 {
                match LogicalAddress::with_code(answer.log_addr[0]) {
                    Some(address) => address,
                    None => LogicalAddress::Unregistered,
                }
            } else {
                self.tx_logical_address
            },
            internal_log_addrs: answer,
        }
    }

    /// The device once it has a vendor, or none.
    pub open spec fn branded(self, vendor_id: Option<VendorId>) -> Device {
        Device {
            tx_logical_address: self.tx_logical_address,
            internal_log_addrs: LogAddrs {
                vendor_id: match vendor_id {
                    Some(v) => v.number() as u32,
                    None => CEC_VENDOR_ID_NONE,
                },
                ..self.internal_log_addrs
            },
        }
    }

    /// The device whose logical addresses the kernel has handed out.
    pub fn new(log_addrs: LogAddrs) -> (r: Device)
        ensures
            r.internal_log_addrs == log_addrs,
            r.tx_logical_address == log_addrs.first(),
    {
        Device { tx_logical_address: log_addrs.first_address(), internal_log_addrs: log_addrs }
    }

    /// The logical addresses of the device. The first number that is no logical address is reported.
    pub fn get_logical_addresses(&self) -> (r: Result<Vec<LogicalAddress>, Error>)
        requires
            self.internal_log_addrs.num_log_addrs <= CEC_MAX_LOG_ADDRS,
        ensures
            match r {
                Ok(addresses) => {
                    &&& addresses@.len() == self.internal_log_addrs.num_log_addrs
                    &&& forall|i: int|
                        0 <= i < addresses@.len() ==> (#[trigger] addresses@[i]).code()
                            == self.internal_log_addrs.log_addr[i]
                },
                Err(e) => exists|i: int|
                    {
                        &&& 0 <= i < self.internal_log_addrs.num_log_addrs
                        &&& crate::codec::decoded_code::<LogicalAddress>(
                            #[trigger] self.internal_log_addrs.log_addr[i],
                        ) == Err::<LogicalAddress, ErrorView>(e@)
                        &&& forall|k: int|
                            0 <= k < i ==> LogicalAddress::with_code(
                                self.internal_log_addrs.log_addr[k],
                            ) is Some
                    },
            },
    {
        let mut addresses: Vec<LogicalAddress> = Vec::new();
        let n: usize = self.internal_log_addrs.num_log_addrs as usize;
        let mut i: usize = 0;
        proof {
            LogicalAddress::one_to_one();
        }
        while i < n
            invariant
                n == self.internal_log_addrs.num_log_addrs,
                n <= CEC_MAX_LOG_ADDRS,
                i <= n,
                addresses@.len() == i,
                forall|c: u8| (#[trigger] LogicalAddress::with_code(c)) matches Some(v) ==> v.code()
                    == c,
                forall|k: int|
                    0 <= k < i ==> (#[trigger] addresses@[k]).code()
                        == self.internal_log_addrs.log_addr[k] && LogicalAddress::with_code(
                        self.internal_log_addrs.log_addr[k],
                    ) is Some,
            decreases n - i,
        {
            match LogicalAddress::try_from_primitive(self.internal_log_addrs.log_addr[i]) {
                Ok(address) => addresses.push(address),
                Err(e) => {
                    proof {
                        let a = self.internal_log_addrs.log_addr;
                        assert forall|k: int| 0 <= k < i implies LogicalAddress::with_code(
                            a[k],
                        ) is Some by {
                            assert(addresses@[k].code() == a[k]);
                        }
                        assert(crate::codec::decoded_code::<LogicalAddress>(a[i as int]) == Err::<
                            LogicalAddress,
                            ErrorView,
                        >(e@));
                    }
                    return Err(e);
                },
            }
            i += 1;
        }
        Ok(addresses)
    }

    /// Note the types of logical addresses to ask for. Tells whether the addresses that the device
    /// has are to be cleared first.
    pub fn prepare_logical_addresses(&mut self, log_addrs: &[LogicalAddressType]) -> (r: Result<
        bool,
        Error,
    >)
        ensures
            log_addrs@.len() > CEC_MAX_LOG_ADDRS ==> {
                &&& *final(self) == *old(self)
                &&& r matches Err(e) && e@ == (ErrorView::OutOfRange {
                    expected: RangeView::AtMost(CEC_MAX_LOG_ADDRS),
                    got: log_addrs@.len() as usize,
                    quantity: "logical addresses"@,
                })
            },
            log_addrs@.len() <= CEC_MAX_LOG_ADDRS ==> {
                let was = old(self).internal_log_addrs;
                let now = final(self).internal_log_addrs;
                &&& r matches Ok(clear) && clear == (log_addrs@.len() > 0 && was.num_log_addrs > 0)
                &&& final(self).tx_logical_address == old(self).tx_logical_address
                &&& now.log_addr == was.log_addr && now.num_log_addrs == was.num_log_addrs
                &&& now.vendor_id == was.vendor_id && now.osd_name == was.osd_name
                &&& forall|i: int|
                    #![trigger now.log_addr_type[i]]
                    #![trigger now.primary_device_type[i]]
                    0 <= i < 4 ==> if i < log_addrs@.len() {
                        now.log_addr_type[i] == log_addrs@[i].code() && now.primary_device_type[i]
                            == device_type_code(log_addrs@[i])
                    } else {
                        now.log_addr_type[i] == was.log_addr_type[i] && now.primary_device_type[i]
                            == was.primary_device_type[i]
                    }
            },
    {
        match Range::AtMost(CEC_MAX_LOG_ADDRS).check(log_addrs.len(), "logical addresses") {
            Err(e) => return Err(e),
            Ok(()) => {},
        }
        let ghost was = self.internal_log_addrs;
        let mut types: [u8; 4] = self.internal_log_addrs.log_addr_type;
        let mut devices: [u8; 4] = self.internal_log_addrs.primary_device_type;
        let mut i: usize = 0;
        while i < log_addrs.len()
            invariant
                i <= log_addrs@.len() <= 4,
                forall|k: int|
                    #![trigger types[k]]
                    #![trigger devices[k]]
                    0 <= k < 4 ==> if k < i {
                        types[k] == log_addrs@[k].code() && devices[k] == device_type_code(
                            log_addrs@[k],
                        )
                    } else {
                        types[k] == was.log_addr_type[k] && devices[k]
                            == was.primary_device_type[k]
                    },
            decreases log_addrs@.len() - i,
        {
            types[i] = log_addrs[i].to_primitive();
            devices[i] = match log_addrs[i].primary_device_type() {
                Some(device_type) => device_type.to_primitive(),
                None => 0xff,
            };
            i += 1;
        }
        self.internal_log_addrs.log_addr_type = types;
        self.internal_log_addrs.primary_device_type = devices;
        Ok(log_addrs.len() > 0 && self.internal_log_addrs.num_log_addrs > 0)
    }

    /// Ask for no logical address. The device has none from here on.
    pub fn clear_logical_addresses(&mut self)
        ensures
            *final(self) == old(self).cleared(),
    {
        self.internal_log_addrs.num_log_addrs = 0;
        self.tx_logical_address = LogicalAddress::Unregistered;
    }

    /// Ask for a number of logical addresses of the types noted before.
    pub fn request_logical_addresses(&mut self, count: usize)
        requires
            count <= CEC_MAX_LOG_ADDRS,
        ensures
            final(self).tx_logical_address == old(self).tx_logical_address,
            final(self).internal_log_addrs == (LogAddrs {
                num_log_addrs: count as u8,
                ..old(self).internal_log_addrs
            }),
    {
        self.internal_log_addrs.num_log_addrs = count as u8;
    }

    /// Take over what the kernel made of a request for some logical addresses. It is asked for the
    /// first of them whatever their number in its answer.
    pub fn accept_logical_addresses(&mut self, answer: LogAddrs, count: usize)
        ensures
            *final(self) == old(self).answered(answer, count),
    {
        self.internal_log_addrs = answer;
        if count > 0 {
            self.tx_logical_address = match LogicalAddress::from_primitive(answer.log_addr[0]) {
                Some(address) => address,
                None => LogicalAddress::Unregistered,
            };
        }
    }

    /// Take over the logical addresses after the kernel has said that its state changed.
    pub fn refresh(&mut self, log_addrs: LogAddrs)
        ensures
            final(self).internal_log_addrs == log_addrs,
            final(self).tx_logical_address == log_addrs.first(),
    {
        self.internal_log_addrs = log_addrs;
        self.tx_logical_address = log_addrs.first_address();
    }

    /// Set the advertised OSD name, of no more than 14 bytes. Returns the message that tells the
    /// television, to be sent where the device has a logical address.
    ///
    /// For the kernel to advertise the name on query, it has to be set before the logical addresses.
    pub fn set_osd_name(&mut self, name: &str) -> (r: Result<Option<CecMsg>, Error>)
        ensures
            final(self).tx_logical_address == old(self).tx_logical_address,
            name.spec_bytes().len() > 14 ==> {
                &&& final(self).internal_log_addrs == old(self).internal_log_addrs
                &&& r matches Err(e) && e@ == bad_length(
                    RangeView::AtMost(14),
                    name.spec_bytes().len(),
                )
            },
            name.spec_bytes().len() <= 14 ==> {
                let was = old(self).internal_log_addrs;
                let now = final(self).internal_log_addrs;
                &&& now == (LogAddrs { osd_name: now.osd_name, ..was })
                &&& now.osd_name@.take(14) == padded_name(name.spec_bytes())
                &&& now.osd_name[14] == was.osd_name[14]
                &&& r is Ok
                &&& r->Ok_0 is Some <==> old(self).tx_logical_address
                    != LogicalAddress::Unregistered
                &&& r->Ok_0 matches Some(msg) ==> is_frame(
                    msg,
                    old(self).tx_logical_address,
                    LogicalAddress::Tv,
                    seq![Opcode::SetOsdName.code()] + name.spec_bytes(),
                    Opcode::FeatureAbort,
                    0,
                )
            },
    {
        let buffer: BufferOperand = match BufferOperand::from_str(name) {
            Err(e) => return Err(e),
            Ok(buffer) => buffer,
        };
        let padded: [u8; 14] = buffer.padded();
        let mut osd_name: [u8; 15] = self.internal_log_addrs.osd_name;
        let ghost last = osd_name[14];
        let mut i: usize = 0;
        while i < 14
            invariant
                i <= 14,
                osd_name[14] == last,
                forall|k: int| 0 <= k < i ==> osd_name@[k] == padded@[k],
            decreases 14 - i,
        {
            osd_name[i] = padded[i];
            i += 1;
        }
        proof {
            let n = buffer@.len() as int;
            assert forall|k: int| 0 <= k < 14 implies osd_name@.take(14)[k] == padded_name(
                name.spec_bytes(),
            )[k] by {
                if k < n {
                    assert(padded@.take(n)[k] == padded@[k]);
                }
            }
            assert(osd_name@.take(14) =~= padded_name(name.spec_bytes()));
        }
        self.internal_log_addrs.osd_name = osd_name;
        if self.tx_logical_address != LogicalAddress::Unregistered {
            let message = Message::SetOsdName { name: buffer };
            proof {
                reveal(crate::codec::wire);
                joined_bytes(buffer@);
            }
            Ok(Some(self.tx_message(&message, LogicalAddress::Tv)))
        } else {
            Ok(None)
        }
    }

    /// The advertised OSD name, followed by zeros.
    pub fn get_osd_name(&self) -> (r: [u8; 15])
        ensures
            r == self.internal_log_addrs.osd_name,
    {
        self.internal_log_addrs.osd_name
    }

    /// The vendor of the device, if there is one.
    pub fn get_vendor_id(&self) -> (r: Result<Option<VendorId>, Error>)
        ensures
            self.internal_log_addrs.vendor_id == CEC_VENDOR_ID_NONE <==> r == Ok::<
                Option<VendorId>,
                Error,
            >(None),
            self.internal_log_addrs.vendor_id < 0x100_0000 ==> (r matches Ok(Some(v)) && v.number()
                == self.internal_log_addrs.vendor_id),
            0x100_0000 <= self.internal_log_addrs.vendor_id < CEC_VENDOR_ID_NONE ==> outcome(r)
                == Err::<Option<VendorId>, ErrorView>(ErrorView::InvalidData),
    {
        VendorId::try_from_sys(self.internal_log_addrs.vendor_id)
    }

    /// Set the advertised vendor of the device. It has to be set before the logical addresses.
    pub fn set_vendor_id(&mut self, vendor_id: Option<VendorId>)
        ensures
            *final(self) == old(self).branded(vendor_id),
    {
        self.internal_log_addrs.vendor_id = match vendor_id {
            Some(v) => v.to_sys(),
            None => CEC_VENDOR_ID_NONE,
        };
    }

    /// The frame that sends a message to a device, or to all of them, and waits for a reply of a
    /// kind. What does not fit behind the header is left out. The timeout cannot be 0 or more than 1
    /// second, otherwise it is coerced to 1 second.
    pub fn tx_rx_message(
        &self,
        message: &Message,
        destination: LogicalAddress,
        reply: Opcode,
        timeout: Timeout,
    ) -> (r: CecMsg)
        ensures
            is_frame(
                r,
                self.tx_logical_address,
                destination,
                message.encoded(),
                reply,
                reply_wait(reply, timeout.ms),
            ),
    {
        let bytes = message.to_bytes();
        let mut r = CecMsg::new(self.tx_logical_address.to_primitive(), destination.to_primitive());
        let len: usize = if bytes.len() <= 15 {
            bytes.len() + 1
        } else {
            16
        };
        let ghost header = r.msg@[0];
        let mut msg: [u8; 16] = r.msg;
        let mut i: usize = 1;
        while i < len
            invariant
                1 <= i <= len <= 16,
                len <= bytes@.len() + 1,
                msg@[0] == header,
                forall|k: int| 1 <= k < i ==> msg@[k] == bytes@[k - 1],
                forall|k: int| i <= k < 16 ==> msg@[k] == 0,
            decreases len - i,
        {
            msg[i] = bytes[i - 1];
            i += 1;
        }
        r.msg = msg;
        r.len = len as u32;
        r.reply = reply.to_primitive();
        let ms: u32 = timeout.as_ms();
        let forever = ms == 0 && reply != Opcode::FeatureAbort;
        r.timeout = if ms > Timeout::max().as_ms() || forever {
            Timeout::max().as_ms()
        } else {
            ms
        };
        assert(r.body() =~= sent(bytes@));
        r
    }

    /// The frame that sends a message without waiting for a reply.
    pub fn tx_message(&self, message: &Message, destination: LogicalAddress) -> (r: CecMsg)
        ensures
            is_frame(
                r,
                self.tx_logical_address,
                destination,
                message.encoded(),
                Opcode::FeatureAbort,
                0,
            ),
    {
        self.tx_rx_message(message, destination, Opcode::FeatureAbort, Timeout::none())
    }

    /// The frame that asks whether a device is there: a header alone.
    pub fn poll_address(&self, destination: LogicalAddress) -> (r: CecMsg)
        ensures
            r.is_fresh(),
            r.len == 1,
            r.timeout == 0,
            r.reply == 0,
            r.msg@ == seq![
                (self.tx_logical_address.code() * 16 + destination.code()) as u8,
            ] + Seq::new(15, |i: int| 0u8),
    {
        CecMsg::new(self.tx_logical_address.to_primitive(), destination.to_primitive())
    }

    /// Whether the kernel sent a frame, and else why not.
    pub fn check_sent(frame: &CecMsg) -> (r: Result<(), Error>)
        ensures
            outcome(r) == sending_result(*frame),
    {
        if frame.tx_status & CEC_TX_STATUS_OK != 0 {
            Ok(())
        } else {
            Err(Error::TxError(tx_error(frame.tx_status)))
        }
    }

    /// The reply that came with a frame, once the kernel has sent it.
    pub fn read_reply(frame: CecMsg) -> (r: Result<Envelope, Error>)
        ensures
            match reply_error(frame) {
                Some(e) => r matches Err(err) && err@ == e,
                None => r matches Ok(envelope) && envelope.holds(frame),
            },
    {
        match Device::check_sent(&frame) {
            Err(e) => Err(e),
            Ok(()) => Envelope::try_from(frame),
        }
    }

    /// The frame that tells the television to switch to an address.
    pub fn set_active_source(&self, address: PhysicalAddress) -> (r: CecMsg)
        ensures
            self.carries(r, showing(address)),
    {
        self.tx_message(&Message::ActiveSource { address }, LogicalAddress::Broadcast)
    }

    /// The frames that wake the television and, if an address is given, tell it to switch to that.
    /// With `text_view`, it is to dismiss any menu as well.
    pub fn wake(&self, active: Option<PhysicalAddress>, text_view: bool) -> (r: Vec<CecMsg>)
        ensures
            r@.len() == waking(active, text_view).len(),
            forall|i: int|
                0 <= i < r@.len() ==> self.carries(#[trigger] r@[i], waking(active, text_view)[i]),
    {
        let mut frames: Vec<CecMsg> = Vec::new();
        if text_view {
            frames.push(self.tx_message(&Message::TextViewOn, LogicalAddress::Tv));
        } else {
            frames.push(self.tx_message(&Message::ImageViewOn, LogicalAddress::Tv));
        }
        if let Some(address) = active {
            frames.push(self.set_active_source(address));
        }
        frames
    }

    /// The frame that sends a device to standby.
    pub fn standby(&self, target: LogicalAddress) -> (r: CecMsg)
        ensures
            self.carries(r, sleeping(target)),
    {
        self.tx_message(&Message::Standby, target)
    }

    /// The frame for a button that is pressed. It has to be followed by one for its release.
    pub fn press_user_control(&self, ui_command: UiCommand, target: LogicalAddress) -> (r: CecMsg)
        ensures
            self.carries(r, pressing(ui_command, target)),
    {
        self.tx_message(&Message::UserControlPressed { ui_command }, target)
    }

    /// The frame for a button that is released.
    pub fn release_user_control(&self, target: LogicalAddress) -> (r: CecMsg)
        ensures
            self.carries(r, releasing(target)),
    {
        self.tx_message(&Message::UserControlReleased, target)
    }
}

/// A name of up to fourteen bytes, with zeros behind it.
pub open spec fn padded_name(name: Seq<u8>) -> Seq<u8> {
    Seq::new(14, |i: int| if i < name.len() { name[i] } else { 0 })
}

/// The bytes of a list of bytes are its elements.
proof fn joined_bytes(bytes: Seq<u8>)
    ensures
        crate::operand::buffer::joined(bytes) == bytes,
    decreases bytes.len(),
{
    if bytes.len() > 0 {
        joined_bytes(bytes.drop_last());
        assert(bytes.drop_last() + seq![bytes.last()] =~= bytes);
    } else {
        assert(bytes =~= Seq::empty());
    }
}

/// What a frame carries of the bytes of a message.
pub open spec fn sent(bytes: Seq<u8>) -> Seq<u8> {
    bytes.take(if bytes.len() <= 15 { bytes.len() as int } else { 15 })
}

/// How long a reply of a kind is waited for, in milliseconds: no longer than a second, and that long
/// where no time is given. A frame that no reply is waited for gives no time, and names as its reply
/// the refusal that any frame can meet with.
pub open spec fn reply_wait(reply: Opcode, ms: u32) -> u32 {
    if ms > 1000 || (ms == 0 && reply != Opcode::FeatureAbort) {
        1000
    } else {
        ms
    }
}

/// Whether a frame sends some bytes from one device to another and waits for a reply of a kind.
pub open spec fn is_frame(
    frame: CecMsg,
    initiator: LogicalAddress,
    destination: LogicalAddress,
    bytes: Seq<u8>,
    reply: Opcode,
    timeout: u32,
) -> bool {
    &&& frame.is_fresh()
    &&& frame.len == 1 + sent(bytes).len()
    &&& frame.msg[0] == initiator.code() * 16 + destination.code()
    &&& frame.body() == sent(bytes)
    &&& forall|i: int| frame.len <= i < 16 ==> frame.msg@[i] == 0
    &&& frame.reply == reply.code()
    &&& frame.timeout == timeout
}

/// A message that fits in a frame is what its receiver reads out of it, with the addresses that it
/// was sent with.
pub proof fn receiver_reads_what_was_sent(
    m: Message,
    initiator: LogicalAddress,
    destination: LogicalAddress,
    reply: Opcode,
    timeout: u32,
    frame: CecMsg,
    received: CecMsg,
    envelope: Envelope,
)
    requires
        m.valid(),
        m is ReportFeatures ==> m.faithful(),
        m.encoded().len() <= 15,
        is_frame(frame, initiator, destination, m.encoded(), reply, timeout),
        received.msg == frame.msg,
        received.len == frame.len,
        envelope.holds(received),
    ensures
        envelope.message == MessageData::Valid(m),
        envelope.initiator == initiator,
        envelope.destination == destination,
{
    crate::message::decoding_inverts_encoding(m);
    assert(sent(m.encoded()) =~= m.encoded());
    assert(received.body() == frame.body());
    LogicalAddress::one_to_one();
    assert(initiator.code() < 16 && destination.code() < 16);
    assert(frame.msg[0] / 16 == initiator.code());
    assert(frame.msg[0] % 16 == destination.code());
    assert(LogicalAddress::with_code(envelope.initiator.code()) == Some(envelope.initiator));
    assert(LogicalAddress::with_code(envelope.destination.code()) == Some(envelope.destination));
    assert(LogicalAddress::with_code(initiator.code()) == Some(initiator));
    assert(LogicalAddress::with_code(destination.code()) == Some(destination));
}

/// What the kernel says of a transmission that failed: the first of these that is set counts.
pub proof fn failed_transmissions_have_a_reason(status: u8)
    ensures
        status & 0x02 != 0 ==> tx_failure(status) == TxError::ArbLost,
        status & 0x02 == 0 ==> {
            &&& status & 0x04 != 0 ==> tx_failure(status) == TxError::Nack
            &&& status & 0x04 == 0 ==> {
                &&& status & 0x08 != 0 ==> tx_failure(status) == TxError::LowDrive
                &&& status & 0x08 == 0 ==> {
                    &&& status & 0x10 != 0 ==> tx_failure(status) == TxError::UnknownError
                    &&& status & 0x10 == 0 ==> {
                        &&& status & 0x40 != 0 ==> tx_failure(status) == TxError::Aborted
                        &&& status & 0x40 == 0 ==> {
                            &&& status & 0x80 != 0 ==> tx_failure(status) == TxError::Timeout
                            &&& status & 0x80 == 0 && status & 0x20 != 0 ==> tx_failure(status)
                                == TxError::MaxRetries
                            &&& status & 0x80 == 0 && status & 0x20 == 0 ==> tx_failure(status)
                                == TxError::UnknownError
                        }
                    }
                }
            }
        },
{
}

/// What is received holds a message unless the kernel says that time ran out, that the wait was
/// aborted or that the message was refused, or it is too short or too long for one.
pub proof fn receptions_fail_for_a_reason(raw: CecMsg)
    ensures
        raw.rx_status & 0x02 != 0 ==> envelope_error(raw) == Some(ErrorView::Timeout),
        raw.rx_status & 0x02 == 0 && raw.rx_status & 0x08 != 0 ==> envelope_error(raw) == Some(
            ErrorView::Abort,
        ),
        raw.rx_status & 0x02 == 0 && raw.rx_status & 0x08 == 0 && raw.rx_status & 0x04 != 0
            ==> envelope_error(raw) == Some(ErrorView::RxError(RxError::FeatureAbort)),
        raw.rx_status & 0x02 == 0 && raw.rx_status & 0x08 == 0 && raw.rx_status & 0x04 == 0 ==> (
        envelope_error(raw) == (if raw.len < 2 || raw.len > 16 {
            Some(ErrorView::InvalidData)
        } else {
            None
        })),
{
}

/// The first byte of a frame names the sender in its upper four bits and the receiver in its lower
/// ones. Behind it are the bytes of the message, as far as fifteen go.
pub proof fn frames_name_sender_and_receiver(
    frame: CecMsg,
    initiator: LogicalAddress,
    destination: LogicalAddress,
    bytes: Seq<u8>,
    reply: Opcode,
    timeout: u32,
)
    requires
        is_frame(frame, initiator, destination, bytes, reply, timeout),
    ensures
        frame.msg[0] / 16 == initiator.code(),
        frame.msg[0] % 16 == destination.code(),
        frame.len == 1 + (if bytes.len() < 15 {
            bytes.len()
        } else {
            15
        }),
        forall|i: int| 0 <= i < bytes.len() && i < 15 ==> frame.msg@[i + 1] == #[trigger] bytes[i],
        frame.reply == reply.code(),
        frame.timeout == timeout,
        frame.flags == 0 && frame.sequence == 0,
{
    assert(initiator.code() < 16 && destination.code() < 16);
    let n = sent(bytes).len();
    assert forall|i: int| 0 <= i < bytes.len() && i < 15 implies frame.msg@[i + 1]
        == #[trigger] bytes[i] by {
        assert(sent(bytes)[i] == bytes[i]);
        assert(frame.body()[i] == frame.msg@[i + 1]);
    }
}

/// What is received comes from the device in the upper four bits of the first byte and is for the
/// one in the lower ones. It is the message that the bytes behind that stand for, or those bytes
/// where they stand for none.
pub proof fn envelopes_hold_what_was_received(envelope: Envelope, raw: CecMsg)
    requires
        envelope.holds(raw),
        2 <= raw.len <= 16,
    ensures
        raw.msg[0] == envelope.initiator.code() * 16 + envelope.destination.code(),
        envelope.timestamp == raw.rx_ts,
        envelope.sequence == raw.sequence,
        match Message::decoded(raw.msg@.subrange(1, raw.len as int)) {
            Ok(message) => envelope.message == MessageData::Valid(message),
            Err(_) => {
                &&& envelope.message is Invalid
                &&& forall|i: int|
                    0 <= i < raw.len - 1 && i < 14 ==> #[trigger] envelope.message.bytes()[i]
                        == raw.msg@[i + 1]
                &&& envelope.message.bytes().len() == (if raw.len < 15 {
                    raw.len - 1
                } else {
                    14
                })
            },
        },
{
}

/// A reply is waited for as long as was asked, but no longer than a second, and for a second where
/// no time was given. Where none but a refusal is waited for, no time may be given.
pub proof fn waits_are_bounded(reply: Opcode, ms: u32)
    ensures
        0 < ms <= 1000 ==> reply_wait(reply, ms) == ms,
        ms > 1000 ==> reply_wait(reply, ms) == 1000,
        ms == 0 && reply.code() != 0x00 ==> reply_wait(reply, ms) == 1000,
        ms == 0 && reply.code() == 0x00 ==> reply_wait(reply, ms) == 0,
{
    Opcode::one_to_one();
    assert(Opcode::with_code(reply.code()) == Some(reply));
    assert(Opcode::with_code(0x00) == Some(Opcode::FeatureAbort));
}

/// A device sends by the first of its logical addresses, and as one without an address where it has
/// none or that makes no sense.
pub proof fn devices_send_by_their_first_address(log_addrs: LogAddrs)
    ensures
        log_addrs.num_log_addrs > 0 && log_addrs.log_addr[0] < 16 ==> log_addrs.first().code()
            == log_addrs.log_addr[0],
        log_addrs.num_log_addrs == 0 || log_addrs.log_addr[0] >= 16 ==> log_addrs.first().code()
            == 15,
{
}

/// The kinds of devices that go with the kinds of logical addresses, by their numbers.
pub proof fn addresses_go_with_kinds_of_devices()
    ensures
        device_type_code(LogicalAddressType::Tv) == 0,
        device_type_code(LogicalAddressType::Record) == 1,
        device_type_code(LogicalAddressType::Tuner) == 3,
        device_type_code(LogicalAddressType::Playback) == 4,
        device_type_code(LogicalAddressType::AudioSystem) == 5,
        device_type_code(LogicalAddressType::Specific) == 7,
        device_type_code(LogicalAddressType::Unregistered) == 0xff,
{
}

/// A name is given to the kernel with zeros behind it, fourteen bytes in all.
pub proof fn names_are_padded(name: Seq<u8>)
    requires
        name.len() <= 14,
    ensures
        padded_name(name).len() == 14,
        padded_name(name).take(name.len() as int) == name,
        forall|i: int| name.len() <= i < 14 ==> padded_name(name)[i] == 0,
{
    assert(padded_name(name).take(name.len() as int) =~= name);
}

/// The kernel describes connectors by numbers: none, one of a graphics card by the number of the card
/// and its own, or something else.
pub proof fn connectors_are_described(ty: u32, data: [u32; 16])
    ensures
        ConnectorInfo::described(0, data) == ConnectorInfo::NoConnector,
        ConnectorInfo::described(1, data) == (ConnectorInfo::DrmConnector {
            card_no: data[0],
            connector_id: data[1],
        }),
        ty > 1 ==> ConnectorInfo::described(ty, data) == (ConnectorInfo::Unknown { ty, data }),
{
}

/// A poll that finds nothing in time fails. A device that is gone is told before all else, and what
/// is there is a message, an event or both.
pub proof fn polls_find_what_is_flagged(ready: usize, flags: i16)
    requires
        ready > 0,
    ensures
        DevicePoller::found(0, Some(flags)) == Err::<PollStatus, ErrorView>(ErrorView::Timeout),
        DevicePoller::found(0, None) == Err::<PollStatus, ErrorView>(ErrorView::Timeout),
        DevicePoller::found(ready, None) == Ok::<PollStatus, ErrorView>(PollStatus::Nothing),
        flags & 0x10 == 0x10 ==> DevicePoller::found(ready, Some(flags)) == Ok::<
            PollStatus,
            ErrorView,
        >(PollStatus::Destroyed),
        flags & 0x10 != 0x10 ==> {
            let message = flags & 0x01 == 0x01;
            let event = flags & 0x02 == 0x02;
            match DevicePoller::found(ready, Some(flags)) {
                Ok(status) => {
                    &&& message || event
                    &&& message <==> status == PollStatus::GotMessage || status == PollStatus::GotAll
                    &&& event <==> status == PollStatus::GotEvent || status == PollStatus::GotAll
                },
                Err(e) => !message && !event && e == ErrorView::UnknownError(
                    "Polling error encountered"@,
                ),
            }
        },
{
}

/// A frame was sent where its status says so, and only then is there a reply in it.
pub proof fn replies_come_with_frames_that_were_sent(frame: CecMsg)
    ensures
        frame.tx_status & 0x01 != 0 ==> sending_result(frame) is Ok && reply_error(frame)
            == envelope_error(frame),
        frame.tx_status & 0x01 == 0 ==> {
            let e = ErrorView::TxError(tx_failure(frame.tx_status));
            sending_result(frame) == Err::<(), ErrorView>(e) && reply_error(frame) == Some(e)
        },
{
}

/// What frames say: the television wakes by 0x04, or by 0x0d where it is to dismiss menus, and all
/// devices are told the address to switch to by 0x82. A device stands by at 0x36, and 0x44 and 0x45
/// press and release a button.
pub proof fn frames_say_what_they_are_for(
    address: PhysicalAddress,
    text_view: bool,
    ui_command: UiCommand,
    target: LogicalAddress,
)
    ensures
        showing(address).0.encoded() == seq![
            0x82u8,
            (address.0 / 256) as u8,
            (address.0 % 256) as u8,
        ],
        showing(address).1.code() == 15,
        waking(None, text_view).len() == 1,
        waking(Some(address), text_view).len() == 2,
        waking(Some(address), text_view)[1] == showing(address),
        waking(None, text_view)[0] == waking(Some(address), text_view)[0],
        waking(None, true)[0].0.encoded() == seq![0x0du8],
        waking(None, false)[0].0.encoded() == seq![0x04u8],
        waking(None, text_view)[0].1.code() == 0,
        sleeping(target).0.encoded() == seq![0x36u8] && sleeping(target).1 == target,
        pressing(ui_command, target).0.encoded() == seq![0x44u8] + ui_command.encoded(),
        pressing(ui_command, target).1 == target,
        releasing(target).0.encoded() == seq![0x45u8] && releasing(target).1 == target,
{
    crate::numbers::source_messages(showing(address).0);
    crate::numbers::plain_messages(Message::TextViewOn);
    crate::numbers::plain_messages(Message::ImageViewOn);
    crate::numbers::plain_messages(Message::Standby);
    crate::numbers::plain_messages(Message::UserControlReleased);
    crate::numbers::deck_messages(pressing(ui_command, target).0);
    crate::address::physical_addresses_are_two_bytes(address, 0, 0);
}

/// A device that gives up its logical addresses sends without one. Once it has been given some, it
/// sends by the first, whatever it had before, and all that the kernel says is kept.
pub proof fn addresses_are_given_up_and_taken(device: Device, answer: LogAddrs, count: usize)
    ensures
        device.cleared().tx_logical_address.code() == 15,
        device.cleared().internal_log_addrs.num_log_addrs == 0,
        device.cleared().internal_log_addrs.vendor_id == device.internal_log_addrs.vendor_id,
        device.cleared().internal_log_addrs.osd_name == device.internal_log_addrs.osd_name,
        device.answered(answer, count).internal_log_addrs == answer,
        count > 0 && answer.log_addr[0] < 16 ==> device.answered(
            answer,
            count,
        ).tx_logical_address.code() == answer.log_addr[0],
        count > 0 && answer.log_addr[0] >= 16 ==> device.answered(
            answer,
            count,
        ).tx_logical_address.code() == 15,
        device.answered(answer, 0).tx_logical_address == device.tx_logical_address,
{
    LogicalAddress::one_to_one();
}

/// The vendor of a device is set by the number that it has, or by one that stands for none, and
/// nothing else changes.
pub proof fn vendors_are_set_by_number(device: Device, vendor: VendorId)
    ensures
        device.branded(Some(vendor)).internal_log_addrs.vendor_id == vendor.number(),
        device.branded(None).internal_log_addrs.vendor_id == 0xffff_ffff,
        device.branded(Some(vendor)).tx_logical_address == device.tx_logical_address,
        device.branded(Some(vendor)).internal_log_addrs.log_addr
            == device.internal_log_addrs.log_addr,
        device.branded(Some(vendor)).internal_log_addrs.num_log_addrs
            == device.internal_log_addrs.num_log_addrs,
        device.branded(Some(vendor)).internal_log_addrs.osd_name
            == device.internal_log_addrs.osd_name,
{
}

/// A frame has up to sixteen bytes and a device up to four logical addresses.
pub proof fn the_kernel_has_limits()
    ensures
        CEC_MAX_MSG_SIZE == 16,
        CEC_MAX_LOG_ADDRS == 4,
        crate::operand::buffer::CAPACITY == 14,
{
}

} // verus!
