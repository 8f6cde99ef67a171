//! Times and durations, in binary coded decimal.

use vstd::prelude::*;

use crate::codec::{invalid_value, need, no_such, too_short, OperandEncodable};
use crate::error::{Error, ErrorView, Range, RangeView};

verus! {

/// The two decimal digits of a number below 100, one in each half of a byte.
pub open spec fn to_bcd(value: u8) -> u8 {
    (value / 10 * 16 + value % 10) as u8
}

/// The number whose two decimal digits are the halves of a byte.
pub open spec fn from_bcd(byte: u8) -> Option<u8> {
    if byte / 16 < 10 && byte % 16 < 10 {
        Some((byte / 16 * 10 + byte % 16) as u8)
    } else {
        None
    }
}

fn bcd(value: u8) -> (byte: u8)
    requires
        value < 100,
    ensures
        byte == to_bcd(value),
{
    value / 10 * 16 + value % 10
}

fn unbcd(byte: u8) -> (r: Option<u8>)
    ensures
        r == from_bcd(byte),
{
    if byte / 16 < 10 && byte % 16 < 10 {
        Some(byte / 16 * 10 + byte % 16)
    } else {
        None
    }
}

/// An hour of the day.
#[derive(Debug, Copy, Clone, PartialEq, Eq, Hash, Structural)]
pub struct Hour {
    value: u8,
}

impl Hour {
    #[verifier::type_invariant]
    spec fn in_range(self) -> bool {
        self.value <= 23
    }

    /// The number.
    pub closed spec fn value(&self) -> u8 {
        self.value
    }

    /// The value with a number.
    pub closed spec fn of(value: u8) -> Hour {
        Hour { value }
    }

    /// Numbers and values correspond one to one.
    pub proof fn number_and_value(self, value: u8)
        ensures
            Hour::of(value).value() == value,
            Hour::of(self.value()) == self,
    {
    }

    /// The number.
    pub fn get(&self) -> (value: u8)
        ensures
            value == self.value(),
            self.value() <= 23,
    {
        proof {
            use_type_invariant(self);
        }
        self.value
    }

    /// Accept a number in the range of the type.
    pub fn try_from(value: u8) -> (r: Result<Hour, Error>)
        ensures
            if value <= 23 {
                r matches Ok(v) && v.value() == value
            } else {
                r matches Err(e) && e@ == no_such("Hour"@, value)
            },
    {
        if value > 23 {
            Err(invalid_value("Hour", value))
        } else {
            Ok(Hour { value })
        }
    }
}

impl OperandEncodable for Hour {
    open spec fn valid(&self) -> bool {
        self.value() <= 23
    }

    open spec fn encoded(&self) -> Seq<u8> {
        seq![to_bcd(self.value())]
    }

    open spec fn lengths() -> RangeView {
        RangeView::AtLeast(1)
    }

    open spec fn decoded(bytes: Seq<u8>) -> Result<Self, ErrorView> {
        if bytes.len() < 1 {
            Err(too_short(1, bytes))
        } else {
            match from_bcd(bytes[0]) {
                Some(value) if value <= 23 => Ok(Hour::of(value)),
                _ => Err(no_such("Hour"@, bytes[0])),
            }
        }
    }

    open spec fn delimited(&self) -> bool {
        true
    }

    open spec fn faithful(&self) -> bool {
        true
    }

    fn to_bytes(&self, buf: &mut Vec<u8>) {
        proof {
            use_type_invariant(self);
        }
        buf.push(bcd(self.value));
    }

    fn len(&self) -> (n: usize) {
        1
    }

    fn expected_len() -> (r: Range) {
        Range::AtLeast(1)
    }

    fn try_from_bytes(bytes: &[u8]) -> (r: Result<Self, Error>) {
        match need(1, bytes) {
            Err(e) => Err(e),
            Ok(()) => match unbcd(bytes[0]) {
                Some(value) if value <= 23 => Ok(Hour { value }),
                _ => Err(invalid_value("Hour", bytes[0])),
            },
        }
    }

    proof fn read_back(&self, rest: Seq<u8>) {
        assert((self.encoded() + rest)[0] == self.encoded()[0]);
    }
}

/// A minute of an hour.
#[derive(Debug, Copy, Clone, PartialEq, Eq, Hash, Structural)]
pub struct Minute {
    value: u8,
}

impl Minute {
    #[verifier::type_invariant]
    spec fn in_range(self) -> bool {
        self.value <= 59
    }

    /// The number.
    pub closed spec fn value(&self) -> u8 {
        self.value
    }

    /// The value with a number.
    pub closed spec fn of(value: u8) -> Minute {
        Minute { value }
    }

    /// Numbers and values correspond one to one.
    pub proof fn number_and_value(self, value: u8)
        ensures
            Minute::of(value).value() == value,
            Minute::of(self.value()) == self,
    {
    }

    /// The number.
    pub fn get(&self) -> (value: u8)
        ensures
            value == self.value(),
            self.value() <= 59,
    {
        proof {
            use_type_invariant(self);
        }
        self.value
    }

    /// Accept a number in the range of the type.
    pub fn try_from(value: u8) -> (r: Result<Minute, Error>)
        ensures
            if value <= 59 {
                r matches Ok(v) && v.value() == value
            } else {
                r matches Err(e) && e@ == no_such("Minute"@, value)
            },
    {
        if value > 59 {
            Err(invalid_value("Minute", value))
        } else {
            Ok(Minute { value })
        }
    }
}

impl OperandEncodable for Minute {
    open spec fn valid(&self) -> bool {
        self.value() <= 59
    }

    open spec fn encoded(&self) -> Seq<u8> {
        seq![to_bcd(self.value())]
    }

    open spec fn lengths() -> RangeView {
        RangeView::AtLeast(1)
    }

    open spec fn decoded(bytes: Seq<u8>) -> Result<Self, ErrorView> {
        if bytes.len() < 1 {
            Err(too_short(1, bytes))
        } else {
            match from_bcd(bytes[0]) {
                Some(value) if value <= 59 => Ok(Minute::of(value)),
                _ => Err(no_such("Minute"@, bytes[0])),
            }
        }
    }

    open spec fn delimited(&self) -> bool {
        true
    }

    open spec fn faithful(&self) -> bool {
        true
    }

    fn to_bytes(&self, buf: &mut Vec<u8>) {
        proof {
            use_type_invariant(self);
        }
        buf.push(bcd(self.value));
    }

    fn len(&self) -> (n: usize) {
        1
    }

    fn expected_len() -> (r: Range) {
        Range::AtLeast(1)
    }

    fn try_from_bytes(bytes: &[u8]) -> (r: Result<Self, Error>) {
        match need(1, bytes) {
            Err(e) => Err(e),
            Ok(()) => match unbcd(bytes[0]) {
                Some(value) if value <= 59 => Ok(Minute { value }),
                _ => Err(invalid_value("Minute", bytes[0])),
            },
        }
    }

    proof fn read_back(&self, rest: Seq<u8>) {
        assert((self.encoded() + rest)[0] == self.encoded()[0]);
    }
}

/// A number of whole hours.
#[derive(Debug, Copy, Clone, PartialEq, Eq, Hash, Structural)]
pub struct DurationHours {
    value: u8,
}

impl DurationHours {
    #[verifier::type_invariant]
    spec fn in_range(self) -> bool {
        self.value <= 99
    }

    /// The number.
    pub closed spec fn value(&self) -> u8 {
        self.value
    }

    /// The value with a number.
    pub closed spec fn of(value: u8) -> DurationHours {
        DurationHours { value }
    }

    /// Numbers and values correspond one to one.
    pub proof fn number_and_value(self, value: u8)
        ensures
            DurationHours::of(value).value() == value,
            DurationHours::of(self.value()) == self,
    {
    }

    /// The number.
    pub fn get(&self) -> (value: u8)
        ensures
            value == self.value(),
            self.value() <= 99,
    {
        proof {
            use_type_invariant(self);
        }
        self.value
    }

    /// Accept a number in the range of the type.
    pub fn try_from(value: u8) -> (r: Result<DurationHours, Error>)
        ensures
            if value <= 99 {
                r matches Ok(v) && v.value() == value
            } else {
                r matches Err(e) && e@ == no_such("DurationHours"@, value)
            },
    {
        if value > 99 {
            Err(invalid_value("DurationHours", value))
        } else {
            Ok(DurationHours { value })
        }
    }
}

impl OperandEncodable for DurationHours {
    open spec fn valid(&self) -> bool {
        self.value() <= 99
    }

    open spec fn encoded(&self) -> Seq<u8> {
        seq![to_bcd(self.value())]
    }

    open spec fn lengths() -> RangeView {
        RangeView::AtLeast(1)
    }

    open spec fn decoded(bytes: Seq<u8>) -> Result<Self, ErrorView> {
        if bytes.len() < 1 {
            Err(too_short(1, bytes))
        } else {
            match from_bcd(bytes[0]) {
                Some(value) if value <= 99 => Ok(DurationHours::of(value)),
                _ => Err(no_such("DurationHours"@, bytes[0])),
            }
        }
    }

    open spec fn delimited(&self) -> bool {
        true
    }

    open spec fn faithful(&self) -> bool {
        true
    }

    fn to_bytes(&self, buf: &mut Vec<u8>) {
        proof {
            use_type_invariant(self);
        }
        buf.push(bcd(self.value));
    }

    fn len(&self) -> (n: usize) {
        1
    }

    fn expected_len() -> (r: Range) {
        Range::AtLeast(1)
    }

    fn try_from_bytes(bytes: &[u8]) -> (r: Result<Self, Error>) {
        match need(1, bytes) {
            Err(e) => Err(e),
            Ok(()) => match unbcd(bytes[0]) {
                Some(value) if value <= 99 => Ok(DurationHours { value }),
                _ => Err(invalid_value("DurationHours", bytes[0])),
            },
        }
    }

    proof fn read_back(&self, rest: Seq<u8>) {
        assert((self.encoded() + rest)[0] == self.encoded()[0]);
    }
}

/// A time of day.
#[derive(Debug, Copy, Clone, PartialEq, Eq, Hash, Structural)]
pub struct Time {
    pub hour: Hour,
    pub minute: Minute,
}

impl OperandEncodable for Time {
    open spec fn valid(&self) -> bool {
        self.hour.valid() && self.minute.valid()
    }

    open spec fn encoded(&self) -> Seq<u8> {
        self.hour.encoded() + self.minute.encoded()
    }

    open spec fn lengths() -> RangeView {
        RangeView::AtLeast(2)
    }

    open spec fn decoded(bytes: Seq<u8>) -> Result<Self, ErrorView> {
        match <(Hour, Minute)>::decoded(bytes) {
            Ok((hour, minute)) => Ok(Time { hour, minute }),
            Err(e) => Err(e),
        }
    }

    open spec fn delimited(&self) -> bool {
        true
    }

    open spec fn faithful(&self) -> bool {
        true
    }

    fn to_bytes(&self, buf: &mut Vec<u8>) {
        self.hour.to_bytes(buf);
        self.minute.to_bytes(buf);
    }

    fn len(&self) -> (n: usize) {
        2
    }

    fn expected_len() -> (r: Range) {
        Range::AtLeast(2)
    }

    fn try_from_bytes(bytes: &[u8]) -> (r: Result<Self, Error>) {
        match <(Hour, Minute)>::try_from_bytes(bytes) {
            Ok((hour, minute)) => Ok(Time { hour, minute }),
            Err(e) => Err(e),
        }
    }

    proof fn read_back(&self, rest: Seq<u8>) {
        (self.hour, self.minute).read_back(rest);
    }
}

/// A span of time.
#[derive(Debug, Copy, Clone, PartialEq, Eq, Hash, Structural)]
pub struct Duration {
    pub hours: DurationHours,
    pub minutes: Minute,
}

impl OperandEncodable for Duration {
    open spec fn valid(&self) -> bool {
        self.hours.valid() && self.minutes.valid()
    }

    open spec fn encoded(&self) -> Seq<u8> {
        self.hours.encoded() + self.minutes.encoded()
    }

    open spec fn lengths() -> RangeView {
        RangeView::AtLeast(2)
    }

    open spec fn decoded(bytes: Seq<u8>) -> Result<Self, ErrorView> {
        match <(DurationHours, Minute)>::decoded(bytes) {
            Ok((hours, minutes)) => Ok(Duration { hours, minutes }),
            Err(e) => Err(e),
        }
    }

    open spec fn delimited(&self) -> bool {
        true
    }

    open spec fn faithful(&self) -> bool {
        true
    }

    fn to_bytes(&self, buf: &mut Vec<u8>) {
        self.hours.to_bytes(buf);
        self.minutes.to_bytes(buf);
    }

    fn len(&self) -> (n: usize) {
        2
    }

    fn expected_len() -> (r: Range) {
        Range::AtLeast(2)
    }

    fn try_from_bytes(bytes: &[u8]) -> (r: Result<Self, Error>) {
        match <(DurationHours, Minute)>::try_from_bytes(bytes) {
            Ok((hours, minutes)) => Ok(Duration { hours, minutes }),
            Err(e) => Err(e),
        }
    }

    proof fn read_back(&self, rest: Seq<u8>) {
        (self.hours, self.minutes).read_back(rest);
    }
}

} // verus!
