//! Plain numbers as operands, and numbers in a range.

use vstd::prelude::*;

use crate::address::VendorId;
use crate::codec::{invalid_value, need, no_such, too_short, OperandEncodable};
use crate::error::{Error, ErrorView, Range, RangeView};

verus! {

/// The three bytes at the front of some bytes.
pub open spec fn first_three(bytes: Seq<u8>) -> [u8; 3] {
    choose|a: [u8; 3]| a@ == bytes.take(3)
}

/// There is an array of the three bytes at the front of some bytes, and only one.
pub proof fn first_three_exist(bytes: Seq<u8>, a: [u8; 3])
    requires
        bytes.len() >= 3,
    ensures
        first_three(bytes)@ == bytes.take(3),
        a@ == bytes.take(3) ==> a == first_three(bytes),
{
    let blank = vstd::array::spec_array_fill_for_copy_type::<u8, 3>(0u8);
    let one = vstd::array::spec_array_update(blank, 0, bytes[0]);
    let two = vstd::array::spec_array_update(one, 1, bytes[1]);
    let three = vstd::array::spec_array_update(two, 2, bytes[2]);
    assert(three@ =~= bytes.take(3));
    let b = first_three(bytes);
    if a@ == bytes.take(3) {
        assert forall|i: int| 0 <= i < 3 implies a[i] == b[i] by {
            assert(a@[i] == b@[i]);
        }
        assert(a =~= b);
    }
}

fn take_three(bytes: &[u8]) -> (r: [u8; 3])
    requires
        bytes@.len() >= 3,
    ensures
        r == first_three(bytes@),
{
    let r: [u8; 3] = [bytes[0], bytes[1], bytes[2]];
    proof {
        assert(r@ =~= bytes@.take(3));
        first_three_exist(bytes@, r);
    }
    r
}

impl OperandEncodable for u8 {
    open spec fn valid(&self) -> bool {
        true
    }

    open spec fn encoded(&self) -> Seq<u8> {
        seq![*self]
    }

    open spec fn lengths() -> RangeView {
        RangeView::AtLeast(1)
    }

    open spec fn decoded(bytes: Seq<u8>) -> Result<Self, ErrorView> {
        if bytes.len() < 1 {
            Err(too_short(1, bytes))
        } else {
            Ok(bytes[0])
        }
    }

    open spec fn delimited(&self) -> bool {
        true
    }

    open spec fn faithful(&self) -> bool {
        true
    }

    fn to_bytes(&self, buf: &mut Vec<u8>) {
        buf.push(*self);
    }

    fn len(&self) -> (n: usize) {
        1
    }

    fn expected_len() -> (r: Range) {
        Range::AtLeast(1)
    }

    fn try_from_bytes(bytes: &[u8]) -> (r: Result<Self, Error>) {
        match need(1, bytes) {
            Err(e) => Err(e),
            Ok(()) => Ok(bytes[0]),
        }
    }

    proof fn read_back(&self, rest: Seq<u8>) {
        assert((self.encoded() + rest)[0] == self.encoded()[0]);
    }
}

impl OperandEncodable for bool {
    open spec fn valid(&self) -> bool {
        true
    }

    open spec fn encoded(&self) -> Seq<u8> {
        seq![if *self { 1 } else { 0 }]
    }

    open spec fn lengths() -> RangeView {
        RangeView::AtLeast(1)
    }

    open spec fn decoded(bytes: Seq<u8>) -> Result<Self, ErrorView> {
        if bytes.len() < 1 {
            Err(too_short(1, bytes))
        } else {
            Ok(bytes[0] != 0)
        }
    }

    open spec fn delimited(&self) -> bool {
        true
    }

    open spec fn faithful(&self) -> bool {
        true
    }

    fn to_bytes(&self, buf: &mut Vec<u8>) {
        buf.push(if *self { 1 } else { 0 });
    }

    fn len(&self) -> (n: usize) {
        1
    }

    fn expected_len() -> (r: Range) {
        Range::AtLeast(1)
    }

    fn try_from_bytes(bytes: &[u8]) -> (r: Result<Self, Error>) {
        match need(1, bytes) {
            Err(e) => Err(e),
            Ok(()) => Ok(bytes[0] != 0),
        }
    }

    proof fn read_back(&self, rest: Seq<u8>) {
        assert((self.encoded() + rest)[0] == self.encoded()[0]);
    }
}

impl OperandEncodable for [u8; 3] {
    open spec fn valid(&self) -> bool {
        true
    }

    open spec fn encoded(&self) -> Seq<u8> {
        self@
    }

    open spec fn lengths() -> RangeView {
        RangeView::AtLeast(3)
    }

    open spec fn decoded(bytes: Seq<u8>) -> Result<Self, ErrorView> {
        if bytes.len() < 3 {
            Err(too_short(3, bytes))
        } else {
            Ok(first_three(bytes))
        }
    }

    open spec fn delimited(&self) -> bool {
        true
    }

    open spec fn faithful(&self) -> bool {
        true
    }

    fn to_bytes(&self, buf: &mut Vec<u8>) {
        buf.push(self[0]);
        buf.push(self[1]);
        buf.push(self[2]);
        assert(self@ =~= seq![self[0], self[1], self[2]]);
    }

    fn len(&self) -> (n: usize) {
        3
    }

    fn expected_len() -> (r: Range) {
        Range::AtLeast(3)
    }

    fn try_from_bytes(bytes: &[u8]) -> (r: Result<Self, Error>) {
        match need(3, bytes) {
            Err(e) => Err(e),
            Ok(()) => Ok(take_three(bytes)),
        }
    }

    proof fn read_back(&self, rest: Seq<u8>) {
        assert((self.encoded() + rest).take(3) =~= self.encoded());
        first_three_exist(self.encoded() + rest, *self);
    }
}

impl OperandEncodable for VendorId {
    open spec fn valid(&self) -> bool {
        true
    }

    open spec fn encoded(&self) -> Seq<u8> {
        self.0@
    }

    open spec fn lengths() -> RangeView {
        RangeView::AtLeast(3)
    }

    open spec fn decoded(bytes: Seq<u8>) -> Result<Self, ErrorView> {
        if bytes.len() < 3 {
            Err(too_short(3, bytes))
        } else {
            Ok(VendorId(first_three(bytes)))
        }
    }

    open spec fn delimited(&self) -> bool {
        true
    }

    open spec fn faithful(&self) -> bool {
        true
    }

    fn to_bytes(&self, buf: &mut Vec<u8>) {
        buf.push(self.0[0]);
        buf.push(self.0[1]);
        buf.push(self.0[2]);
        assert(self.0@ =~= seq![self.0[0], self.0[1], self.0[2]]);
    }

    fn len(&self) -> (n: usize) {
        3
    }

    fn expected_len() -> (r: Range) {
        Range::AtLeast(3)
    }

    fn try_from_bytes(bytes: &[u8]) -> (r: Result<Self, Error>) {
        match need(3, bytes) {
            Err(e) => Err(e),
            Ok(()) => Ok(VendorId(take_three(bytes))),
        }
    }

    proof fn read_back(&self, rest: Seq<u8>) {
        assert((self.encoded() + rest).take(3) =~= self.encoded());
        first_three_exist(self.encoded() + rest, self.0);
    }
}

/// A delay, in units of two milliseconds, plus one.
#[derive(Debug, Copy, Clone, PartialEq, Eq, Hash, Structural)]
pub struct Delay {
    value: u8,
}

impl Delay {
    #[verifier::type_invariant]
    spec fn in_range(self) -> bool {
        1 <= self.value <= 251
    }

    /// The number.
    pub closed spec fn value(&self) -> u8 {
        self.value
    }

    /// The value with a number.
    pub closed spec fn of(value: u8) -> Delay {
        Delay { value }
    }

    /// Numbers and values correspond one to one.
    pub proof fn number_and_value(self, value: u8)
        ensures
            Delay::of(value).value() == value,
            Delay::of(self.value()) == self,
    {
    }

    /// The number.
    pub fn get(&self) -> (value: u8)
        ensures
            value == self.value(),
            1 <= self.value() <= 251,
    {
        proof {
            use_type_invariant(self);
        }
        self.value
    }

    /// Accept a number in the range of the type.
    pub fn try_from(value: u8) -> (r: Result<Delay, Error>)
        ensures
            if 1 <= value <= 251 {
                r matches Ok(v) && v.value() == value
            } else {
                r matches Err(e) && e@ == no_such("Delay"@, value)
            },
    {
        if value < 1 || value > 251 {
            Err(invalid_value("Delay", value))
        } else {
            Ok(Delay { value })
        }
    }
}

impl OperandEncodable for Delay {
    open spec fn valid(&self) -> bool {
        1 <= self.value() <= 251
    }

    open spec fn encoded(&self) -> Seq<u8> {
        seq![self.value()]
    }

    open spec fn lengths() -> RangeView {
        RangeView::AtLeast(1)
    }

    open spec fn decoded(bytes: Seq<u8>) -> Result<Self, ErrorView> {
        if bytes.len() < 1 {
            Err(too_short(1, bytes))
        } else {
            let value = bytes[0];
            if 1 <= value <= 251 {
                Ok(Delay::of(value))
            } else {
                Err(no_such("Delay"@, value))
            }
        }
    }

    open spec fn delimited(&self) -> bool {
        true
    }

    open spec fn faithful(&self) -> bool {
        true
    }

    fn to_bytes(&self, buf: &mut Vec<u8>) {
        proof {
            use_type_invariant(self);
        }
        buf.push(self.value);
    }

    fn len(&self) -> (n: usize) {
        1
    }

    fn expected_len() -> (r: Range) {
        Range::AtLeast(1)
    }

    fn try_from_bytes(bytes: &[u8]) -> (r: Result<Self, Error>) {
        match need(1, bytes) {
            Err(e) => Err(e),
            Ok(()) => Delay::try_from(bytes[0]),
        }
    }

    proof fn read_back(&self, rest: Seq<u8>) {
        assert((self.encoded() + rest)[0] == self.encoded()[0]);
    }
}

/// A volume in percent.
#[derive(Debug, Copy, Clone, PartialEq, Eq, Hash, Structural)]
pub struct AudioVolumeLevel {
    value: u8,
}

impl AudioVolumeLevel {
    #[verifier::type_invariant]
    spec fn in_range(self) -> bool {
        self.value <= 100
    }

    /// The number.
    pub closed spec fn value(&self) -> u8 {
        self.value
    }

    /// The value with a number.
    pub closed spec fn of(value: u8) -> AudioVolumeLevel {
        AudioVolumeLevel { value }
    }

    /// Numbers and values correspond one to one.
    pub proof fn number_and_value(self, value: u8)
        ensures
            AudioVolumeLevel::of(value).value() == value,
            AudioVolumeLevel::of(self.value()) == self,
    {
    }

    /// The number.
    pub fn get(&self) -> (value: u8)
        ensures
            value == self.value(),
            self.value() <= 100,
    {
        proof {
            use_type_invariant(self);
        }
        self.value
    }

    /// Accept a number in the range of the type.
    pub fn try_from(value: u8) -> (r: Result<AudioVolumeLevel, Error>)
        ensures
            if value <= 100 {
                r matches Ok(v) && v.value() == value
            } else {
                r matches Err(e) && e@ == no_such("AudioVolumeLevel"@, value)
            },
    {
        if value > 100 {
            Err(invalid_value("AudioVolumeLevel", value))
        } else {
            Ok(AudioVolumeLevel { value })
        }
    }
}

impl OperandEncodable for AudioVolumeLevel {
    open spec fn valid(&self) -> bool {
        self.value() <= 100
    }

    open spec fn encoded(&self) -> Seq<u8> {
        seq![self.value()]
    }

    open spec fn lengths() -> RangeView {
        RangeView::AtLeast(1)
    }

    open spec fn decoded(bytes: Seq<u8>) -> Result<Self, ErrorView> {
        if bytes.len() < 1 {
            Err(too_short(1, bytes))
        } else {
            let value = bytes[0];
            if value <= 100 {
                Ok(AudioVolumeLevel::of(value))
            } else {
                Err(no_such("AudioVolumeLevel"@, value))
            }
        }
    }

    open spec fn delimited(&self) -> bool {
        true
    }

    open spec fn faithful(&self) -> bool {
        true
    }

    fn to_bytes(&self, buf: &mut Vec<u8>) {
        proof {
            use_type_invariant(self);
        }
        buf.push(self.value);
    }

    fn len(&self) -> (n: usize) {
        1
    }

    fn expected_len() -> (r: Range) {
        Range::AtLeast(1)
    }

    fn try_from_bytes(bytes: &[u8]) -> (r: Result<Self, Error>) {
        match need(1, bytes) {
            Err(e) => Err(e),
            Ok(()) => AudioVolumeLevel::try_from(bytes[0]),
        }
    }

    proof fn read_back(&self, rest: Seq<u8>) {
        assert((self.encoded() + rest)[0] == self.encoded()[0]);
    }
}

/// An operand that may be left out at the end of a message.
impl<T: OperandEncodable> OperandEncodable for Option<T> {
    open spec fn valid(&self) -> bool {
        self matches Some(x) ==> x.valid()
    }

    open spec fn encoded(&self) -> Seq<u8> {
        match self {
            Some(x) => x.encoded(),
            None => Seq::empty(),
        }
    }

    open spec fn lengths() -> RangeView {
        RangeView::AtLeast(0)
    }

    open spec fn decoded(bytes: Seq<u8>) -> Result<Self, ErrorView> {
        if bytes.len() == 0 {
            Ok(None)
        } else {
            match T::decoded(bytes) {
                Ok(x) => Ok(Some(x)),
                Err(e) => Err(e),
            }
        }
    }

    open spec fn delimited(&self) -> bool {
        self matches Some(x) && x.delimited()
    }

    open spec fn faithful(&self) -> bool {
        self matches Some(x) ==> x.faithful() && x.encoded().len() > 0
    }

    fn to_bytes(&self, buf: &mut Vec<u8>) {
        if let Some(x) = self {
            x.to_bytes(buf);
        }
    }

    fn len(&self) -> (n: usize) {
        match self {
            Some(x) => x.len(),
            None => 0,
        }
    }

    fn expected_len() -> (r: Range) {
        Range::AtLeast(0)
    }

    fn try_from_bytes(bytes: &[u8]) -> (r: Result<Self, Error>) {
        if bytes.len() == 0 {
            Ok(None)
        } else {
            match T::try_from_bytes(bytes) {
                Ok(x) => Ok(Some(x)),
                Err(e) => Err(e),
            }
        }
    }

    proof fn read_back(&self, rest: Seq<u8>) {
        if let Some(x) = self {
            x.read_back(rest);
        }
    }
}

} // verus!
