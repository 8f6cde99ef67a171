//! How operands are laid out in the bytes of a message.

use vstd::prelude::*;

use crate::error::{bad_length, outcome, sat_sum, Error, ErrorView, Range, RangeView};
use crate::text::{decimal, to_decimal};

verus! {

/// Something that messages carry.
pub trait OperandEncodable: Sized {
    /// What holds of every value of the type.
    spec fn valid(&self) -> bool;

    /// The bytes of the value.
    spec fn encoded(&self) -> Seq<u8>;

    /// The counts of bytes that a decoder accepts as a start.
    spec fn lengths() -> RangeView;

    /// What a decoder makes of bytes that begin with a value.
    spec fn decoded(bytes: Seq<u8>) -> Result<Self, ErrorView>;

    /// Whether the value ends by itself, so that a decoder ignores what follows it.
    spec fn delimited(&self) -> bool;

    /// Whether the bytes hold all of the value, with its parts told apart.
    spec fn faithful(&self) -> bool;

    /// Append the bytes of the value to a buffer.
    fn to_bytes(&self, buf: &mut Vec<u8>)
        ensures
            self.valid(),
            final(buf)@ == old(buf)@ + self.encoded(),
    ;

    /// How many bytes the value takes.
    fn len(&self) -> (n: usize)
        requires
            self.encoded().len() <= usize::MAX,
        ensures
            n == self.encoded().len(),
    ;

    /// The counts of bytes that a decoder accepts as a start.
    fn expected_len() -> (r: Range)
        ensures
            r@ == Self::lengths(),
    ;

    /// Read a value from the front of some bytes.
    fn try_from_bytes(bytes: &[u8]) -> (r: Result<Self, Error>)
        ensures
            outcome(r) == Self::decoded(bytes@),
            r matches Ok(v) ==> v.valid() && v.encoded().len() <= bytes@.len(),
    ;

    /// Reading what was written gives back the value. What follows the value is ignored where the
    /// value ends by itself.
    proof fn read_back(&self, rest: Seq<u8>)
        requires
            self.valid(),
            self.faithful(),
            self.delimited() || rest.len() == 0,
        ensures
            Self::decoded(self.encoded() + rest) == Ok::<Self, ErrorView>(*self),
            start(Self::lengths()).admits(self.encoded().len() + rest.len()),
            least(Self::lengths()) <= self.encoded().len(),
    ;
}

/// The bytes of an operand. It is opaque, as are the four functions below, so that a message with
/// many kinds of operands does not unfold them all; `reveal` shows what it stands for.
#[verifier::opaque]
pub open spec fn wire<T: OperandEncodable>(x: T) -> Seq<u8> {
    x.encoded()
}

/// What a decoder makes of bytes that begin with an operand.
#[verifier::opaque]
pub open spec fn parse<T: OperandEncodable>(bytes: Seq<u8>) -> Result<T, ErrorView> {
    T::decoded(bytes)
}

/// What holds of every value of an operand's type.
#[verifier::opaque]
pub open spec fn sound<T: OperandEncodable>(x: T) -> bool {
    x.valid()
}

/// Whether an operand ends by itself.
#[verifier::opaque]
pub open spec fn ends<T: OperandEncodable>(x: T) -> bool {
    x.delimited()
}

/// Whether the bytes of an operand hold all of it.
#[verifier::opaque]
pub open spec fn whole<T: OperandEncodable>(x: T) -> bool {
    x.faithful()
}

/// Append the bytes of an operand to a buffer.
pub fn emit<T: OperandEncodable>(x: &T, buf: &mut Vec<u8>)
    ensures
        sound(*x),
        final(buf)@ == old(buf)@ + wire(*x),
{
    proof {
        reveal(wire);
        reveal(sound);
    }
    x.to_bytes(buf);
}

/// How many bytes an operand takes.
pub fn width<T: OperandEncodable>(x: &T) -> (n: usize)
    requires
        wire(*x).len() <= usize::MAX,
    ensures
        n == wire(*x).len(),
{
    proof {
        reveal(wire);
    }
    x.len()
}

/// Read an operand from the front of some bytes.
pub fn read<T: OperandEncodable>(bytes: &[u8]) -> (r: Result<T, Error>)
    ensures
        outcome(r) == parse::<T>(bytes@),
        r matches Ok(v) ==> sound(v) && wire(v).len() <= bytes@.len(),
{
    proof {
        reveal(wire);
        reveal(parse);
        reveal(sound);
    }
    T::try_from_bytes(bytes)
}

/// Reading what was written gives back the operand.
pub proof fn parse_wire<T: OperandEncodable>(x: T, rest: Seq<u8>)
    requires
        sound(x),
        whole(x),
        ends(x) || rest.len() == 0,
    ensures
        parse::<T>(wire(x) + rest) == Ok::<T, ErrorView>(x),
{
    reveal(wire);
    reveal(parse);
    reveal(sound);
    reveal(ends);
    reveal(whole);
    x.read_back(rest);
}

/// The decoder's answer to too few bytes.
pub open spec fn too_short(min: usize, bytes: Seq<u8>) -> ErrorView {
    bad_length(RangeView::AtLeast(min), bytes.len())
}

/// The error for a number that stands for no value of a type.
pub open spec fn no_such(ty: Seq<char>, value: u8) -> ErrorView {
    ErrorView::InvalidValueForType { ty, value: decimal(value as nat) }
}

/// Report a number that stands for no value of a type.
pub fn invalid_value(ty: &'static str, value: u8) -> (e: Error)
    ensures
        e@ == no_such(ty@, value),
{
    Error::InvalidValueForType { ty, value: to_decimal(value as u64) }
}

/// Report too few bytes.
pub fn need(min: usize, bytes: &[u8]) -> (r: Result<(), Error>)
    ensures
        outcome(r) == (if min <= bytes@.len() {
            Ok::<(), ErrorView>(())
        } else {
            Err(too_short(min, bytes@))
        }),
{
    Range::AtLeast(min).check(bytes.len(), "bytes")
}

/// What is left of some bytes after the first `n`.
pub fn tail(bytes: &[u8], n: usize) -> (r: &[u8])
    requires
        n <= bytes@.len(),
    ensures
        r@ == bytes@.skip(n as int),
{
    vstd::slice::slice_subrange(bytes, n, bytes.len())
}

/// A value that is one of a list of numbers on the wire.
pub trait Coded: Sized {
    /// The number of the value.
    spec fn code(&self) -> u8;

    /// The value with a number, if there is one.
    spec fn with_code(code: u8) -> Option<Self>;

    /// The name of the type in error messages.
    spec fn label() -> Seq<char>;

    /// The number of the value.
    fn to_primitive(&self) -> (code: u8)
        ensures
            code == self.code(),
    ;

    /// The value with a number, if there is one.
    fn from_primitive(code: u8) -> (r: Option<Self>)
        ensures
            r == Self::with_code(code),
    ;

    /// The name of the type in error messages.
    fn type_label() -> (r: &'static str)
        ensures
            r@ == Self::label(),
    ;

    /// Numbers and values correspond one to one.
    proof fn one_to_one()
        ensures
            forall|v: Self| Self::with_code(#[trigger] v.code()) == Some(v),
            forall|c: u8| (#[trigger] Self::with_code(c)) matches Some(v) ==> v.code() == c,
    ;

    /// The value with a number, or the error for a number that stands for none.
    fn try_from_primitive(code: u8) -> (r: Result<Self, Error>)
        ensures
            outcome(r) == (match Self::with_code(code) {
                Some(v) => Ok(v),
                None => Err(no_such(Self::label(), code)),
            }),
    {
        match Self::from_primitive(code) {
            Some(v) => Ok(v),
            None => Err(invalid_value(Self::type_label(), code)),
        }
    }
}

/// The value with a number, or the error for a number that stands for none.
pub open spec fn decoded_code<T: Coded>(code: u8) -> Result<T, ErrorView> {
    match T::with_code(code) {
        Some(v) => Ok(v),
        None => Err(no_such(T::label(), code)),
    }
}

impl<T: Coded> OperandEncodable for T {
    open spec fn valid(&self) -> bool {
        true
    }

    open spec fn encoded(&self) -> Seq<u8> {
        seq![self.code()]
    }

    open spec fn lengths() -> RangeView {
        RangeView::AtLeast(1)
    }

    open spec fn decoded(bytes: Seq<u8>) -> Result<Self, ErrorView> {
        if bytes.len() < 1 {
            Err(too_short(1, bytes))
        } else {
            decoded_code(bytes[0])
        }
    }

    open spec fn delimited(&self) -> bool {
        true
    }

    open spec fn faithful(&self) -> bool {
        true
    }

    fn to_bytes(&self, buf: &mut Vec<u8>) {
        buf.push(self.to_primitive());
    }

    fn len(&self) -> (n: usize) {
        1
    }

    fn expected_len() -> (r: Range) {
        Range::AtLeast(1)
    }

    fn try_from_bytes(bytes: &[u8]) -> (r: Result<Self, Error>) {
        match need(1, bytes) {
            Err(e) => Err(e),
            Ok(()) => T::try_from_primitive(bytes[0]),
        }
    }

    proof fn read_back(&self, rest: Seq<u8>) {
        T::one_to_one();
        assert((self.encoded() + rest)[0] == self.code());
    }
}

/// The least count of bytes in a range of lengths.
pub open spec fn least(r: RangeView) -> usize {
    match r {
        RangeView::AtLeast(n) => n,
        RangeView::AtMost(_) => 0,
        RangeView::Only(ns) => if ns.len() > 0 { ns[0] } else { 0 },
    }
}

/// The least count of bytes in a range of lengths.
fn least_of(r: &Range) -> (n: usize)
    ensures
        n == least(r@),
{
    match r {
        Range::AtLeast(n) => *n,
        Range::AtMost(_) => 0,
        Range::Only(ns) => if ns.len() > 0 { ns[0] } else { 0 },
    }
}

/// A range of lengths in which only a least count is binding.
pub open spec fn start(r: RangeView) -> RangeView {
    match r {
        RangeView::AtMost(_) => RangeView::AtLeast(0),
        r => r,
    }
}

/// Two operands, one behind the other. Before either is read, the bytes have to be enough for both.
impl<A: OperandEncodable, B: OperandEncodable> OperandEncodable for (A, B) {
    open spec fn valid(&self) -> bool {
        self.0.valid() && self.1.valid()
    }

    open spec fn encoded(&self) -> Seq<u8> {
        self.0.encoded() + self.1.encoded()
    }

    open spec fn lengths() -> RangeView {
        start(B::lengths()).shifted(least(A::lengths()))
    }

    open spec fn decoded(bytes: Seq<u8>) -> Result<Self, ErrorView> {
        if !Self::lengths().admits(bytes.len()) {
            Err(bad_length(Self::lengths(), bytes.len()))
        } else {
            match A::decoded(bytes) {
                Err(e) => Err(e),
                Ok(a) => {
                    let n = a.encoded().len();
                    match B::decoded(bytes.skip(n as int)) {
                        Err(e) => Err(e.shifted(n as usize)),
                        Ok(b) => Ok((a, b)),
                    }
                },
            }
        }
    }

    open spec fn delimited(&self) -> bool {
        self.1.delimited()
    }

    open spec fn faithful(&self) -> bool {
        &&& self.0.faithful() && self.0.delimited() && self.1.faithful()
        &&& B::lengths() is Only ==> {
            &&& self.0.encoded().len() == least(A::lengths())
            &&& self.0.encoded().len() + self.1.encoded().len() <= usize::MAX
            &&& !self.1.delimited()
        }
    }

    fn to_bytes(&self, buf: &mut Vec<u8>) {
        self.0.to_bytes(buf);
        self.1.to_bytes(buf);
    }

    fn len(&self) -> (n: usize) {
        self.0.len() + self.1.len()
    }

    fn expected_len() -> (r: Range) {
        let a = A::expected_len();
        let b = match B::expected_len() {
            Range::AtMost(_) => Range::AtLeast(0),
            b => b,
        };
        b.shift(least_of(&a))
    }

    fn try_from_bytes(bytes: &[u8]) -> (r: Result<Self, Error>) {
        match Self::expected_len().check(bytes.len(), "bytes") {
            Err(e) => Err(e),
            Ok(()) => match A::try_from_bytes(bytes) {
                Err(e) => Err(e),
                Ok(a) => {
                    let n: usize = a.len();
                    match B::try_from_bytes(tail(bytes, n)) {
                        Err(e) => Err(e.shift(n)),
                        Ok(b) => Ok((a, b)),
                    }
                },
            },
        }
    }

    proof fn read_back(&self, rest: Seq<u8>) {
        let (a, b) = (self.0.encoded(), self.1.encoded());
        self.0.read_back(b + rest);
        self.1.read_back(rest);
        assert(self.encoded() + rest =~= a + (b + rest));
        assert((a + (b + rest)).skip(a.len() as int) =~= b + rest);
        let k = least(A::lengths());
        if let RangeView::Only(ns) = B::lengths() {
            let i = choose|i: int| 0 <= i < ns.len() && ns[i] == (b.len() + rest.len()) as usize;
            let shifted = ns.map_values(|n: usize| sat_sum(n, k));
            assert(shifted[i] == (a.len() + b.len() + rest.len()) as usize);
        }
    }
}

} // verus!
