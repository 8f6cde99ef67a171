//! Operands of a varying number of elements.

use vstd::prelude::*;
use vstd::string::StringSliceAdditionalSpecFns;

use crate::codec::OperandEncodable;
use crate::error::{bad_length, Error, ErrorView, Range, RangeView};

verus! {

/// The most bytes that a message carries behind its opcode.
pub const CAPACITY: usize = 14;

/// How many elements a buffer of a given size takes: never more than a message can carry.
pub open spec fn room(size: usize) -> usize {
    if size <= CAPACITY {
        size
    } else {
        CAPACITY
    }
}

fn room_of(size: usize) -> (r: usize)
    ensures
        r == room(size),
{
    if size <= CAPACITY {
        size
    } else {
        CAPACITY
    }
}

/// Something that a buffer holds.
pub trait Element: Copy + Sized {
    /// What stands behind the last element of a buffer.
    spec fn blank() -> Self;

    /// What stands behind the last element of a buffer.
    fn blank_element() -> (r: Self)
        ensures
            r == Self::blank(),
    ;
}

impl Element for u8 {
    open spec fn blank() -> Self {
        0
    }

    fn blank_element() -> (r: Self) {
        0
    }
}

/// Up to `S` elements.
#[derive(Debug, PartialEq, Eq, Hash)]
pub struct BoundedBufferOperand<const S: usize, T: Element> {
    buffer: [T; 14],
    len: usize,
}

impl<const S: usize, T: Element> Clone for BoundedBufferOperand<S, T> {
    fn clone(&self) -> (r: Self)
        ensures
            r == *self,
    {
        *self
    }
}

impl<const S: usize, T: Element> Copy for BoundedBufferOperand<S, T> {

}

/// As many bytes as a message can carry.
pub type BufferOperand = BoundedBufferOperand<14, u8>;

impl<const S: usize, T: Element> BoundedBufferOperand<S, T> {
    /// The elements.
    pub closed spec fn view(&self) -> Seq<T> {
        self.buffer@.take(self.len as int)
    }

    /// There are no more elements than the buffer takes, and nothing behind them.
    #[verifier::type_invariant]
    pub closed spec fn wf(&self) -> bool {
        &&& self.len <= room(S)
        &&& forall|i: int| self.len <= i < CAPACITY ==> self.buffer@[i] == T::blank()
    }

    /// The buffer with some elements.
    pub closed spec fn of(elements: Seq<T>) -> Self {
        choose|b: Self| b.wf() && b@ == elements
    }

    /// The elements tell a buffer apart from others.
    pub proof fn elements_identify(a: Self, b: Self)
        requires
            a.wf(),
            b.wf(),
            a@ == b@,
        ensures
            a == b,
    {
        assert(a@.len() == a.len && b@.len() == b.len);
        assert forall|i: int| 0 <= i < 14 implies a.buffer[i] == b.buffer[i] by {
            if i < a.len {
                assert(a@[i] == a.buffer@[i]);
                assert(b@[i] == b.buffer@[i]);
            } else {
                assert(a.buffer@[i] == T::blank());
                assert(b.buffer@[i] == T::blank());
            }
        }
        assert(a.buffer =~= b.buffer);
    }

    /// A buffer is the one with its elements, of which there are no more than it takes.
    pub proof fn of_elements(self)
        requires
            self.wf(),
        ensures
            Self::of(self@) == self,
            self@.len() <= room(S),
    {
        let c = Self::of(self@);
        assert(c.wf() && c@ == self@);
        Self::elements_identify(c, self);
        assert(self@.len() == self.len);
    }

    /// How many elements there are.
    pub fn count(&self) -> (n: usize)
        ensures
            n == self@.len(),
            n <= room(S),
    {
        proof {
            use_type_invariant(self);
        }
        self.len
    }

    /// One of the elements.
    pub fn element(&self, i: usize) -> (r: T)
        requires
            i < self@.len(),
        ensures
            r == self@[i as int],
    {
        proof {
            use_type_invariant(self);
        }
        self.buffer[i]
    }

    /// All places of the buffer, those behind the last element blank.
    pub fn padded(&self) -> (r: [T; 14])
        ensures
            r@.take(self@.len() as int) == self@,
            forall|i: int| self@.len() <= i < CAPACITY ==> r@[i] == T::blank(),
    {
        proof {
            use_type_invariant(self);
        }
        self.buffer
    }

    /// A buffer without elements.
    pub fn new() -> (r: Self)
        ensures
            r.wf(),
            r@ == Seq::<T>::empty(),
    {
        BoundedBufferOperand { buffer: [T::blank_element(); 14], len: 0 }
    }

    /// Add an element, where there is room.
    pub fn push(&mut self, e: T)
        requires
            old(self)@.len() < room(S),
        ensures
            final(self).wf(),
            final(self)@ == old(self)@.push(e),
    {
        proof {
            use_type_invariant(&*self);
        }
        let n: usize = self.len;
        let mut buffer: [T; 14] = self.buffer;
        buffer[n] = e;
        *self = BoundedBufferOperand { buffer, len: n + 1 };
    }

    /// There is a buffer for any elements that fit.
    pub proof fn of_fitting(elements: Seq<T>)
        requires
            elements.len() <= room(S),
        ensures
            Self::of(elements).wf(),
            Self::of(elements)@ == elements,
        decreases elements.len(),
    {
        let n = elements.len();
        let b: Self = if n == 0 {
            BoundedBufferOperand {
                buffer: vstd::array::spec_array_fill_for_copy_type::<T, 14>(T::blank()),
                len: 0,
            }
        } else {
            let before = Self::of(elements.drop_last());
            BoundedBufferOperand {
                buffer: vstd::array::spec_array_update(before.buffer, n - 1, elements.last()),
                len: n as usize,
            }
        };
        if n > 0 {
            let before = Self::of(elements.drop_last());
            Self::of_fitting(elements.drop_last());
            before.of_elements();
            assert(before@.len() == before.len);
            assert forall|i: int| 0 <= i < n implies b.buffer@[i] == elements[i] by {
                if i < n - 1 {
                    assert(before@[i] == before.buffer@[i]);
                }
            }
        }
        assert(b.wf());
        assert(b@ =~= elements);
    }

    /// Take some elements, if there are not too many.
    pub fn try_from(elements: &[T]) -> (r: Result<Self, Error>)
        ensures
            if elements@.len() <= room(S) {
                r matches Ok(b) && b.wf() && b@ == elements@ && b == Self::of(elements@)
            } else {
                r matches Err(e) && e@ == (ErrorView::OutOfRange {
                    expected: RangeView::AtMost(room(S)),
                    got: elements@.len() as usize,
                    quantity: "elements"@,
                })
            },
    {
        let max: usize = room_of(S);
        if elements.len() > max {
            return Err(
                Error::OutOfRange {
                    expected: Range::AtMost(max),
                    got: elements.len(),
                    quantity: "elements",
                },
            );
        }
        let mut b: Self = BoundedBufferOperand::new();
        let mut i: usize = 0;
        while i < elements.len()
            invariant
                i <= elements@.len() <= max,
                max == room(S),
                b.wf(),
                b@ == elements@.take(i as int),
            decreases elements@.len() - i,
        {
            b.push(elements[i]);
            i += 1;
        }
        proof {
            b.of_elements();
        }
        Ok(b)
    }
}

impl<const S: usize, T: Element> Default for BoundedBufferOperand<S, T> {
    fn default() -> (r: Self)
        ensures
            r.wf(),
            r@ == Seq::<T>::empty(),
            r == Self::of(Seq::empty()),
    {
        let r: Self = BoundedBufferOperand::new();
        proof {
            r.of_elements();
        }
        r
    }
}

impl<const S: usize> BoundedBufferOperand<S, u8> {
    /// Take the bytes of a string, if there are not too many.
    pub fn from_str(s: &str) -> (r: Result<Self, Error>)
        ensures
            if s.spec_bytes().len() <= room(S) {
                r matches Ok(b) && b.wf() && b@ == s.spec_bytes()
            } else {
                r matches Err(e) && e@ == bad_length(
                    RangeView::AtMost(room(S)),
                    s.spec_bytes().len(),
                )
            },
    {
        match Range::AtMost(room_of(S)).check(s.as_bytes().len(), "bytes") {
            Err(e) => Err(e),
            Ok(()) => Self::try_from(s.as_bytes()),
        }
    }
}

/// Elements that all take the same number of bytes, and that any such bytes give.
pub trait Chunk: Element {
    /// How many bytes an element takes.
    spec fn width() -> nat;

    /// The bytes of the element.
    spec fn chunk(&self) -> Seq<u8>;

    /// The element with some bytes.
    spec fn of_chunk(bytes: Seq<u8>) -> Self;

    /// How many bytes an element takes.
    fn chunk_width() -> (n: usize)
        ensures
            n == Self::width(),
            0 < n <= 3,
    ;

    /// Append the bytes of the element to a buffer.
    fn put(&self, buf: &mut Vec<u8>)
        ensures
            final(buf)@ == old(buf)@ + self.chunk(),
    ;

    /// The element whose bytes start at a place.
    fn get(bytes: &[u8], at: usize) -> (r: Self)
        requires
            at + Self::width() <= bytes@.len(),
        ensures
            r == Self::of_chunk(bytes@.subrange(at as int, at + Self::width())),
    ;

    /// Bytes and elements correspond one to one.
    proof fn chunk_and_back(&self)
        ensures
            0 < Self::width() <= 3,
            self.chunk().len() == Self::width(),
            Self::of_chunk(self.chunk()) == *self,
    ;
}

impl Chunk for u8 {
    open spec fn width() -> nat {
        1
    }

    open spec fn chunk(&self) -> Seq<u8> {
        seq![*self]
    }

    open spec fn of_chunk(bytes: Seq<u8>) -> Self {
        bytes[0]
    }

    fn chunk_width() -> (n: usize) {
        1
    }

    fn put(&self, buf: &mut Vec<u8>) {
        buf.push(*self);
    }

    fn get(bytes: &[u8], at: usize) -> (r: Self) {
        bytes[at]
    }

    proof fn chunk_and_back(&self) {
    }
}

/// The bytes of some elements, one behind the other.
pub open spec fn joined<T: Chunk>(elements: Seq<T>) -> Seq<u8>
    decreases elements.len(),
{
    if elements.len() == 0 {
        Seq::empty()
    } else {
        joined(elements.drop_last()) + elements.last().chunk()
    }
}

/// The elements in some bytes.
pub open spec fn split<T: Chunk>(bytes: Seq<u8>) -> Seq<T> {
    Seq::new(
        bytes.len() / T::width(),
        |i: int| T::of_chunk(bytes.subrange(i * T::width(), (i + 1) * T::width())),
    )
}

/// The bytes of an element are at its place among those of all elements.
proof fn joined_at<T: Chunk>(elements: Seq<T>, i: int)
    requires
        0 <= i < elements.len(),
    ensures
        joined(elements).len() == elements.len() * T::width(),
        (i + 1) * T::width() <= joined(elements).len(),
        joined(elements).subrange(i * T::width(), (i + 1) * T::width()) == elements[i].chunk(),
    decreases elements.len(),
{
    let w = T::width();
    let init = elements.drop_last();
    let n = elements.len();
    elements.last().chunk_and_back();
    joined_len(init);
    joined_len(elements);
    assert((i + 1) * w <= n * w) by (nonlinear_arith)
        requires
            i + 1 <= n,
            w >= 0,
    ;
    assert(i * w + w == (i + 1) * w) by (nonlinear_arith);
    assert((n - 1) * w + w == n * w) by (nonlinear_arith);
    if i < n - 1 {
        joined_at(init, i);
        assert(joined(elements).subrange(i * w, (i + 1) * w) =~= joined(init).subrange(
            i * w,
            (i + 1) * w,
        ));
    } else {
        assert(joined(elements).subrange(i * w, (i + 1) * w) =~= elements.last().chunk());
    }
}

/// Some elements take as many bytes as each takes, times their number.
proof fn joined_len<T: Chunk>(elements: Seq<T>)
    ensures
        joined(elements).len() == elements.len() * T::width(),
    decreases elements.len(),
{
    let w = T::width();
    let n = elements.len();
    if n > 0 {
        elements.last().chunk_and_back();
        joined_len(elements.drop_last());
        assert((n - 1) * w + w == n * w) by (nonlinear_arith);
    } else {
        assert(0 * w == 0) by (nonlinear_arith);
    }
}

/// Splitting the bytes of some elements gives the elements.
proof fn split_joined<T: Chunk>(elements: Seq<T>)
    requires
        0 < T::width(),
    ensures
        split::<T>(joined(elements)) == elements,
        joined(elements).len() % T::width() == 0,
{
    let w = T::width();
    let n = elements.len();
    joined_len(elements);
    assert((n * w) / w == n && (n * w) % w == 0) by (nonlinear_arith)
        requires
            w > 0,
    ;
    assert forall|i: int| 0 <= i < n implies split::<T>(joined(elements))[i] == elements[i] by {
        joined_at(elements, i);
        elements[i].chunk_and_back();
    }
    assert(split::<T>(joined(elements)) =~= elements);
}

/// How many bytes a buffer takes at most.
pub open spec fn most<const S: usize, T: Chunk>() -> usize {
    (room(S) * T::width()) as usize
}

/// Elements fill the rest of a message, which must not end amid an element.
impl<const S: usize, T: Chunk> OperandEncodable for BoundedBufferOperand<S, T> {
    open spec fn valid(&self) -> bool {
        self.wf()
    }

    open spec fn encoded(&self) -> Seq<u8> {
        joined(self@)
    }

    open spec fn lengths() -> RangeView {
        RangeView::AtMost(most::<S, T>())
    }

    open spec fn decoded(bytes: Seq<u8>) -> Result<Self, ErrorView> {
        if bytes.len() > most::<S, T>() {
            Err(bad_length(RangeView::AtMost(most::<S, T>()), bytes.len()))
        } else if bytes.len() % T::width() != 0 {
            Err(
                bad_length(
                    RangeView::AtLeast((bytes.len() - bytes.len() % T::width() + T::width()) as usize),
                    bytes.len(),
                ),
            )
        } else {
            Ok(Self::of(split(bytes)))
        }
    }

    open spec fn delimited(&self) -> bool {
        false
    }

    open spec fn faithful(&self) -> bool {
        true
    }

    fn to_bytes(&self, buf: &mut Vec<u8>) {
        proof {
            use_type_invariant(self);
        }
        let ghost before = buf@;
        let mut i: usize = 0;
        assert(self@.take(0) =~= Seq::<T>::empty());
        while i < self.len
            invariant
                self.wf(),
                i <= self.len,
                buf@ == before + joined(self@.take(i as int)),
            decreases self.len - i,
        {
            self.buffer[i].put(buf);
            proof {
                assert(self@.take(i + 1).drop_last() =~= self@.take(i as int));
                assert(self@.take(i + 1).last() == self.buffer@[i as int]);
            }
            i += 1;
        }
        assert(self@.take(i as int) =~= self@);
    }

    fn len(&self) -> (n: usize) {
        proof {
            use_type_invariant(self);
            joined_len(self@);
            T::blank().chunk_and_back();
            assert(self.len * T::width() <= 14 * 3) by (nonlinear_arith)
                requires
                    self.len <= 14,
                    0 < T::width() <= 3,
            ;
        }
        let w: usize = T::chunk_width();
        self.len * w
    }

    fn expected_len() -> (r: Range) {
        let w: usize = T::chunk_width();
        let n: usize = room_of(S);
        proof {
            assert(n * w <= 14 * 3) by (nonlinear_arith)
                requires
                    n <= 14,
                    w <= 3,
            ;
        }
        Range::AtMost(n * w)
    }

    fn try_from_bytes(bytes: &[u8]) -> (r: Result<Self, Error>) {
        match Self::expected_len().check(bytes.len(), "bytes") {
            Err(e) => return Err(e),
            Ok(()) => {},
        }
        let w: usize = T::chunk_width();
        let count: usize = bytes.len();
        proof {
            assert(room(S) * w <= 14 * 3) by (nonlinear_arith)
                requires
                    room(S) <= 14,
                    w <= 3,
            ;
            assert(count % w <= count) by (nonlinear_arith)
                requires
                    w > 0,
            ;
        }
        if count % w != 0 {
            return Err(
                Error::OutOfRange {
                    expected: Range::AtLeast(count - count % w + w),
                    got: count,
                    quantity: "bytes",
                },
            );
        }
        let n: usize = count / w;
        let mut b: Self = BoundedBufferOperand::new();
        let mut i: usize = 0;
        while i < n
            invariant
                w == T::width(),
                0 < w <= 3,
                count == bytes@.len(),
                count <= room(S) * w,
                n == count / w,
                i <= n,
                b@ == split::<T>(bytes@).take(i as int),
                b.wf(),
            decreases n - i,
        {
            proof {
                assert((i + 1) * w <= count) by (nonlinear_arith)
                    requires
                        i + 1 <= n,
                        n == count / w,
                        w > 0,
                ;
                assert(i * w + w == (i + 1) * w) by (nonlinear_arith);
                assert(i < room(S)) by (nonlinear_arith)
                    requires
                        (i + 1) * w <= count,
                        count <= room(S) * w,
                        w > 0,
                ;
            }
            b.push(T::get(bytes, i * w));
            i += 1;
        }
        proof {
            assert(split::<T>(bytes@).len() == n);
            assert(split::<T>(bytes@).take(n as int) =~= split::<T>(bytes@));
            b.of_elements();
            joined_split::<T>(bytes@);
        }
        Ok(b)
    }

    proof fn read_back(&self, rest: Seq<u8>) {
        assert(self.encoded() + rest =~= self.encoded());
        self.of_elements();
        let w = T::width();
        T::blank().chunk_and_back();
        split_joined(self@);
        joined_len(self@);
        let (n, m) = (self@.len(), room(S) as nat);
        assert(n * w <= m * w && m * w <= 14 * 3) by (nonlinear_arith)
            requires
                n <= m <= 14,
                0 < w <= 3,
        ;
    }
}

/// The elements in some bytes take all of them, where the bytes do not end amid an element.
proof fn joined_split<T: Chunk>(bytes: Seq<u8>)
    requires
        0 < T::width(),
        bytes.len() % T::width() == 0,
    ensures
        joined(split::<T>(bytes)).len() == bytes.len(),
{
    let w = T::width();
    joined_len(split::<T>(bytes));
    assert((bytes.len() / w) * w == bytes.len()) by (nonlinear_arith)
        requires
            w > 0,
            bytes.len() % w == 0,
    ;
}

} // verus!
