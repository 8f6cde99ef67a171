//! What can go wrong, and with which values.

use vstd::prelude::*;

verus! {

/// The values that a quantity may have.
#[derive(Debug, Clone, PartialEq, Eq)]
pub enum Range {
    AtMost(usize),
    AtLeast(usize),
    Only(Vec<usize>),
}

/// The mathematical value of a [`Range`].
pub enum RangeView {
    AtMost(usize),
    AtLeast(usize),
    Only(Seq<usize>),
}

impl View for Range {
    type V = RangeView;

    open spec fn view(&self) -> RangeView {
        match self {
            Range::AtMost(n) => RangeView::AtMost(*n),
            Range::AtLeast(n) => RangeView::AtLeast(*n),
            Range::Only(ns) => RangeView::Only(ns@),
        }
    }
}

impl RangeView {
    /// Whether a value lies in the range.
    pub open spec fn admits(self, n: nat) -> bool {
        match self {
            RangeView::AtMost(max) => n <= max,
            RangeView::AtLeast(min) => min <= n,
            RangeView::Only(ns) => n <= usize::MAX && ns.contains(n as usize),
        }
    }

    /// The range with every bound raised by `offset`.
    pub open spec fn shifted(self, offset: usize) -> RangeView {
        match self {
            RangeView::AtMost(n) => RangeView::AtMost(sat_sum(n, offset)),
            RangeView::AtLeast(n) => RangeView::AtLeast(sat_sum(n, offset)),
            RangeView::Only(ns) => RangeView::Only(ns.map_values(|n: usize| sat_sum(n, offset))),
        }
    }
}

/// The sum of two sizes, capped at the largest size.
pub open spec fn sat_sum(a: usize, b: usize) -> usize {
    if a + b > usize::MAX {
        usize::MAX
    } else {
        (a + b) as usize
    }
}

/// How a transmission failed.
#[derive(Debug, Copy, Clone, PartialEq, Eq, Hash, Structural)]
pub enum TxError {
    ArbLost,
    Nack,
    LowDrive,
    UnknownError,
    MaxRetries,
    Aborted,
    Timeout,
}

/// How a reception failed.
#[derive(Debug, Copy, Clone, PartialEq, Eq, Hash, Structural)]
pub enum RxError {
    Timeout,
    FeatureAbort,
    Aborted,
}

/// The errors of this library.
#[derive(Debug, Clone, PartialEq, Eq)]
pub enum Error {
    /// A quantity is not in the range it has to be in.
    OutOfRange { expected: Range, got: usize, quantity: &'static str },
    /// A number stands for no value of a type.
    InvalidValueForType { ty: &'static str, value: String },
    /// Data from the kernel makes no sense.
    InvalidData,
    /// Nothing came in time.
    Timeout,
    /// The operation was aborted.
    Abort,
    /// The device has no logical address.
    NoLogicalAddress,
    /// The device is gone.
    Disconnected,
    /// The device cannot do this.
    Unsupported,
    /// The kernel's error number.
    SystemError(i32),
    TxError(TxError),
    RxError(RxError),
    UnknownError(String),
}

/// The mathematical value of an [`Error`].
pub enum ErrorView {
    OutOfRange { expected: RangeView, got: usize, quantity: Seq<char> },
    InvalidValueForType { ty: Seq<char>, value: Seq<char> },
    InvalidData,
    Timeout,
    Abort,
    NoLogicalAddress,
    Disconnected,
    Unsupported,
    SystemError(i32),
    TxError(TxError),
    RxError(RxError),
    UnknownError(Seq<char>),
}

impl View for Error {
    type V = ErrorView;

    open spec fn view(&self) -> ErrorView {
        match self {
            Error::OutOfRange { expected, got, quantity } => ErrorView::OutOfRange {
                expected: expected@,
                got: *got,
                quantity: quantity@,
            },
            Error::InvalidValueForType { ty, value } => ErrorView::InvalidValueForType {
                ty: ty@,
                value: value@,
            },
            Error::InvalidData => ErrorView::InvalidData,
            Error::Timeout => ErrorView::Timeout,
            Error::Abort => ErrorView::Abort,
            Error::NoLogicalAddress => ErrorView::NoLogicalAddress,
            Error::Disconnected => ErrorView::Disconnected,
            Error::Unsupported => ErrorView::Unsupported,
            Error::SystemError(e) => ErrorView::SystemError(*e),
            Error::TxError(e) => ErrorView::TxError(*e),
            Error::RxError(e) => ErrorView::RxError(*e),
            Error::UnknownError(s) => ErrorView::UnknownError(s@),
        }
    }
}

/// The mathematical value of a result whose error is an [`Error`].
pub open spec fn outcome<T>(r: Result<T, Error>) -> Result<T, ErrorView> {
    match r {
        Ok(v) => Ok(v),
        Err(e) => Err(e@),
    }
}

/// The error for a count of bytes outside a range.
pub open spec fn bad_length(expected: RangeView, got: nat) -> ErrorView {
    ErrorView::OutOfRange { expected, got: got as usize, quantity: "bytes"@ }
}

impl ErrorView {
    /// The error as seen by a reader who started `offset` bytes earlier: counts of bytes grow by
    /// `offset`, everything else stays.
    pub open spec fn shifted(self, offset: usize) -> ErrorView {
        match self {
            ErrorView::OutOfRange { expected, got, quantity } if quantity == "bytes"@ =>
                ErrorView::OutOfRange {
                    expected: expected.shifted(offset),
                    got: sat_sum(got, offset),
                    quantity,
                },
            _ => self,
        }
    }
}

fn sat_add(a: usize, b: usize) -> (r: usize)
    ensures
        r == sat_sum(a, b),
{
    match a.checked_add(b) {
        Some(r) => r,
        None => usize::MAX,
    }
}

impl Range {
    /// Whether a value lies in the range.
    pub fn admits(&self, n: usize) -> (r: bool)
        ensures
            r == self@.admits(n as nat),
    {
        match self {
            Range::AtMost(max) => n <= *max,
            Range::AtLeast(min) => *min <= n,
            Range::Only(ns) => {
                let mut i: usize = 0;
                while i < ns.len()
                    invariant
                        self@ == RangeView::Only(ns@),
                        i <= ns.len(),
                        forall|k: int| 0 <= k < i ==> ns@[k] != n,
                    decreases ns.len() - i,
                {
                    if ns[i] == n {
                        assert(ns@.contains(n));
                        return true;
                    }
                    i += 1;
                }
                false
            },
        }
    }

    /// Accept a value in the range, and report any other one.
    pub fn check(self, got: usize, quantity: &'static str) -> (r: Result<(), Error>)
        ensures
            outcome(r) == (if self@.admits(got as nat) {
                Ok(())
            } else {
                Err(ErrorView::OutOfRange { expected: self@, got, quantity: quantity@ })
            }),
    {
        if self.admits(got) {
            Ok(())
        } else {
            Err(Error::OutOfRange { expected: self, got, quantity })
        }
    }

    /// The range with every bound raised by `offset`.
    pub fn shift(self, offset: usize) -> (r: Range)
        ensures
            r@ == self@.shifted(offset),
    {
        match self {
            Range::AtMost(n) => Range::AtMost(sat_add(n, offset)),
            Range::AtLeast(n) => Range::AtLeast(sat_add(n, offset)),
            Range::Only(ns) => {
                let mut out: Vec<usize> = Vec::new();
                let mut i: usize = 0;
                while i < ns.len()
                    invariant
                        i <= ns.len(),
                        out@ == ns@.take(i as int).map_values(|n: usize| sat_sum(n, offset)),
                    decreases ns.len() - i,
                {
                    out.push(sat_add(ns[i], offset));
                    proof {
                        assert(ns@.take(i + 1) =~= ns@.take(i as int).push(ns@[i as int]));
                    }
                    i += 1;
                }
                proof {
                    assert(ns@.take(i as int) =~= ns@);
                }
                Range::Only(out)
            },
        }
    }
}

impl Error {
    /// The error as seen by a reader who started `offset` bytes earlier.
    pub fn shift(self, offset: usize) -> (r: Error)
        ensures
            r@ == self@.shifted(offset),
    {
        match self {
            Error::OutOfRange { expected, got, quantity } => {
                if str_eq(quantity, "bytes") {
                    Error::OutOfRange {
                        expected: expected.shift(offset),
                        got: sat_add(got, offset),
                        quantity,
                    }
                } else {
                    Error::OutOfRange { expected, got, quantity }
                }
            },
            e => e,
        }
    }
}

/// Whether two strings are the same.
pub fn str_eq(a: &str, b: &str) -> (r: bool)
    ensures
        r == (a@ == b@),
{
    a.to_owned() == b.to_owned()
}

/// What lies in a range: all up to a bound, all from a bound on, or just what is listed.
pub proof fn ranges_have_bounds(bound: usize, listed: Seq<usize>, n: nat)
    ensures
        RangeView::AtMost(bound).admits(n) <==> n <= bound,
        RangeView::AtLeast(bound).admits(n) <==> n >= bound,
        RangeView::Only(listed).admits(n) <==> exists|i: int|
            0 <= i < listed.len() && #[trigger] listed[i] == n,
{
    if RangeView::Only(listed).admits(n) {
        let i = listed.index_of(n as usize);
        assert(listed[i] == n);
    }
}

/// A range that is moved admits what the range admits, moved as far.
pub proof fn ranges_move_with_their_values(range: RangeView, offset: usize, n: nat)
    requires
        n + offset <= usize::MAX,
        match range {
            RangeView::AtMost(bound) => bound + offset <= usize::MAX,
            RangeView::AtLeast(bound) => bound + offset <= usize::MAX,
            RangeView::Only(listed) => forall|i: int|
                0 <= i < listed.len() ==> #[trigger] listed[i] + offset <= usize::MAX,
        },
    ensures
        range.shifted(offset).admits(n + offset as nat) <==> range.admits(n),
        range is AtMost <==> range.shifted(offset) is AtMost,
        range is AtLeast <==> range.shifted(offset) is AtLeast,
{
    if let RangeView::Only(listed) = range {
        let moved = range.shifted(offset)->Only_0;
        ranges_have_bounds(0, listed, n);
        ranges_have_bounds(0, moved, n + offset as nat);
        assert(forall|i: int|
            0 <= i < listed.len() ==> moved[i] == #[trigger] listed[i] + offset);
        assert(forall|i: int|
            0 <= i < moved.len() ==> #[trigger] moved[i] == listed[i] + offset);
    }
}

/// An error about a count of bytes is moved as a whole, and all other errors stay.
pub proof fn counts_of_bytes_move(expected: RangeView, got: usize, offset: usize, e: ErrorView)
    requires
        got + offset <= usize::MAX,
        !(e matches ErrorView::OutOfRange { quantity, .. } && quantity == "bytes"@),
    ensures
        bad_length(expected, got as nat).shifted(offset) == bad_length(
            expected.shifted(offset),
            (got + offset) as nat,
        ),
        e.shifted(offset) == e,
{
}

} // verus!
