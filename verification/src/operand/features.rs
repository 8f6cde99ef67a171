//! What a device says of its features.

use vstd::prelude::*;

use crate::codec::{decoded_code, too_short, Coded, OperandEncodable};
use crate::error::{bad_length, outcome, sat_sum, Error, ErrorView, Range, RangeView};
use crate::operand::bits::{DeviceFeatures1, RcProfileSource};
use crate::operand::buffer::BoundedBufferOperand;

verus! {

/// As many bytes as fit in a message beside the rest of the features.
pub type Extension = BoundedBufferOperand<10, u8>;

/// A byte and its extension, as they are sent: seven bits in each byte, with the highest bit set in
/// all of them but the last.
#[derive(Debug, Copy, Clone, PartialEq, Eq, Hash)]
pub struct Chain {
    pub first: u8,
    pub more: Extension,
}

/// Bytes with the highest bit set in all of them but the last.
pub open spec fn chained(bytes: Seq<u8>) -> Seq<u8> {
    Seq::new(
        bytes.len(),
        |i: int| (bytes[i] % 128 + (if i + 1 < bytes.len() { 128int } else { 0 })) as u8,
    )
}

/// How many bytes there are up to and with the first one whose highest bit is clear.
pub open spec fn chain_len(bytes: Seq<u8>) -> Option<nat>
    decreases bytes.len(),
{
    if bytes.len() == 0 {
        None
    } else if bytes[0] < 128 {
        Some(1)
    } else {
        match chain_len(bytes.skip(1)) {
            Some(n) => Some(n + 1),
            None => None,
        }
    }
}

/// The bytes without their highest bits.
pub open spec fn low_bits(bytes: Seq<u8>) -> Seq<u8> {
    bytes.map_values(|b: u8| (b % 128) as u8)
}

/// The first byte with a clear highest bit decides the length of a chain.
proof fn chain_ends(bytes: Seq<u8>, n: nat)
    requires
        0 < n <= bytes.len(),
        forall|i: int| 0 <= i < n - 1 ==> bytes[i] >= 128,
        bytes[n - 1] < 128,
    ensures
        chain_len(bytes) == Some(n),
    decreases n,
{
    if n > 1 {
        chain_ends(bytes.skip(1), (n - 1) as nat);
    }
}

/// Without a byte whose highest bit is clear, a chain does not end.
proof fn chain_goes_on(bytes: Seq<u8>)
    requires
        forall|i: int| 0 <= i < bytes.len() ==> bytes[i] >= 128,
    ensures
        chain_len(bytes) is None,
    decreases bytes.len(),
{
    if bytes.len() > 0 {
        chain_goes_on(bytes.skip(1));
    }
}

fn find_end(bytes: &[u8]) -> (r: Option<usize>)
    ensures
        match r {
            Some(n) => chain_len(bytes@) == Some(n as nat) && 0 < n <= bytes@.len(),
            None => chain_len(bytes@) is None,
        },
{
    let mut i: usize = 0;
    while i < bytes.len()
        invariant
            i <= bytes@.len(),
            forall|k: int| 0 <= k < i ==> bytes@[k] >= 128,
        decreases bytes@.len() - i,
    {
        if bytes[i] < 128 {
            proof {
                chain_ends(bytes@, (i + 1) as nat);
            }
            return Some(i + 1);
        }
        i += 1;
    }
    proof {
        chain_goes_on(bytes@);
    }
    None
}

impl Chain {
    /// The bytes that are chained.
    pub open spec fn all(self) -> Seq<u8> {
        seq![self.first] + self.more@
    }
}

impl OperandEncodable for Chain {
    open spec fn valid(&self) -> bool {
        self.more.wf()
    }

    open spec fn encoded(&self) -> Seq<u8> {
        chained(self.all())
    }

    open spec fn lengths() -> RangeView {
        RangeView::AtLeast(1)
    }

    open spec fn decoded(bytes: Seq<u8>) -> Result<Self, ErrorView> {
        match chain_len(bytes) {
            None => Err(too_short(sat_sum(bytes.len() as usize, 1), bytes)),
            Some(n) => if n > 11 {
                Err(bad_length(RangeView::AtMost(11), n))
            } else {
                Ok(
                    Chain {
                        first: (bytes[0] % 128) as u8,
                        more: Extension::of(low_bits(bytes.subrange(1, n as int))),
                    },
                )
            },
        }
    }

    open spec fn delimited(&self) -> bool {
        true
    }

    open spec fn faithful(&self) -> bool {
        self.first < 128 && forall|i: int| 0 <= i < self.more@.len() ==> self.more@[i] < 128
    }

    fn to_bytes(&self, buf: &mut Vec<u8>) {
        let n: usize = self.more.count();
        let ghost before = buf@;
        buf.push(
            if n > 0 {
                self.first % 128 + 128
            } else {
                self.first % 128
            },
        );
        let mut i: usize = 0;
        while i < n
            invariant
                n == self.more@.len(),
                n <= 10,
                i <= n,
                buf@ == before + chained(self.all()).take(i + 1),
            decreases n - i,
        {
            let b: u8 = self.more.element(i) % 128;
            proof {
                assert(self.all()[i + 1] == self.more@[i as int]);
            }
            buf.push(
                if i + 1 < n {
                    b + 128
                } else {
                    b
                },
            );
            i += 1;
        }
        proof {
            assert(chained(self.all()).take(i + 1) =~= chained(self.all()));
            use_type_invariant(&self.more);
        }
    }

    fn len(&self) -> (n: usize) {
        1 + self.more.count()
    }

    fn expected_len() -> (r: Range) {
        Range::AtLeast(1)
    }

    fn try_from_bytes(bytes: &[u8]) -> (r: Result<Self, Error>) {
        match find_end(bytes) {
            None => {
                let n: usize = bytes.len();
                Err(
                    Error::OutOfRange {
                        expected: Range::AtLeast(
                            if n < usize::MAX {
                                n + 1
                            } else {
                                n
                            },
                        ),
                        got: n,
                        quantity: "bytes",
                    },
                )
            },
            Some(n) => {
                if n > 11 {
                    return Err(
                        Error::OutOfRange {
                            expected: Range::AtMost(11),
                            got: n,
                            quantity: "bytes",
                        },
                    );
                }
                let mut more: Extension = BoundedBufferOperand::new();
                let mut i: usize = 1;
                let ghost low = low_bits(bytes@.subrange(1, n as int));
                while i < n
                    invariant
                        1 <= i <= n <= 11,
                        n <= bytes@.len(),
                        low == low_bits(bytes@.subrange(1, n as int)),
                        more.wf(),
                        more@ == low.take(i - 1),
                    decreases n - i,
                {
                    more.push(bytes[i] % 128);
                    proof {
                        assert(low.take(i as int) =~= low.take(i - 1).push(low[i - 1]));
                    }
                    i += 1;
                }
                proof {
                    assert(low.take(n - 1) =~= low);
                    more.of_elements();
                }
                Ok(Chain { first: bytes[0] % 128, more })
            },
        }
    }

    proof fn read_back(&self, rest: Seq<u8>) {
        let n = self.all().len();
        let bytes = self.encoded() + rest;
        self.more.of_elements();
        chain_ends(bytes, n);
        assert(bytes[0] % 128 == self.first);
        assert(low_bits(bytes.subrange(1, n as int)) =~= self.more@) by {
            assert forall|i: int| 0 <= i < n - 1 implies low_bits(bytes.subrange(1, n as int))[i]
                == self.more@[i] by {
                assert(self.all()[i + 1] == self.more@[i]);
            }
        }
    }
}

/// Which remote control a television has.
#[derive(Debug, Copy, Clone, PartialEq, Eq, Hash, Structural)]
pub enum RcProfileId {
    ProfileNone,
    Profile1,
    Profile2,
    Profile3,
    Profile4,
}

impl Coded for RcProfileId {
    open spec fn code(&self) -> u8 {
        match self {
            RcProfileId::ProfileNone => 0x00,
            RcProfileId::Profile1 => 0x02,
            RcProfileId::Profile2 => 0x06,
            RcProfileId::Profile3 => 0x0a,
            RcProfileId::Profile4 => 0x0e,
        }
    }

    open spec fn with_code(code: u8) -> Option<Self> {
        match code {
            0x00 => Some(RcProfileId::ProfileNone),
            0x02 => Some(RcProfileId::Profile1),
            0x06 => Some(RcProfileId::Profile2),
            0x0a => Some(RcProfileId::Profile3),
            0x0e => Some(RcProfileId::Profile4),
            _ => None,
        }
    }

    open spec fn label() -> Seq<char> {
        "RcProfileId"@
    }

    fn to_primitive(&self) -> (code: u8) {
        match self {
            RcProfileId::ProfileNone => 0x00,
            RcProfileId::Profile1 => 0x02,
            RcProfileId::Profile2 => 0x06,
            RcProfileId::Profile3 => 0x0a,
            RcProfileId::Profile4 => 0x0e,
        }
    }

    fn from_primitive(code: u8) -> (r: Option<Self>) {
        match code {
            0x00 => Some(RcProfileId::ProfileNone),
            0x02 => Some(RcProfileId::Profile1),
            0x06 => Some(RcProfileId::Profile2),
            0x0a => Some(RcProfileId::Profile3),
            0x0e => Some(RcProfileId::Profile4),
            _ => None,
        }
    }

    fn type_label() -> (r: &'static str) {
        "RcProfileId"
    }

    proof fn one_to_one() {
    }
}

/// The remote control of a television, or what a source takes from one.
#[derive(Debug, Copy, Clone, PartialEq, Eq, Hash, Structural)]
pub enum RcProfile1 {
    Tv(RcProfileId),
    Source(RcProfileSource),
}

impl RcProfile1 {
    /// The profile as a byte.
    pub open spec fn byte(self) -> u8 {
        match self {
            RcProfile1::Tv(id) => id.code(),
            RcProfile1::Source(source) => source@,
        }
    }

    fn to_byte(&self) -> (b: u8)
        ensures
            b == self.byte(),
    {
        match self {
            RcProfile1::Tv(id) => id.to_primitive(),
            RcProfile1::Source(source) => source.bits(),
        }
    }

    /// The profile that a byte below 128 stands for. From 64 on, it is that of a source.
    pub open spec fn of_byte(b: u8) -> Result<RcProfile1, ErrorView> {
        if b >= 64 {
            Ok(RcProfile1::Source(RcProfileSource::of(b)))
        } else {
            match decoded_code::<RcProfileId>(b) {
                Ok(id) => Ok(RcProfile1::Tv(id)),
                Err(e) => Err(e),
            }
        }
    }

    fn from_byte(b: u8) -> (r: Result<RcProfile1, Error>)
        ensures
            outcome(r) == Self::of_byte(b),
            r matches Ok(p) ==> p.byte() == b,
    {
        proof {
            RcProfileId::one_to_one();
            RcProfileSource::bits_and_value(b);
        }
        if b >= 64 {
            Ok(RcProfile1::Source(RcProfileSource::from_bits(b)))
        } else {
            match RcProfileId::try_from_primitive(b) {
                Ok(id) => Ok(RcProfile1::Tv(id)),
                Err(e) => Err(e),
            }
        }
    }
}

/// The remote control profile of a device.
#[derive(Debug, Copy, Clone, PartialEq, Eq, Hash)]
pub struct RcProfile {
    pub rc_profile_1: RcProfile1,
    pub rc_profile_n: Extension,
}

impl RcProfile {
    /// The bytes that are chained.
    pub open spec fn chain(self) -> Chain {
        Chain { first: self.rc_profile_1.byte(), more: self.rc_profile_n }
    }

    /// The value without an extension.
    pub fn new(rc_profile_1: RcProfile1) -> (r: RcProfile)
        ensures
            r.rc_profile_1 == rc_profile_1,
            r.rc_profile_n.wf(),
            r.rc_profile_n@ == Seq::<u8>::empty(),
    {
        RcProfile { rc_profile_1, rc_profile_n: BoundedBufferOperand::new() }
    }
}

impl OperandEncodable for RcProfile {
    open spec fn valid(&self) -> bool {
        self.rc_profile_n.wf()
    }

    open spec fn encoded(&self) -> Seq<u8> {
        self.chain().encoded()
    }

    open spec fn lengths() -> RangeView {
        RangeView::AtLeast(1)
    }

    open spec fn decoded(bytes: Seq<u8>) -> Result<Self, ErrorView> {
        match Chain::decoded(bytes) {
            Err(e) => Err(e),
            Ok(chain) => match RcProfile1::of_byte(chain.first) {
                Ok(rc_profile_1) => Ok(RcProfile { rc_profile_1, rc_profile_n: chain.more }),
                Err(e) => Err(e),
            },
        }
    }

    open spec fn delimited(&self) -> bool {
        true
    }

    open spec fn faithful(&self) -> bool {
        self.chain().faithful() && (self.rc_profile_1 matches RcProfile1::Source(source) ==> source@
            >= 64)
    }

    fn to_bytes(&self, buf: &mut Vec<u8>) {
        Chain { first: self.rc_profile_1.to_byte(), more: self.rc_profile_n }.to_bytes(buf);
    }

    fn len(&self) -> (n: usize) {
        1 + self.rc_profile_n.count()
    }

    fn expected_len() -> (r: Range) {
        Range::AtLeast(1)
    }

    fn try_from_bytes(bytes: &[u8]) -> (r: Result<Self, Error>) {
        match Chain::try_from_bytes(bytes) {
            Err(e) => Err(e),
            Ok(chain) => match RcProfile1::from_byte(chain.first) {
                Ok(rc_profile_1) => Ok(RcProfile { rc_profile_1, rc_profile_n: chain.more }),
                Err(e) => Err(e),
            },
        }
    }

    proof fn read_back(&self, rest: Seq<u8>) {
        self.chain().read_back(rest);
        RcProfileId::one_to_one();
        if let RcProfile1::Source(source) = self.rc_profile_1 {
            source.bits_identify();
        }
    }
}

/// What a device can do.
#[derive(Debug, Copy, Clone, PartialEq, Eq, Hash)]
pub struct DeviceFeatures {
    pub device_features_1: DeviceFeatures1,
    pub device_features_n: Extension,
}

impl DeviceFeatures {
    /// The bytes that are chained.
    pub open spec fn chain(self) -> Chain {
        Chain { first: self.device_features_1@, more: self.device_features_n }
    }

    /// The value without an extension.
    pub fn new(device_features_1: DeviceFeatures1) -> (r: DeviceFeatures)
        ensures
            r.device_features_1 == device_features_1,
            r.device_features_n.wf(),
            r.device_features_n@ == Seq::<u8>::empty(),
    {
        DeviceFeatures { device_features_1, device_features_n: BoundedBufferOperand::new() }
    }
}

impl OperandEncodable for DeviceFeatures {
    open spec fn valid(&self) -> bool {
        self.device_features_n.wf()
    }

    open spec fn encoded(&self) -> Seq<u8> {
        self.chain().encoded()
    }

    open spec fn lengths() -> RangeView {
        RangeView::AtLeast(1)
    }

    open spec fn decoded(bytes: Seq<u8>) -> Result<Self, ErrorView> {
        match Chain::decoded(bytes) {
            Err(e) => Err(e),
            Ok(chain) => Ok(
                DeviceFeatures {
                    device_features_1: DeviceFeatures1::of(chain.first),
                    device_features_n: chain.more,
                },
            ),
        }
    }

    open spec fn delimited(&self) -> bool {
        true
    }

    open spec fn faithful(&self) -> bool {
        self.chain().faithful()
    }

    fn to_bytes(&self, buf: &mut Vec<u8>) {
        Chain { first: self.device_features_1.bits(), more: self.device_features_n }.to_bytes(buf);
    }

    fn len(&self) -> (n: usize) {
        1 + self.device_features_n.count()
    }

    fn expected_len() -> (r: Range) {
        Range::AtLeast(1)
    }

    fn try_from_bytes(bytes: &[u8]) -> (r: Result<Self, Error>) {
        match Chain::try_from_bytes(bytes) {
            Err(e) => Err(e),
            Ok(chain) => {
                proof {
                    DeviceFeatures1::bits_and_value(chain.first);
                }
                Ok(
                    DeviceFeatures {
                        device_features_1: DeviceFeatures1::from_bits(chain.first),
                        device_features_n: chain.more,
                    },
                )
            },
        }
    }

    proof fn read_back(&self, rest: Seq<u8>) {
        self.chain().read_back(rest);
        self.device_features_1.bits_identify();
    }
}

} // verus!
