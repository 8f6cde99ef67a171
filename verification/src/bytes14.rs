//! A list of up to fourteen bytes, kept without allocation.

use tinyvec::ArrayVec;
use vstd::prelude::*;

verus! {

#[verifier::external_type_specification]
#[verifier::external_body]
#[verifier::reject_recursive_types(A)]
pub struct ExArrayVec<A>(ArrayVec<A>);

/// The bytes in a list.
pub uninterp spec fn list_bytes(list: ArrayVec<[u8; 14]>) -> Seq<u8>;

/// A list of the first `len` bytes of an array.
///
/// Calls `ArrayVec::from_array_len`, which keeps the array and takes `len` for the length of the
/// list. It panics where `len` is greater than the array.
#[verifier::external_body]
pub(crate) fn list_from_array(bytes: [u8; 14], len: usize) -> (list: ArrayVec<[u8; 14]>)
    requires
        len <= 14,
    ensures
        list_bytes(list) == bytes@.take(len as int),
{
    ArrayVec::from_array_len(bytes, len)
}

/// The bytes in a list, as a slice.
///
/// Calls `ArrayVec::as_slice`, which gives the part of the array that is in use. A list holds no
/// more bytes than its array.
#[verifier::external_body]
pub(crate) fn list_slice(list: &ArrayVec<[u8; 14]>) -> (bytes: &[u8])
    ensures
        bytes@ == list_bytes(*list),
        bytes@.len() <= 14,
{
    list.as_slice()
}

} // verus!
