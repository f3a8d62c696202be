//! The byte buffers that values travel in.
//!
//! Values are carried as [`bytes::Bytes`]. What such a buffer holds is written
//! [`octets`]; the three functions here are the only ones through which the library makes a buffer
//! or reads one.

use bytes::Bytes;
use vstd::prelude::*;

verus! {

#[verifier::external_type_specification]
#[verifier::external_body]
pub struct ExBytes(bytes::Bytes);

/// The bytes that a buffer holds, in order.
pub uninterp spec fn octets(buffer: Bytes) -> Seq<u8>;

/// `bytes::Bytes::new`: the buffer it returns is empty.
#[verifier::external_body]
pub(crate) fn empty_octets() -> (buffer: Bytes)
    ensures
        octets(buffer) == Seq::<u8>::empty(),
{
    Bytes::new()
}

/// `<bytes::Bytes as From<Vec<u8>>>::from`: the buffer it returns holds the bytes of the vector,
/// in order.
#[verifier::external_body]
pub(crate) fn octets_from_vec(contents: Vec<u8>) -> (buffer: Bytes)
    ensures
        octets(buffer) == contents@,
{
    Bytes::from(contents)
}

/// `to_vec` on a `bytes::Bytes`, reached through its `Deref` to `[u8]`: the vector it returns holds
/// the bytes of the buffer, in order.
#[verifier::external_body]
pub(crate) fn octets_to_vec(buffer: &Bytes) -> (contents: Vec<u8>)
    ensures
        contents@ == octets(*buffer),
{
    buffer.to_vec()
}

} // verus!
