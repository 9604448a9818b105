//! Message bodies, as byte buffers of the `bytes` crate.

use bytes::Bytes;
use vstd::prelude::*;

verus! {

/// The shared byte buffer of the `bytes` crate.
#[verifier::external_type_specification]
#[verifier::external_body]
pub struct ExBytes(Bytes);

/// What a buffer holds.
pub uninterp spec fn buffer_bytes(buffer: Bytes) -> Seq<u8>;

/// The bytes of a body that may be absent. An absent body has none.
pub open spec fn body_bytes(body: Option<Bytes>) -> Seq<u8> {
    match body {
        Some(buffer) => buffer_bytes(buffer),
        None => Seq::empty(),
    }
}

/// Copies bytes into a buffer, through `bytes::Bytes::copy_from_slice`. Claimed: the buffer holds
/// those bytes.
#[verifier::external_body]
pub(crate) fn buffer_copy_of(bytes: &[u8]) -> (buffer: Bytes)
    ensures
        buffer_bytes(buffer) == bytes@,
{
    Bytes::copy_from_slice(bytes)
}

/// Turns bytes into a buffer, through `bytes::Bytes::from`. Claimed: the buffer holds those bytes.
#[verifier::external_body]
pub(crate) fn buffer_of(bytes: Vec<u8>) -> (buffer: Bytes)
    ensures
        buffer_bytes(buffer) == bytes@,
{
    Bytes::from(bytes)
}

/// Takes the bytes out of a buffer, through the `From<Bytes>` of `Vec<u8>` in the `bytes` crate.
/// Claimed: they are what the buffer holds.
#[verifier::external_body]
pub(crate) fn buffer_into_vec(buffer: Bytes) -> (bytes: Vec<u8>)
    ensures
        bytes@ == buffer_bytes(buffer),
{
    Vec::from(buffer)
}

/// A body has the bytes of its buffer, and none where there is no body.
pub proof fn law_bytes_of_a_body(buffer: Bytes)
    ensures
        body_bytes(Some(buffer)) == buffer_bytes(buffer),
        body_bytes(None).len() == 0,
{
}

} // verus!
