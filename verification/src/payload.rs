//! The body of a request as it arrives: a `bytes::Bytes` buffer.

use bytes::Bytes;
use vstd::prelude::*;

verus! {

/// `bytes::Bytes`, a shared buffer of contiguous bytes. Nothing of its
/// representation is visible to the verifier.
#[verifier::external_type_specification]
#[verifier::external_body]
pub struct ExBytes(bytes::Bytes);

/// The bytes that `payload` holds, in order.
pub uninterp spec fn payload_bytes(payload: Bytes) -> Seq<u8>;

/// `<Bytes as AsRef<[u8]>>::as_ref`, taken on trust from the `bytes` crate:
/// the slice it lends out holds exactly the bytes of the buffer.
#[verifier::external_body]
pub(crate) fn payload_slice(payload: &Bytes) -> (bytes: &[u8])
    ensures
        bytes@ == payload_bytes(*payload),
{
    payload.as_ref()
}

} // verus!
