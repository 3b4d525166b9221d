//! The byte-buffer type that body chunks are delivered in.
//!
//! Chunks are `bytes::Bytes` values, as the surrounding HTTP stack expects.
//! The buffer itself is opaque to the verifier; `bytes_view` names its
//! contents, and the two constructors below state how those contents relate
//! to the plain values they were built from.

use vstd::prelude::*;

verus! {

#[verifier::external_type_specification]
#[verifier::external_body]
pub struct ExBytes(bytes::Bytes);

/// The byte contents of a `bytes::Bytes` buffer.
pub uninterp spec fn bytes_view(b: bytes::Bytes) -> Seq<u8>;

/// Relies on `bytes::Bytes::from_static`: the returned buffer points directly
/// at the given slice, so its contents are exactly the slice's bytes.
#[verifier::external_body]
pub(crate) fn bytes_from_static(s: &'static [u8]) -> (r: bytes::Bytes)
    ensures
        bytes_view(r) == s@,
{
    bytes::Bytes::from_static(s)
}

/// Relies on `bytes::Bytes::copy_from_slice`: the returned buffer is a copy
/// of the given slice, so its contents are exactly the slice's bytes.
#[verifier::external_body]
pub(crate) fn bytes_copy_from_slice(s: &[u8]) -> (r: bytes::Bytes)
    ensures
        bytes_view(r) == s@,
{
    bytes::Bytes::copy_from_slice(s)
}

} // verus!
