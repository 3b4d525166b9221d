//! A streaming message body that a size-limiting HTTP middleware hands to
//! its callers.
//!
//! The middleware decides, per request, whether the caller gets the original
//! body or a short fixed rejection. [`body::ResponseBody`] presents both
//! outcomes behind one streaming contract: either it passes every operation
//! through to the wrapped body unchanged, or it serves the fixed
//! `length limit exceeded` payload as a single chunk and then reports a
//! permanent end of stream. [`response::create_error_response`] wraps the
//! error variant in a ready-made `413 Payload Too Large` response envelope.

pub mod body;
pub mod chunk;
pub mod memory;
pub mod response;
pub mod stream;

use vstd::prelude::*;
use vstd::string::StringSliceAdditionalSpecFns;

verus! {

/// The bytes of the fixed plain-text payload served when a request body
/// exceeds its configured size limit, as a mathematical sequence.
pub open spec fn error_message() -> Seq<u8> {
    "length limit exceeded"@.map_values(|c: char| c as u8)
}

/// The fixed error payload: the ASCII bytes of `length limit exceeded`.
pub fn limit_exceeded_message() -> (r: &'static [u8])
    ensures
        r@ == error_message(),
        r@.len() == 21,
{
    let s = "length limit exceeded";
    proof {
        reveal_strlit("length limit exceeded");
        assert(vstd::string::is_ascii(s));
        vstd::utf8::is_ascii_chars_encode_utf8(s@);
        assert(s.spec_bytes() =~= error_message());
    }
    s.as_bytes()
}

} // verus!
