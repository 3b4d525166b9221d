//! The error response factory: a ready-to-serialize `413 Payload Too Large`
//! response around the error-variant body.

use vstd::prelude::*;

use crate::body::ResponseBody;
use crate::error_message;
use crate::stream::StreamingBody;

verus! {

/// A response envelope: a status code, a list of header name/value pairs,
/// and a streaming body. The surrounding HTTP layer turns it into its own
/// response type and serializes it.
pub struct ResponseEnvelope<B> {
    pub status: u16,
    pub headers: Vec<(String, String)>,
    pub body: ResponseBody<B>,
}

/// Build the fixed rejection response: status 413 (Payload Too Large),
/// exactly one header — `content-type: text/plain; charset=utf-8` — and a
/// freshly constructed error-variant body still holding the fixed payload.
pub fn create_error_response<B: StreamingBody>() -> (r: ResponseEnvelope<B>)
    ensures
        r.status == 413,
        r.headers@.len() == 1,
        (r.headers@[0].0)@ == "content-type"@,
        (r.headers@[0].1)@ == "text/plain; charset=utf-8"@,
        r.body.is_error_variant(),
        r.body.error_payload() == Some(error_message()),
        !r.body.ended(),
{
    let mut headers: Vec<(String, String)> = Vec::new();
    headers.push(("content-type".to_owned(), "text/plain; charset=utf-8".to_owned()));
    ResponseEnvelope { status: 413, headers, body: ResponseBody::payload_too_large() }
}

} // verus!
