//! The body variant union: one streaming body type over two mutually
//! exclusive behaviors.
//!
//! A [`ResponseBody`] either passes every operation through to a wrapped
//! underlying body unchanged, or serves the fixed `length limit exceeded`
//! payload as a single chunk and then permanently reports the end of the
//! stream. Which of the two it is, is fixed at construction and never
//! changes.

use vstd::prelude::*;

use crate::chunk::bytes_from_static;
use crate::chunk::bytes_view;
use crate::error_message;
use crate::limit_exceeded_message;
use crate::stream::DataPoll;
use crate::stream::SizeHint;
use crate::stream::StreamingBody;
use crate::stream::TrailersPoll;

verus! {

enum ResponseBodyInner<B> {
    PayloadTooLarge { data: Option<bytes::Bytes> },
    Body { body: B },
}

/// Response body of a size-limiting middleware: either the original body,
/// forwarded unchanged, or the fixed error payload.
pub struct ResponseBody<B> {
    inner: ResponseBodyInner<B>,
}

/// One data poll of the error variant: while the payload is still held, a
/// poll takes it and yields it as a single chunk; afterwards every poll
/// reports `Finished`. The error variant itself never blocks and never
/// fails.
pub open spec fn error_data_step<E>(
    pre: Option<Seq<u8>>,
    post: Option<Seq<u8>>,
    r: DataPoll<E>,
) -> bool {
    match pre {
        Some(payload) => {
            &&& r matches DataPoll::Chunk(c) && bytes_view(c) == payload
            &&& post is None
        },
        None => {
            &&& r is Finished
            &&& post is None
        },
    }
}

impl<B> ResponseBody<B> {
    /// True when this body passes through to a wrapped underlying body.
    pub closed spec fn is_passthrough(&self) -> bool {
        self.inner is Body
    }

    /// True when this body serves the fixed error payload.
    pub open spec fn is_error_variant(&self) -> bool {
        !self.is_passthrough()
    }

    /// The wrapped underlying body (meaningful in the passthrough state).
    pub closed spec fn inner_body(&self) -> B {
        match self.inner {
            ResponseBodyInner::Body { body } => body,
            ResponseBodyInner::PayloadTooLarge { .. } => vstd::pervasive::arbitrary(),
        }
    }

    /// The error payload still to be yielded: `Some` before the single
    /// chunk has been taken, `None` after (meaningful in the error state).
    pub closed spec fn error_payload(&self) -> Option<Seq<u8>> {
        match self.inner {
            ResponseBodyInner::PayloadTooLarge { data: Some(b) } => Some(bytes_view(b)),
            _ => None,
        }
    }

    /// Wrap an arbitrary underlying body; every operation will be forwarded
    /// to it unchanged.
    pub fn new(body: B) -> (r: ResponseBody<B>)
        ensures
            r.is_passthrough(),
            r.inner_body() == body,
    {
        ResponseBody { inner: ResponseBodyInner::Body { body } }
    }

    /// Construct the error variant: a body that yields the fixed
    /// `length limit exceeded` payload as one successful chunk and then
    /// permanently ends.
    pub fn payload_too_large() -> (r: ResponseBody<B>)
        ensures
            r.is_error_variant(),
            r.error_payload() == Some(error_message()),
    {
        ResponseBody {
            inner: ResponseBodyInner::PayloadTooLarge {
                data: Some(bytes_from_static(limit_exceeded_message())),
            },
        }
    }
}

impl<B: StreamingBody> StreamingBody for ResponseBody<B> {
    type Error = B::Error;

    open spec fn ended(&self) -> bool {
        if self.is_passthrough() {
            self.inner_body().ended()
        } else {
            self.error_payload() is None
        }
    }

    open spec fn size_lower(&self) -> u64 {
        if self.is_passthrough() {
            self.inner_body().size_lower()
        } else if self.error_payload() is Some {
            error_message().len() as u64
        } else {
            0u64
        }
    }

    open spec fn size_upper(&self) -> Option<u64> {
        if self.is_passthrough() {
            self.inner_body().size_upper()
        } else if self.error_payload() is Some {
            Some(error_message().len() as u64)
        } else {
            Some(0u64)
        }
    }

    open spec fn data_transition(pre: Self, post: Self, r: DataPoll<B::Error>) -> bool {
        if pre.is_passthrough() {
            &&& post.is_passthrough()
            &&& B::data_transition(pre.inner_body(), post.inner_body(), r)
        } else {
            &&& post.is_error_variant()
            &&& error_data_step(pre.error_payload(), post.error_payload(), r)
        }
    }

    open spec fn trailers_transition(pre: Self, post: Self, r: TrailersPoll<B::Error>) -> bool {
        if pre.is_passthrough() {
            &&& post.is_passthrough()
            &&& B::trailers_transition(pre.inner_body(), post.inner_body(), r)
        } else {
            &&& post == pre
            &&& r is NoTrailers
        }
    }

    /// In the passthrough state, delegate to the wrapped body and hand its
    /// result back unchanged. In the error state, the first poll takes the
    /// payload and yields it as one successful chunk; every later poll
    /// reports `Finished` immediately.
    fn poll_data(&mut self) -> (r: DataPoll<B::Error>)
        ensures
            old(self).is_passthrough() == final(self).is_passthrough(),
    {
        match &mut self.inner {
            ResponseBodyInner::PayloadTooLarge { data } => match data.take() {
                Some(b) => DataPoll::Chunk(b),
                None => DataPoll::Finished,
            },
            ResponseBodyInner::Body { body } => body.poll_data(),
        }
    }

    /// In the passthrough state, delegate to the wrapped body. The error
    /// variant carries no trailers: it reports `NoTrailers` whether or not
    /// its payload has been taken, and is left unchanged.
    fn poll_trailers(&mut self) -> (r: TrailersPoll<B::Error>)
        ensures
            old(self).is_passthrough() == final(self).is_passthrough(),
            old(self).is_error_variant() ==> *final(self) == *old(self) && r is NoTrailers,
    {
        match &mut self.inner {
            ResponseBodyInner::PayloadTooLarge { .. } => TrailersPoll::NoTrailers,
            ResponseBodyInner::Body { body } => body.poll_trailers(),
        }
    }

    /// Pure query; in the error state, true exactly when the single payload
    /// chunk has already been taken.
    fn is_end_stream(&self) -> (r: bool) {
        match &self.inner {
            ResponseBodyInner::PayloadTooLarge { data } => data.is_none(),
            ResponseBodyInner::Body { body } => body.is_end_stream(),
        }
    }

    /// Pure query; the error state reports an exact count: the fixed
    /// payload's length while the payload is still held, zero after it has
    /// been taken.
    fn size_hint(&self) -> (r: SizeHint) {
        match &self.inner {
            ResponseBodyInner::PayloadTooLarge { data } => {
                if data.is_none() {
                    SizeHint::with_exact(0)
                } else {
                    let m = limit_exceeded_message();
                    SizeHint::with_exact(m.len() as u64)
                }
            },
            ResponseBodyInner::Body { body } => body.size_hint(),
        }
    }
}

/// Law: a passthrough body forwards everything to the wrapped body
/// unchanged — its end-of-stream report and size hints are the wrapped
/// body's own, and its poll outcomes are exactly the wrapped body's poll
/// outcomes, value for value and error for error.
pub proof fn lemma_passthrough_forwards<B: StreamingBody>(pre: ResponseBody<B>)
    requires
        pre.is_passthrough(),
    ensures
        pre.ended() == pre.inner_body().ended(),
        pre.size_lower() == pre.inner_body().size_lower(),
        pre.size_upper() == pre.inner_body().size_upper(),
        forall|post: ResponseBody<B>, r: DataPoll<B::Error>|
            #[trigger] <ResponseBody<B> as StreamingBody>::data_transition(pre, post, r)
                <==> (post.is_passthrough() && B::data_transition(
                pre.inner_body(),
                post.inner_body(),
                r,
            )),
        forall|post: ResponseBody<B>, r: TrailersPoll<B::Error>|
            #[trigger] <ResponseBody<B> as StreamingBody>::trailers_transition(pre, post, r)
                <==> (post.is_passthrough() && B::trailers_transition(
                pre.inner_body(),
                post.inner_body(),
                r,
            )),
{
}

/// Law: a freshly constructed error variant emits the fixed message exactly
/// once. Its first data poll always yields the `length limit exceeded`
/// bytes as one successful chunk and ends the stream; any poll after that
/// reports `Finished` and leaves the stream ended.
pub proof fn lemma_error_emits_once<B: StreamingBody>(
    s0: ResponseBody<B>,
    s1: ResponseBody<B>,
    s2: ResponseBody<B>,
    r1: DataPoll<B::Error>,
    r2: DataPoll<B::Error>,
)
    requires
        s0.is_error_variant(),
        s0.error_payload() == Some(error_message()),
        <ResponseBody<B> as StreamingBody>::data_transition(s0, s1, r1),
        <ResponseBody<B> as StreamingBody>::data_transition(s1, s2, r2),
    ensures
        !s0.ended(),
        (r1 matches DataPoll::Chunk(c) && bytes_view(c) == error_message()),
        s1.ended(),
        r2 is Finished,
        s2.ended(),
{
}

/// Law: the error variant's size hint is exact — the fixed payload's
/// 21-byte length while the payload is still held, zero after the single
/// chunk has been taken.
pub proof fn lemma_error_size_hint_exact<B: StreamingBody>(s: ResponseBody<B>)
    requires
        s.is_error_variant(),
        s.error_payload() is Some ==> s.error_payload() == Some(error_message()),
    ensures
        s.error_payload() is Some ==> s.size_lower() == 21 && s.size_upper() == Some(21u64),
        s.error_payload() is None ==> s.size_lower() == 0 && s.size_upper() == Some(0u64),
{
    reveal_strlit("length limit exceeded");
}

/// Law: the error variant never yields trailers — a trailers poll, in
/// either consumption state, reports `NoTrailers` and leaves the body
/// unchanged.
pub proof fn lemma_error_no_trailers<B: StreamingBody>(
    pre: ResponseBody<B>,
    post: ResponseBody<B>,
    r: TrailersPoll<B::Error>,
)
    requires
        pre.is_error_variant(),
        <ResponseBody<B> as StreamingBody>::trailers_transition(pre, post, r),
    ensures
        r is NoTrailers,
        post == pre,
{
}

} // verus!
