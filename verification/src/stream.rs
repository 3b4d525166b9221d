//! The streaming-body contract: poll outcomes, size hints, and the
//! `StreamingBody` trait that every body type implements.
//!
//! A body is read in poll style: each call for data either hands over one
//! chunk, reports that the stream has ended, reports that nothing is ready
//! yet, or surfaces the body's own error. Each implementor describes its
//! possible outcomes with the `data_transition` and `trailers_transition`
//! relations, so a caller holding a concrete body type knows exactly which
//! results a poll can produce.

use vstd::prelude::*;

verus! {

/// Outcome of one poll for the next chunk of body data.
pub enum DataPoll<E> {
    /// One chunk of data is ready.
    Chunk(bytes::Bytes),
    /// The stream has ended; no chunk will ever follow.
    Finished,
    /// No chunk is ready yet; the caller must poll again later.
    Pending,
    /// The body failed; the error is handed over verbatim.
    Failed(E),
}

/// Outcome of one poll for a body's trailers.
pub enum TrailersPoll<E> {
    /// The body supplies these trailing key/value pairs.
    Trailers(Vec<(String, String)>),
    /// The body has no trailers.
    NoTrailers,
    /// The trailers are not available yet; the caller must poll again later.
    Pending,
    /// The body failed; the error is handed over verbatim.
    Failed(E),
}

/// An estimate of how many body bytes remain to be yielded: at least
/// `lower`, and at most `upper` when an upper bound is known.
#[derive(Clone, Copy, PartialEq, Eq, Debug)]
pub struct SizeHint {
    pub lower: u64,
    pub upper: Option<u64>,
}

impl SizeHint {
    /// A hint that promises nothing: at least zero bytes, no upper bound.
    pub fn unknown() -> (r: SizeHint)
        ensures
            r.lower == 0,
            r.upper is None,
    {
        SizeHint { lower: 0, upper: Option::None }
    }

    /// A hint that exactly `n` bytes remain.
    pub fn with_exact(n: u64) -> (r: SizeHint)
        ensures
            r.lower == n,
            r.upper == Some(n),
    {
        SizeHint { lower: n, upper: Option::Some(n) }
    }
}

/// The streaming-body capability: ordered byte chunks, optional trailers,
/// end-of-stream detection, and a remaining-size estimate.
///
/// The spec functions model the body's observable state; the two transition
/// relations say which outcomes a poll may produce and how the state moves.
/// Every implementation guarantees: once ended, a data poll only ever
/// reports `Finished`, and the end of the stream is permanent.
pub trait StreamingBody: Sized {
    /// The error type this body's failures carry.
    type Error;

    /// True once no further data chunk will ever be yielded.
    spec fn ended(&self) -> bool;

    /// The lower bound this body reports for its remaining bytes.
    spec fn size_lower(&self) -> u64;

    /// The upper bound, if any, this body reports for its remaining bytes.
    spec fn size_upper(&self) -> Option<u64>;

    /// Which outcomes one data poll may produce from state `pre`, leaving
    /// the body in state `post`.
    spec fn data_transition(pre: Self, post: Self, r: DataPoll<Self::Error>) -> bool;

    /// Which outcomes one trailers poll may produce from state `pre`,
    /// leaving the body in state `post`.
    spec fn trailers_transition(pre: Self, post: Self, r: TrailersPoll<Self::Error>) -> bool;

    /// Poll for the next chunk of data.
    fn poll_data(&mut self) -> (r: DataPoll<Self::Error>)
        ensures
            Self::data_transition(*old(self), *final(self), r),
            old(self).ended() ==> r is Finished,
            r is Finished ==> final(self).ended(),
            old(self).ended() ==> final(self).ended(),
    ;

    /// Poll for the trailers.
    fn poll_trailers(&mut self) -> (r: TrailersPoll<Self::Error>)
        ensures
            Self::trailers_transition(*old(self), *final(self), r),
            old(self).ended() ==> final(self).ended(),
    ;

    /// Report whether the end of the stream has been reached.
    fn is_end_stream(&self) -> (r: bool)
        ensures
            r == self.ended(),
    ;

    /// Report the estimate of remaining body bytes.
    fn size_hint(&self) -> (r: SizeHint)
        ensures
            r.lower == self.size_lower(),
            r.upper == self.size_upper(),
    ;
}

} // verus!
