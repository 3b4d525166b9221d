//! An in-memory streaming body: a fixed script of chunks, and optionally a
//! set of trailers, served in order.
//!
//! `MemoryBody` is fully deterministic, so its transition relations pin
//! every poll outcome exactly. It serves as a concrete underlying body for
//! the passthrough variant — in particular wherever a body with a known
//! chunk sequence is needed, such as exercising the forwarding behavior of
//! [`crate::body::ResponseBody`].

use vstd::prelude::*;

use crate::chunk::bytes_copy_from_slice;
use crate::chunk::bytes_view;
use crate::stream::DataPoll;
use crate::stream::SizeHint;
use crate::stream::StreamingBody;
use crate::stream::TrailersPoll;

verus! {

/// A body that yields a fixed sequence of chunks, then ends; after the
/// data, it yields its trailers once if it was given any.
pub struct MemoryBody {
    chunks: Vec<Vec<u8>>,
    pos: usize,
    trailers: Option<Vec<(String, String)>>,
}

impl MemoryBody {
    /// The full script of chunks this body yields.
    pub closed spec fn chunk_seq(&self) -> Seq<Seq<u8>> {
        self.chunks.deep_view()
    }

    /// How many chunks have already been yielded.
    pub closed spec fn position(&self) -> int {
        self.pos as int
    }

    /// The trailers not yet yielded, if any.
    pub closed spec fn pending_trailers(&self) -> Option<Seq<(String, String)>> {
        match self.trailers {
            Some(t) => Some(t@),
            None => None,
        }
    }

    /// A body that yields exactly the given chunks, in order, and has no
    /// trailers.
    pub fn new(chunks: Vec<Vec<u8>>) -> (r: MemoryBody)
        ensures
            r.chunk_seq() == chunks.deep_view(),
            r.position() == 0,
            r.pending_trailers() is None,
    {
        MemoryBody { chunks, pos: 0, trailers: None }
    }

    /// A body that yields exactly the given chunks, in order, and then the
    /// given trailers.
    pub fn with_trailers(chunks: Vec<Vec<u8>>, trailers: Vec<(String, String)>) -> (r: MemoryBody)
        ensures
            r.chunk_seq() == chunks.deep_view(),
            r.position() == 0,
            r.pending_trailers() == Some(trailers@),
    {
        MemoryBody { chunks, pos: 0, trailers: Some(trailers) }
    }
}

impl StreamingBody for MemoryBody {
    type Error = ();

    open spec fn ended(&self) -> bool {
        self.position() >= self.chunk_seq().len()
    }

    open spec fn size_lower(&self) -> u64 {
        0u64
    }

    open spec fn size_upper(&self) -> Option<u64> {
        None
    }

    open spec fn data_transition(pre: Self, post: Self, r: DataPoll<()>) -> bool {
        if pre.position() < pre.chunk_seq().len() {
            &&& r matches DataPoll::Chunk(c) && bytes_view(c) == pre.chunk_seq()[pre.position()]
            &&& post.chunk_seq() == pre.chunk_seq()
            &&& post.position() == pre.position() + 1
            &&& post.pending_trailers() == pre.pending_trailers()
        } else {
            &&& r is Finished
            &&& post == pre
        }
    }

    open spec fn trailers_transition(pre: Self, post: Self, r: TrailersPoll<()>) -> bool {
        &&& post.chunk_seq() == pre.chunk_seq()
        &&& post.position() == pre.position()
        &&& post.pending_trailers() is None
        &&& match pre.pending_trailers() {
            Some(ts) => r matches TrailersPoll::Trailers(t) && t@ == ts,
            None => r is NoTrailers,
        }
    }

    /// Yield the next scripted chunk, or report `Finished` once the script
    /// is exhausted. This body never blocks and never fails.
    fn poll_data(&mut self) -> (r: DataPoll<()>) {
        if self.pos < self.chunks.len() {
            let c = bytes_copy_from_slice(self.chunks[self.pos].as_slice());
            proof {
                assert(bytes_view(c) =~= self.chunk_seq()[self.position()]);
            }
            self.pos = self.pos + 1;
            DataPoll::Chunk(c)
        } else {
            DataPoll::Finished
        }
    }

    /// Hand over the trailers on the first poll if this body has any;
    /// afterwards, and otherwise, report `NoTrailers`.
    fn poll_trailers(&mut self) -> (r: TrailersPoll<()>) {
        match self.trailers.take() {
            Some(t) => TrailersPoll::Trailers(t),
            None => TrailersPoll::NoTrailers,
        }
    }

    fn is_end_stream(&self) -> (r: bool) {
        self.pos >= self.chunks.len()
    }

    /// This body reports no estimate: at least zero bytes, no upper bound.
    fn size_hint(&self) -> (r: SizeHint) {
        SizeHint::unknown()
    }
}

} // verus!
