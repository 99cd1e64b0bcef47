//! The request forwarder's data model: the request a caller hands in and the
//! aggregation of the streamed response body into one buffer.
//!
//! The transport reads body frames one at a time; the library decides what
//! the frames amount to. A failure to read any frame aborts forwarding and
//! surfaces a transport error; otherwise the frames' bytes are concatenated
//! in order into a single buffer.

use vstd::prelude::*;
use crate::error::AppError;

verus! {

/// A request supplied by a local caller: method, target path, the `Host`
/// header's value, and the body bytes. Owned solely by the call that creates
/// it; passed once to the connection slot and not reused.
#[derive(Clone, Debug)]
pub struct PendingRequest {
    pub method: String,
    pub target: String,
    pub host: String,
    pub body: Vec<u8>,
}

impl PendingRequest {
    pub fn new(method: String, target: String, host: String, body: Vec<u8>) -> (r: Self)
        ensures
            r.method == method,
            r.target == target,
            r.host == host,
            r.body == body,
    {
        PendingRequest { method, target, host, body }
    }

    /// The value the request's `Content-Length` header must carry.
    pub fn content_length(&self) -> (n: usize)
        ensures
            n == self.body@.len(),
    {
        self.body.len()
    }
}

/// One event of the response-body stream: a data frame arrived, or reading
/// or decoding a frame failed.
#[derive(Clone, Debug)]
pub enum FrameEvent {
    Data(Vec<u8>),
    Failed,
}

/// The bytes a single stream event contributes.
pub open spec fn frame_bytes(f: FrameEvent) -> Seq<u8> {
    match f {
        FrameEvent::Data(d) => d@,
        FrameEvent::Failed => Seq::empty(),
    }
}

/// Whether every event of the stream delivered data.
pub open spec fn frames_ok(frames: Seq<FrameEvent>) -> bool {
    forall|i: int| 0 <= i < frames.len() ==> frames[i] is Data
}

/// The concatenation, in order, of the bytes of every frame.
pub open spec fn concat_frames(frames: Seq<FrameEvent>) -> Seq<u8>
    decreases frames.len(),
{
    if frames.len() == 0 {
        Seq::empty()
    } else {
        concat_frames(frames.drop_last()) + frame_bytes(frames.last())
    }
}

/// Accumulates response-body frames into one buffer.
pub struct BodyAggregator {
    buf: Vec<u8>,
}

impl BodyAggregator {
    /// The bytes accumulated so far.
    pub closed spec fn bytes(&self) -> Seq<u8> {
        self.buf@
    }

    /// An empty buffer.
    pub fn new() -> (a: Self)
        ensures
            a.bytes() == Seq::<u8>::empty(),
    {
        BodyAggregator { buf: Vec::new() }
    }

    /// Appends one data frame's bytes to the buffer. The aggregation sets no
    /// buffering limit of its own.
    pub fn push_frame(&mut self, chunk: &[u8])
        ensures
            final(self).bytes() == old(self).bytes() + chunk@,
    {
        let mut i: usize = 0;
        while i < chunk.len()
            invariant
                i <= chunk@.len(),
                self.bytes() == old(self).bytes() + chunk@.subrange(0, i as int),
            decreases chunk@.len() - i,
        {
            self.buf.push(chunk[i]);
            i = i + 1;
            assert(self.bytes() == old(self).bytes() + chunk@.subrange(0, i as int)) by {
                assert(chunk@.subrange(0, i as int) == chunk@.subrange(0, i - 1) + seq![
                    chunk@[i - 1],
                ]);
            }
        }
        assert(chunk@.subrange(0, chunk@.len() as int) == chunk@);
    }

    /// Hands the aggregated buffer out.
    pub fn into_bytes(self) -> (r: Vec<u8>)
        ensures
            r@ == self.bytes(),
    {
        self.buf
    }
}

/// Aggregates a response-body stream: returns the concatenation of all data
/// frames when every frame arrived, and a transport error as soon as any
/// frame failed.
pub fn aggregate_frames(frames: &Vec<FrameEvent>) -> (r: Result<Vec<u8>, AppError>)
    ensures
        r is Ok <==> frames_ok(frames@),
        r matches Ok(b) ==> b@ == concat_frames(frames@),
        r is Err ==> r == Err::<Vec<u8>, AppError>(AppError::TransportError),
{
    let mut agg = BodyAggregator::new();
    let mut i: usize = 0;
    while i < frames.len()
        invariant
            i <= frames@.len(),
            agg.bytes() == concat_frames(frames@.subrange(0, i as int)),
            forall|j: int| 0 <= j < i ==> frames@[j] is Data,
        decreases frames@.len() - i,
    {
        match &frames[i] {
            FrameEvent::Data(d) => {
                agg.push_frame(d.as_slice());
            },
            FrameEvent::Failed => {
                return Err(AppError::TransportError);
            },
        }
        i = i + 1;
        assert(agg.bytes() == concat_frames(frames@.subrange(0, i as int))) by {
            assert(frames@.subrange(0, i as int).drop_last() == frames@.subrange(0, i - 1));
            assert(frames@.subrange(0, i as int).last() == frames@[i - 1]);
        }
    }
    assert(frames@.subrange(0, frames@.len() as int) == frames@);
    Ok(agg.into_bytes())
}

} // verus!
