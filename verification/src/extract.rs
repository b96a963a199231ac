//! The bounded body extractor and its error taxonomy.
//!
//! A request body arrives as a stream of byte chunks followed by one terminal
//! signal: a normal end of stream, or a transport fault. The extractor
//! concatenates the chunks in order into one contiguous buffer while holding
//! a configurable size policy: as soon as a chunk would push the accumulated
//! length past the bound it stops consuming, releases the partial buffer and
//! reports `TooLarge`. A transport fault reached with the accumulated length
//! still within the bound is reported as `StreamError`; a breach detected
//! strictly before the fault wins over it. The two failure kinds are never
//! conflated: `TooLarge` is a policy decision about the payload, while
//! `StreamError` is a transport fault.

use vstd::prelude::*;

verus! {

/// The body-size policy attached to a request before extraction runs:
/// either no limit, or a limit in bytes.
#[derive(PartialEq, Eq, Structural, Clone, Copy, Debug)]
pub enum SizeLimit {
    Unbounded,
    Bounded(u64),
}

/// How a body stream terminated after its chunks: a normal end of stream,
/// or a transport fault with its detail text.
#[derive(PartialEq, Eq, Clone, Debug)]
pub enum StreamEnd {
    Eof,
    Fault(String),
}

/// Why extraction failed: the body exceeded the configured bound, or the
/// underlying transport failed mid-read with the given cause. Mutually
/// exclusive; no failure encodes both.
#[derive(PartialEq, Eq, Clone, Debug)]
pub enum ExtractionFailure {
    TooLarge,
    StreamError(String),
}

/// Whether a body of the given length satisfies the size policy.
pub open spec fn within_limit(policy: SizeLimit, len: nat) -> bool {
    match policy {
        SizeLimit::Unbounded => true,
        SizeLimit::Bounded(max) => len <= max,
    }
}

/// The concatenation of byte chunks in order.
pub open spec fn concat_bytes(chunks: Seq<Seq<u8>>) -> Seq<u8>
    decreases chunks.len(),
{
    if chunks.len() == 0 {
        Seq::empty()
    } else {
        concat_bytes(chunks.drop_last()) + chunks.last()
    }
}

/// The byte sequences held by a vector of chunks.
pub open spec fn chunk_views(chunks: Seq<Vec<u8>>) -> Seq<Seq<u8>> {
    chunks.map_values(|c: Vec<u8>| c@)
}

/// When extraction succeeds: the stream ended without a fault and the whole
/// body satisfies the policy.
pub open spec fn extraction_ok(policy: SizeLimit, chunks: Seq<Seq<u8>>, end: StreamEnd) -> bool {
    end is Eof && within_limit(policy, concat_bytes(chunks).len())
}

/// When extraction reports `TooLarge`: the whole body breaks the policy.
/// The breach is detected on the first chunk that crosses the bound, so it
/// wins over a fault that the stream would only raise later.
pub open spec fn extraction_too_large(policy: SizeLimit, chunks: Seq<Seq<u8>>) -> bool {
    !within_limit(policy, concat_bytes(chunks).len())
}

/// When extraction reports `StreamError`: the stream faulted and the bytes
/// delivered before the fault stay within the policy.
pub open spec fn extraction_stream_error(
    policy: SizeLimit,
    chunks: Seq<Seq<u8>>,
    end: StreamEnd,
) -> bool {
    end is Fault && within_limit(policy, concat_bytes(chunks).len())
}

/// A prefix of the chunks never concatenates to more bytes than the whole.
pub proof fn lemma_concat_take_len(chunks: Seq<Seq<u8>>, j: int)
    requires
        0 <= j <= chunks.len(),
    ensures
        concat_bytes(chunks.take(j)).len() <= concat_bytes(chunks).len(),
    decreases chunks.len(),
{
    if j == chunks.len() {
        assert(chunks.take(j) =~= chunks);
    } else {
        assert(chunks.drop_last().take(j) =~= chunks.take(j));
        lemma_concat_take_len(chunks.drop_last(), j);
    }
}

/// Accumulates the chunks of one in-flight body under a size policy: the
/// size-limiting decorator around the chunk source. The buffer and the
/// policy are owned exclusively by the one extraction call.
pub struct BodyAccumulator {
    policy: SizeLimit,
    buf: Vec<u8>,
}

impl BodyAccumulator {
    /// The policy the accumulation runs under.
    pub closed spec fn policy(&self) -> SizeLimit {
        self.policy
    }

    /// The bytes accumulated so far.
    pub closed spec fn buffered(&self) -> Seq<u8> {
        self.buf@
    }

    /// Starts an empty accumulation under the given policy.
    pub fn new(policy: SizeLimit) -> (r: BodyAccumulator)
        ensures
            r.policy() == policy,
            r.buffered() == Seq::<u8>::empty(),
    {
        BodyAccumulator { policy, buf: Vec::new() }
    }

    /// The number of bytes accumulated so far.
    pub fn len(&self) -> (r: usize)
        ensures
            r == self.buffered().len(),
    {
        self.buf.len()
    }

    /// Appends one chunk to the buffer. If the chunk would push the
    /// accumulated length past the bound, nothing of it is buffered — not
    /// even transiently — the partial buffer is released, and the push
    /// reports `TooLarge`.
    pub fn push(&mut self, chunk: &[u8]) -> (r: Result<(), ExtractionFailure>)
        ensures
            final(self).policy() == old(self).policy(),
            match r {
                Ok(()) => within_limit(
                    old(self).policy(),
                    old(self).buffered().len() + chunk@.len(),
                ) && final(self).buffered() == old(self).buffered() + chunk@,
                Err(f) => f == ExtractionFailure::TooLarge && !within_limit(
                    old(self).policy(),
                    old(self).buffered().len() + chunk@.len(),
                ) && final(self).buffered().len() == 0,
            },
    {
        match self.policy {
            SizeLimit::Unbounded => {
                let ghost pre = self.buf@;
                self.buf.extend_from_slice(chunk);
                proof {
                    assert(self.buf@ =~= pre + chunk@);
                }
                Ok(())
            },
            SizeLimit::Bounded(max) => {
                let chunk_len = chunk.len() as u64;
                if chunk_len > max || self.buf.len() as u64 > max - chunk_len {
                    self.buf.clear();
                    Err(ExtractionFailure::TooLarge)
                } else {
                    let ghost pre = self.buf@;
                    self.buf.extend_from_slice(chunk);
                    proof {
                        assert(self.buf@ =~= pre + chunk@);
                    }
                    Ok(())
                }
            },
        }
    }

    /// Finishes the accumulation, yielding the buffered bytes.
    pub fn finish(self) -> (r: Vec<u8>)
        ensures
            r@ == self.buffered(),
    {
        self.buf
    }
}

/// Materializes a body into one contiguous buffer under the given policy.
///
/// `chunks` are the byte chunks the stream delivered, in order, and `end` is
/// its terminal signal. On success the buffer is exactly the concatenation
/// of the chunks. A body past the bound yields `TooLarge`; a fault reached
/// within the bound yields `StreamError` with its cause.
pub fn extract_body(policy: SizeLimit, chunks: &Vec<Vec<u8>>, end: StreamEnd) -> (r: Result<
    Vec<u8>,
    ExtractionFailure,
>)
    ensures
        (r is Ok) <==> extraction_ok(policy, chunk_views(chunks@), end),
        r matches Ok(buf) ==> buf@ == concat_bytes(chunk_views(chunks@)),
        (r matches Err(ExtractionFailure::TooLarge)) <==> extraction_too_large(
            policy,
            chunk_views(chunks@),
        ),
        (r matches Err(ExtractionFailure::StreamError(_))) <==> extraction_stream_error(
            policy,
            chunk_views(chunks@),
            end,
        ),
        r matches Err(ExtractionFailure::StreamError(cause)) ==> end == StreamEnd::Fault(cause),
{
    let ghost cv = chunk_views(chunks@);
    let mut acc = BodyAccumulator::new(policy);
    let mut i: usize = 0;
    while i < chunks.len()
        invariant
            i <= chunks.len(),
            cv == chunk_views(chunks@),
            acc.policy() == policy,
            acc.buffered() == concat_bytes(cv.take(i as int)),
            within_limit(policy, concat_bytes(cv.take(i as int)).len()),
        decreases chunks.len() - i,
    {
        let chunk: &Vec<u8> = &chunks[i];
        let r = acc.push(chunk.as_slice());
        proof {
            assert(cv.take(i + 1).drop_last() =~= cv.take(i as int));
            assert(cv.take(i + 1).last() == chunk@);
        }
        match r {
            Ok(()) => {},
            Err(f) => {
                proof {
                    lemma_concat_take_len(cv, i + 1);
                }
                return Err(f);
            },
        }
        i = i + 1;
    }
    proof {
        assert(cv.take(chunks@.len() as int) =~= cv);
    }
    match end {
        StreamEnd::Eof => Ok(acc.finish()),
        StreamEnd::Fault(cause) => Err(ExtractionFailure::StreamError(cause)),
    }
}

/// The status a failure maps to: the client-error status for a payload past
/// the bound, the server-error status for a transport fault.
pub open spec fn failure_status(f: ExtractionFailure) -> u16 {
    match f {
        ExtractionFailure::TooLarge => crate::response::STATUS_BAD_REQUEST,
        ExtractionFailure::StreamError(_) => crate::response::STATUS_INTERNAL_SERVER_ERROR,
    }
}

/// Maps an extraction failure to a status-coded response. The mapping is a
/// pure function of the failure kind; the response carries no headers and no
/// body, so a transport fault's detail never leaks to the client.
pub fn error_response(failure: &ExtractionFailure) -> (r: crate::response::Response)
    ensures
        r.status == failure_status(*failure),
        r.headers@.len() == 0,
        r.body@.len() == 0,
{
    match failure {
        ExtractionFailure::TooLarge => crate::response::Response::with_status(
            crate::response::STATUS_BAD_REQUEST,
        ),
        ExtractionFailure::StreamError(_) => crate::response::Response::with_status(
            crate::response::STATUS_INTERNAL_SERVER_ERROR,
        ),
    }
}

/// Law: mapping the same failure value twice yields responses with identical
/// status codes — the status is a function of the failure alone.
pub proof fn lemma_error_mapper_idempotent(
    f: ExtractionFailure,
    r1: crate::response::Response,
    r2: crate::response::Response,
)
    requires
        r1.status == failure_status(f),
        r2.status == failure_status(f),
    ensures
        r1.status == r2.status,
{
}

/// Law: under `Bounded(max)`, a stream of total length within `max` that
/// ends without a fault always extracts successfully.
pub proof fn lemma_bounded_within_succeeds(max: u64, chunks: Seq<Seq<u8>>)
    requires
        concat_bytes(chunks).len() <= max,
    ensures
        extraction_ok(SizeLimit::Bounded(max), chunks, StreamEnd::Eof),
        !extraction_too_large(SizeLimit::Bounded(max), chunks),
{
}

/// Law: under `Bounded(max)`, a stream whose total length exceeds `max` is
/// rejected as too large, never accepted and never blamed on the transport.
pub proof fn lemma_bounded_exceeding_rejected(max: u64, chunks: Seq<Seq<u8>>, end: StreamEnd)
    requires
        concat_bytes(chunks).len() > max,
    ensures
        extraction_too_large(SizeLimit::Bounded(max), chunks),
        !extraction_ok(SizeLimit::Bounded(max), chunks, end),
        !extraction_stream_error(SizeLimit::Bounded(max), chunks, end),
{
}

/// Law: under `Unbounded`, a stream that terminates without a fault always
/// extracts successfully, whatever its size.
pub proof fn lemma_unbounded_always_succeeds(chunks: Seq<Seq<u8>>)
    ensures
        extraction_ok(SizeLimit::Unbounded, chunks, StreamEnd::Eof),
        !extraction_too_large(SizeLimit::Unbounded, chunks),
{
}

/// Law: a transport fault is classified as a stream error — never as a
/// too-large failure and never as a success — whenever the bytes delivered
/// before the fault stay within the bound. A breach detected strictly
/// before the fault wins over it instead: see `extraction_too_large`.
pub proof fn lemma_fault_classified_as_stream_error(
    policy: SizeLimit,
    chunks: Seq<Seq<u8>>,
    end: StreamEnd,
)
    requires
        end is Fault,
        within_limit(policy, concat_bytes(chunks).len()),
    ensures
        extraction_stream_error(policy, chunks, end),
        !extraction_too_large(policy, chunks),
        !extraction_ok(policy, chunks, end),
{
}

} // verus!
