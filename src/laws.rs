//! Properties of the pull adapter that hold across its transitions.
use crate::adapter::{
    after_refill, after_transform, begin_pull, coherent, Direction, PullState, Stage, Step,
};
use crate::status::{verdict_of, Verdict};
use vstd::prelude::*;

verus! {

/// A decompressing pull into a zero-length destination returns 0 and leaves
/// the adapter as it was, so no source byte is read or consumed: at the start,
/// mid-stream and after the stream has ended alike.
pub proof fn zero_length_decompress_pull(s: PullState)
    requires
        s.wf(),
        s.direction == Direction::Decompress,
    ensures
        begin_pull(s, 0) == (s, Step::Produced(0)),
{
}

/// Once the stream has finished, every pull, into a destination of any
/// length, returns 0 and leaves the adapter as it was.
pub proof fn finished_pull_is_empty(s: PullState, len: nat)
    requires
        s.wf(),
        s.finished,
    ensures
        begin_pull(s, len) == (s, Step::Produced(0)),
{
}

/// No transition takes back a finished stream, and none lowers the consumed
/// or produced counters, or the count of bytes delivered by the source.
pub proof fn transitions_are_monotone(
    s: PullState,
    len: nat,
    n: nat,
    new_in: nat,
    new_out: nat,
    rc: int,
)
    ensures
        ({
            let b = begin_pull(s, len).0;
            &&& s.finished ==> b.finished
            &&& s.total_in <= b.total_in && s.total_out <= b.total_out
            &&& s.delivered <= b.delivered
        }),
        ({
            let f = after_refill(s, n).0;
            &&& s.finished ==> f.finished
            &&& s.total_in <= f.total_in && s.total_out <= f.total_out
            &&& s.delivered <= f.delivered
        }),
        ({
            let t = after_transform(s, new_in, new_out, rc).0;
            &&& s.finished ==> t.finished
            &&& s.total_in <= t.total_in && s.total_out <= t.total_out
            &&& s.delivered <= t.delivered
        }),
{
}

/// Every transition from a well-formed state reaches a well-formed state, in
/// which the codec has consumed exactly the delivered bytes less those still
/// unread in the scratch buffer.
pub proof fn transitions_keep_count_of_consumed(
    s: PullState,
    len: nat,
    n: nat,
    new_in: nat,
    new_out: nat,
    rc: int,
)
    requires
        s.wf(),
    ensures
        s.total_in == s.delivered - (s.filled - s.cursor),
        len <= usize::MAX ==> begin_pull(s, len).0.wf(),
        s.stage == Stage::AwaitRefill && n <= crate::adapter::SCRATCH_CAPACITY ==> after_refill(
            s,
            n,
        ).0.wf(),
        s.stage == Stage::AwaitTransform && new_in <= u64::MAX && new_out <= u64::MAX
            ==> after_transform(s, new_in, new_out, rc).0.wf(),
{
}

/// A pull goes on to another round only when the codec call produced nothing
/// and the source was not found exhausted in this round.
pub proof fn another_round_only_without_progress(
    s: PullState,
    new_in: nat,
    new_out: nat,
    rc: int,
)
    requires
        s.wf(),
        s.stage == Stage::AwaitTransform,
    ensures
        ({
            let r = after_transform(s, new_in, new_out, rc).1;
            !(r is Produced) && !(r is Invalid) ==> new_out == s.total_out && !s.eof
        }),
{
}

/// Once the source is found exhausted, the next codec call ends the pull.
pub proof fn exhausted_source_ends_pull(s: PullState, new_in: nat, new_out: nat, rc: int)
    requires
        s.wf(),
        s.stage == Stage::AwaitRefill,
    ensures
        ({
            let r = after_transform(after_refill(s, 0).0, new_in, new_out, rc).1;
            r is Produced || r is Invalid
        }),
{
}


/// Whenever the codec is to be called, it is fed exactly the scratch bytes it
/// has not consumed, from the cursor to the end of the valid bytes, so no byte
/// is skipped or fed twice; and a refill comes only once all of them are consumed.
pub proof fn codec_is_fed_the_unread_bytes(s: PullState, len: nat, n: nat)
    requires
        s.wf(),
        len <= usize::MAX,
        n <= crate::adapter::SCRATCH_CAPACITY,
    ensures
        ({
            let (t, r) = begin_pull(s, len);
            &&& r is Refill ==> t.cursor == t.filled
            &&& r is Compress ==> r->Compress_start == t.cursor && r->Compress_end == t.filled
            &&& r is Decompress ==> r->Decompress_start == t.cursor && r->Decompress_end
                == t.filled
        }),
        ({
            let (t, r) = after_refill(s, n);
            &&& r is Compress ==> r->Compress_start == t.cursor && r->Compress_end == t.filled
            &&& r is Decompress ==> r->Decompress_start == t.cursor && r->Decompress_end
                == t.filled
        }),
{
}

/// A source that is exhausted from the first read makes the compressor get
/// the finish action with no input at once, so that it emits its trailer.
pub proof fn empty_source_finishes_at_once(s: PullState)
    requires
        s.wf(),
        s.direction == Direction::Compress,
        s.stage == Stage::AwaitRefill,
    ensures
        after_refill(s, 0).1 == (Step::Compress {
            start: 0,
            end: 0,
            action: crate::adapter::CodecAction::Finish,
        }),
{
}

/// When the codec reports the end of the stream with output, the pull returns
/// that output and the stream is finished: the next pull, of any length,
/// returns 0 and reads nothing more from the source, whatever bytes follow there.
pub proof fn stream_end_stops_reading(
    s: PullState,
    new_in: nat,
    new_out: nat,
    rc: int,
    len: nat,
)
    requires
        s.wf(),
        s.stage == Stage::AwaitTransform,
        coherent(s, new_in, new_out),
        verdict_of(rc) == Verdict::StreamEnd,
        new_out > s.total_out,
    ensures
        ({
            let (t, r) = after_transform(s, new_in, new_out, rc);
            &&& t.finished
            &&& r == Step::Produced((new_out - s.total_out) as usize)
            &&& begin_pull(t, len) == (t, Step::Produced(0))
        }),
{
}

} // verus!
