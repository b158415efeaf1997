//! The pull adapter: the decisions that move bytes from a source, through a
//! scratch buffer, into a codec and out to the caller's destination.
//!
//! The adapter does not hold the source, the scratch bytes or the codec. Its
//! owner performs the outside work that each [`Step`] names and reports the
//! outcome back, until a step returns a count or an error.
use crate::status::{classify, verdict_of, Verdict};
use libc::c_int;
use vstd::prelude::*;

verus! {

/// Capacity of the scratch buffer that holds source bytes not yet consumed.
pub const SCRATCH_CAPACITY: usize = 32 * 1024;

/// Which transform the codec performs.
#[derive(Clone, Copy, Debug, PartialEq, Eq, Structural)]
pub enum Direction {
    Compress,
    Decompress,
}

/// The hint handed to the compressor: whether more input may follow.
#[derive(Clone, Copy, Debug, PartialEq, Eq, Structural)]
pub enum CodecAction {
    Run,
    Finish,
}

/// Where the adapter stands within one pull.
#[derive(Clone, Copy, Debug, PartialEq, Eq, Structural)]
pub enum Stage {
    /// No pull is in progress.
    Idle,
    /// Waiting for the outcome of a source read into the scratch buffer.
    AwaitRefill,
    /// Waiting for the outcome of a codec call.
    AwaitTransform,
}

/// What the owner of the adapter does next.
#[derive(Clone, Copy, Debug, PartialEq, Eq, Structural)]
pub enum Step {
    /// Read once from the source into the whole scratch buffer and report the
    /// count with [`PullAdapter::refilled`].
    Refill,
    /// Compress `scratch[start..end]` into the destination with `action`, then
    /// report with [`PullAdapter::transformed`].
    Compress { start: usize, end: usize, action: CodecAction },
    /// Decompress `scratch[start..end]` into the destination, then report with
    /// [`PullAdapter::transformed`].
    Decompress { start: usize, end: usize },
    /// The pull is over: this many bytes were written to the destination.
    Produced(usize),
    /// The pull is over: the codec rejected its input.
    Invalid,
}

/// The mathematical state of a [`PullAdapter`].
pub struct PullState {
    pub direction: Direction,
    /// Number of valid bytes in the scratch buffer.
    pub filled: nat,
    /// Offset of the next scratch byte that the codec has not consumed.
    pub cursor: nat,
    /// The transformed stream has ended.
    pub finished: bool,
    /// The last refill of the current pull found the source exhausted.
    pub eof: bool,
    /// Length of the destination of the pull in progress.
    pub want: nat,
    pub stage: Stage,
    /// Bytes the codec has consumed so far.
    pub total_in: nat,
    /// Bytes the codec has produced so far.
    pub total_out: nat,
    /// Bytes the source has delivered so far.
    pub delivered: nat,
}

impl PullState {
    /// The adapter's invariant. The codec has consumed exactly what the
    /// source delivered, except the scratch bytes from `cursor` to `filled`.
    pub open spec fn wf(self) -> bool {
        &&& self.cursor <= self.filled <= SCRATCH_CAPACITY
        &&& self.want <= usize::MAX
        &&& self.total_in <= u64::MAX
        &&& self.total_out <= u64::MAX
        &&& self.total_in + (self.filled - self.cursor) == self.delivered
        &&& self.stage != Stage::Idle ==> !self.finished
        &&& self.stage == Stage::AwaitRefill ==> self.cursor == self.filled
    }
}

/// The state of a fresh adapter: nothing read, nothing consumed or produced.
pub open spec fn initial(direction: Direction) -> PullState {
    PullState {
        direction,
        filled: 0,
        cursor: 0,
        finished: false,
        eof: false,
        want: 0,
        stage: Stage::Idle,
        total_in: 0,
        total_out: 0,
        delivered: 0,
    }
}

/// The codec call that feeds `scratch[start..end]`; the compressor is told to
/// finish exactly when the source is exhausted.
pub open spec fn transform_step(direction: Direction, start: nat, end: nat, at_eof: bool) -> Step {
    match direction {
        Direction::Compress => Step::Compress {
            start: start as usize,
            end: end as usize,
            action: if at_eof { CodecAction::Finish } else { CodecAction::Run },
        },
        Direction::Decompress => Step::Decompress { start: start as usize, end: end as usize },
    }
}

/// Start of one round of a pull: refill when every scratch byte is consumed,
/// else feed what remains.
pub open spec fn next_round(s: PullState) -> (PullState, Step) {
    if s.cursor == s.filled {
        (PullState { stage: Stage::AwaitRefill, eof: false, ..s }, Step::Refill)
    } else {
        (
            PullState { stage: Stage::AwaitTransform, eof: false, ..s },
            transform_step(s.direction, s.cursor, s.filled, false),
        )
    }
}

/// A pull into a destination of `len` bytes. A finished stream, and a
/// zero-length destination of a decompressor, give 0 at once and change nothing.
pub open spec fn begin_pull(s: PullState, len: nat) -> (PullState, Step) {
    if s.finished || (s.direction == Direction::Decompress && len == 0) {
        (s, Step::Produced(0))
    } else {
        next_round(PullState { want: len, ..s })
    }
}

/// The source delivered `n` bytes into the scratch buffer; 0 means exhaustion.
pub open spec fn after_refill(s: PullState, n: nat) -> (PullState, Step) {
    (
        PullState {
            filled: n,
            cursor: 0,
            eof: n == 0,
            delivered: s.delivered + n,
            stage: Stage::AwaitTransform,
            ..s
        },
        transform_step(s.direction, 0, n, n == 0),
    )
}

/// The codec's counters after a call are coherent with the call: neither went
/// back, it consumed no more than it was fed and produced no more than fits.
pub open spec fn coherent(s: PullState, new_in: nat, new_out: nat) -> bool {
    &&& s.total_in <= new_in
    &&& s.total_out <= new_out
    &&& new_in - s.total_in <= s.filled - s.cursor
    &&& new_out - s.total_out <= s.want
}

/// The codec call returned `rc` and left its counters at `new_in` and
/// `new_out`. The consumed bytes advance the cursor. The stream finishes when
/// the codec reports its end with output. The pull goes on to another round
/// only when it produced nothing and the source is not exhausted.
pub open spec fn after_transform(s: PullState, new_in: nat, new_out: nat, rc: int) -> (
    PullState,
    Step,
) {
    if !coherent(s, new_in, new_out) || verdict_of(rc) == Verdict::Invalid {
        (PullState { stage: Stage::Idle, ..s }, Step::Invalid)
    } else {
        let produced = new_out - s.total_out;
        let t = PullState {
            cursor: (s.cursor + (new_in - s.total_in)) as nat,
            total_in: new_in,
            total_out: new_out,
            finished: s.finished || (verdict_of(rc) == Verdict::StreamEnd && produced > 0),
            ..s
        };
        if produced == 0 && !s.eof {
            next_round(t)
        } else {
            (PullState { stage: Stage::Idle, ..t }, Step::Produced(produced as usize))
        }
    }
}

/// The decision state of one buffered pull adapter.
pub struct PullAdapter {
    direction: Direction,
    filled: usize,
    cursor: usize,
    finished: bool,
    eof: bool,
    want: usize,
    stage: Stage,
    total_in: u64,
    total_out: u64,
    delivered: Ghost<nat>,
}

impl View for PullAdapter {
    type V = PullState;

    closed spec fn view(&self) -> PullState {
        PullState {
            direction: self.direction,
            filled: self.filled as nat,
            cursor: self.cursor as nat,
            finished: self.finished,
            eof: self.eof,
            want: self.want as nat,
            stage: self.stage,
            total_in: self.total_in as nat,
            total_out: self.total_out as nat,
            delivered: self.delivered@,
        }
    }
}

impl PullAdapter {
    /// A fresh adapter for a codec whose counters start at zero.
    pub fn new(direction: Direction) -> (r: PullAdapter)
        ensures
            r@ == initial(direction),
            r@.wf(),
    {
        PullAdapter {
            direction,
            filled: 0,
            cursor: 0,
            finished: false,
            eof: false,
            want: 0,
            stage: Stage::Idle,
            total_in: 0,
            total_out: 0,
            delivered: Ghost(0),
        }
    }

    /// Where the adapter stands within a pull.
    pub fn stage(&self) -> (r: Stage)
        ensures
            r == self@.stage,
    {
        self.stage
    }

    /// Whether the transformed stream has ended.
    pub fn is_finished(&self) -> (r: bool)
        ensures
            r == self@.finished,
    {
        self.finished
    }

    /// Bytes the codec has consumed, as last reported to the adapter.
    pub fn total_in(&self) -> (r: u64)
        ensures
            r == self@.total_in,
    {
        self.total_in
    }

    /// Bytes the codec has produced, as last reported to the adapter.
    pub fn total_out(&self) -> (r: u64)
        ensures
            r == self@.total_out,
    {
        self.total_out
    }

    fn round(&mut self) -> (r: Step)
        requires
            old(self)@.wf(),
            !old(self)@.finished,
        ensures
            (final(self)@, r) == next_round(old(self)@),
            final(self)@.wf(),
    {
        self.eof = false;
        if self.cursor == self.filled {
            self.stage = Stage::AwaitRefill;
            Step::Refill
        } else {
            self.stage = Stage::AwaitTransform;
            self.transform(self.cursor, false)
        }
    }

    fn transform(&self, start: usize, at_eof: bool) -> (r: Step)
        ensures
            r == transform_step(self@.direction, start as nat, self@.filled, at_eof),
    {
        match self.direction {
            Direction::Compress => Step::Compress {
                start,
                end: self.filled,
                action: if at_eof { CodecAction::Finish } else { CodecAction::Run },
            },
            Direction::Decompress => Step::Decompress { start, end: self.filled },
        }
    }

    /// Starts a pull into a destination of `len` bytes. A pull that was left
    /// while waiting for a refill, as when the source failed, starts over.
    pub fn begin(&mut self, len: usize) -> (r: Step)
        requires
            old(self)@.wf(),
        ensures
            (final(self)@, r) == begin_pull(old(self)@, len as nat),
            final(self)@.wf(),
    {
        let zero_len_decompress = match self.direction {
            Direction::Decompress => len == 0,
            Direction::Compress => false,
        };
        if self.finished || zero_len_decompress {
            return Step::Produced(0);
        }
        self.want = len;
        self.round()
    }

    /// Reports that a read from the source put `n` bytes at the start of the
    /// scratch buffer.
    pub fn refilled(&mut self, n: usize) -> (r: Step)
        requires
            old(self)@.wf(),
            old(self)@.stage == Stage::AwaitRefill,
            n <= SCRATCH_CAPACITY,
        ensures
            (final(self)@, r) == after_refill(old(self)@, n as nat),
            final(self)@.wf(),
    {
        self.filled = n;
        self.cursor = 0;
        self.eof = n == 0;
        self.delivered = Ghost((self.delivered@ + n) as nat);
        self.stage = Stage::AwaitTransform;
        self.transform(0, n == 0)
    }

    /// Reports that the codec call returned `rc` and that its counters now
    /// stand at `new_in` and `new_out`.
    pub fn transformed(&mut self, new_in: u64, new_out: u64, rc: c_int) -> (r: Step)
        requires
            old(self)@.wf(),
            old(self)@.stage == Stage::AwaitTransform,
        ensures
            (final(self)@, r) == after_transform(
                old(self)@,
                new_in as nat,
                new_out as nat,
                rc as int,
            ),
            final(self)@.wf(),
    {
        let verdict = classify(rc);
        let unread = (self.filled - self.cursor) as u64;
        let went_back = new_in < self.total_in || new_out < self.total_out;
        if went_back || new_in - self.total_in > unread || new_out - self.total_out > self.want as u64 {
            self.stage = Stage::Idle;
            return Step::Invalid;
        }
        if let Verdict::Invalid = verdict {
            self.stage = Stage::Idle;
            return Step::Invalid;
        }
        let consumed = (new_in - self.total_in) as usize;
        let produced = (new_out - self.total_out) as usize;
        self.cursor = self.cursor + consumed;
        self.total_in = new_in;
        self.total_out = new_out;
        if let Verdict::StreamEnd = verdict {
            if produced > 0 {
                self.finished = true;
            }
        }
        if produced == 0 && !self.eof {
            self.round()
        } else {
            self.stage = Stage::Idle;
            Step::Produced(produced)
        }
    }
}

} // verus!
