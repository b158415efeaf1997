//! How the codec's per-call return codes and split counters are read.
use libc::c_int;
use vstd::prelude::*;

verus! {

/// What one call into the codec means for the adapter driving it.
#[derive(Clone, Copy, Debug, PartialEq, Eq, Structural)]
pub enum Verdict {
    /// The call made progress, or had nothing to emit yet, or the output was full.
    Continue,
    /// The codec reached the logical end of the stream.
    StreamEnd,
    /// The codec reported an error: the input is corrupt or the call was illegal.
    Invalid,
}

/// The code with which bzip2 reports the end of a stream.
pub open spec fn stream_end_code() -> int {
    4
}

/// The code with which bzip2 reports that the output buffer filled up.
pub open spec fn output_full_code() -> int {
    -8
}

/// The meaning of a codec return code: the end-of-stream code ends the stream,
/// a full output buffer or any other non-negative code lets the stream go on,
/// and every other negative code is an error.
pub open spec fn verdict_of(rc: int) -> Verdict {
    if rc == stream_end_code() {
        Verdict::StreamEnd
    } else if rc == output_full_code() || rc >= 0 {
        Verdict::Continue
    } else {
        Verdict::Invalid
    }
}

/// Relies on libbz2_rs_sys::BZ_STREAM_END, the end-of-stream return code.
#[verifier::external_body]
fn bz_stream_end() -> (r: c_int)
    ensures
        r as int == stream_end_code(),
{
    libbz2_rs_sys::BZ_STREAM_END
}

/// Relies on libbz2_rs_sys::BZ_OUTBUFF_FULL, the output-buffer-full return code.
#[verifier::external_body]
fn bz_outbuff_full() -> (r: c_int)
    ensures
        r as int == output_full_code(),
{
    libbz2_rs_sys::BZ_OUTBUFF_FULL
}

/// Classifies a return code of a compress or decompress call.
pub fn classify(rc: c_int) -> (r: Verdict)
    ensures
        r == verdict_of(rc as int),
{
    if rc == bz_stream_end() {
        Verdict::StreamEnd
    } else if rc == bz_outbuff_full() || rc >= 0 {
        Verdict::Continue
    } else {
        Verdict::Invalid
    }
}

/// Joins the two 32-bit halves in which the codec keeps a byte counter.
pub fn join_counter(lo: u32, hi: u32) -> (r: u64)
    ensures
        r as int == hi as int * 0x1_0000_0000 + lo as int,
{
    assert(hi as int * 0x1_0000_0000 + lo as int <= u64::MAX) by (nonlinear_arith)
        requires
            hi <= u32::MAX,
            lo <= u32::MAX,
    ;
    (hi as u64) * 0x1_0000_0000 + (lo as u64)
}

} // verus!
