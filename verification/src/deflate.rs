//! Streaming compression: a resumable compressor driven one bounded-buffer
//! call at a time, and one-shot helpers built on top of it.
//!
//! The DEFLATE bit-level encoding is done by `miniz_oxide`'s compressor
//! engine; this module verifies the control layer around it: the call
//! protocol (terminal-state handling, flush modes, progress reporting) and
//! the orchestration loops that feed the engine from chunked input.

use vstd::prelude::*;

use crate::MZError;
use crate::MZFlush;
use crate::MZStatus;
use crate::StreamResult;

verus! {

#[verifier::external_type_specification]
#[verifier::external_body]
pub struct ExCompressorOxide(miniz_oxide::deflate::core::CompressorOxide);

/// Relies on `miniz_oxide::deflate::core::CompressorOxide::default`: a
/// fresh compressor with zlib framing at the engine's default level.
#[verifier::external_body]
fn new_compressor_default() -> miniz_oxide::deflate::core::CompressorOxide {
    miniz_oxide::deflate::core::CompressorOxide::default()
}

/// Relies on `miniz_oxide::deflate::core::CompressorOxide::set_format_and_level`:
/// reconfigures the framing and effort level of a compressor not yet driven.
#[verifier::external_body]
fn set_compressor_format_and_level(
    comp: &mut miniz_oxide::deflate::core::CompressorOxide,
    zlib: bool,
    level: u8,
)
    requires
        level <= 10,
{
    let format = if zlib {
        miniz_oxide::DataFormat::Zlib
    } else {
        miniz_oxide::DataFormat::Raw
    };
    comp.set_format_and_level(format, level);
}

/// Relies on `miniz_oxide::deflate::core::compress`. Its source shows: the
/// consumed count never exceeds the input handed in; the call sees only
/// the span from `out_start` on, so nothing below `out_start` changes, and
/// the buffer's length never does — past `out_start + written` the span may
/// hold scratch, since an over-long block attempt is rewound and rewritten
/// as a stored block; the status code is one of the four in -2..=1, and
/// the stream-end code 1 is only ever returned for a finish request.
#[verifier::external_body]
fn deflate_core(
    comp: &mut miniz_oxide::deflate::core::CompressorOxide,
    input: &[u8],
    in_start: usize,
    out: &mut Vec<u8>,
    out_start: usize,
    flush: MZFlush,
) -> (r: (i32, usize, usize))
    requires
        in_start <= input@.len(),
        out_start <= old(out)@.len(),
    ensures
        final(out)@.len() == old(out)@.len(),
        -2 <= r.0 <= 1,
        r.0 == 1 ==> flush == MZFlush::Finish,
        r.1 <= input@.len() - in_start,
        r.2 <= old(out)@.len() - out_start,
        forall|i: int| 0 <= i < out_start ==> final(out)@[i] == old(out)@[i],
{
    let engine_flush = match flush {
        MZFlush::NoFlush => miniz_oxide::deflate::core::TDEFLFlush::None,
        MZFlush::Partial => miniz_oxide::deflate::core::TDEFLFlush::Partial,
        MZFlush::Sync => miniz_oxide::deflate::core::TDEFLFlush::Sync,
        MZFlush::Full => miniz_oxide::deflate::core::TDEFLFlush::Full,
        MZFlush::Finish => miniz_oxide::deflate::core::TDEFLFlush::Finish,
    };
    let (status, consumed, written) = miniz_oxide::deflate::core::compress(
        comp,
        &input[in_start..],
        &mut out.as_mut_slice()[out_start..],
        engine_flush,
    );
    (status as i32, consumed, written)
}

/// A resumable compressor for one logical stream.
///
/// Wraps the engine state together with the one fact the call protocol
/// turns on: whether a previous call already terminated the stream.
pub struct Compressor {
    inner: miniz_oxide::deflate::core::CompressorOxide,
    finished: bool,
}

impl Compressor {
    /// Whether a previous call has already terminated the stream.
    pub closed spec fn is_finished(&self) -> bool {
        self.finished
    }

    /// A fresh compressor with the chosen framing and effort level: zlib
    /// framing adds the 2-byte header and the trailing Adler-32 checksum,
    /// and `level` trades match-search effort for speed, 0 emitting only
    /// literals.
    pub fn new(zlib: bool, level: u8) -> (c: Compressor)
        requires
            level <= 10,
        ensures
            !c.is_finished(),
    {
        let mut inner = new_compressor_default();
        set_compressor_format_and_level(&mut inner, zlib, level);
        Compressor { inner, finished: false }
    }
}

impl Default for Compressor {
    /// A fresh compressor with zlib framing at the engine's default level.
    fn default() -> (c: Compressor)
        ensures
            !c.is_finished(),
    {
        Compressor { inner: new_compressor_default(), finished: false }
    }
}

/// How many consecutive engine calls may consume no input before the
/// stream is declared stuck.
const STALL_LIMIT: usize = 64;

/// Compresses from `input` into `output` with the given compressor,
/// resuming wherever the previous call stopped.
///
/// Every call truthfully reports the bytes consumed and written; the caller
/// slices its buffers by exactly these amounts before the next call. Bytes
/// past `bytes_written` may hold scratch from abandoned block attempts and
/// carry no meaning.
///
/// An empty `output` is a parameter violation and reports `MZError::Buf`
/// with zero progress. Once a call has reported `MZStatus::StreamEnd`, the
/// stream is terminated: a further call with `MZFlush::Finish` reports
/// `MZStatus::StreamEnd` again with zero progress, and any other flush mode
/// reports `MZError::Buf`. A call that can make no progress at all — no
/// input left, no flush requested, nothing consumed or written — reports
/// `MZError::Buf` with zero progress, and an engine that repeatedly makes
/// no progress at all is given up on with `MZError::Stream` rather than
/// being driven forever.
pub fn deflate(compressor: &mut Compressor, input: &[u8], output: &mut Vec<u8>, flush: MZFlush) -> (r:
    StreamResult)
    ensures
        final(output)@.len() == old(output)@.len(),
        r.bytes_consumed <= input@.len(),
        r.bytes_written <= old(output)@.len(),
        old(output)@.len() == 0 ==> r.status == Result::<MZStatus, MZError>::Err(MZError::Buf)
            && *final(compressor) == *old(compressor),
        r.status == Result::<MZStatus, MZError>::Err(MZError::Buf) ==> r.bytes_consumed == 0
            && r.bytes_written == 0,
        old(compressor).is_finished() ==> *final(compressor) == *old(compressor)
            && r.bytes_consumed == 0 && r.bytes_written == 0,
        old(compressor).is_finished() && old(output)@.len() > 0 && flush == MZFlush::Finish
            ==> r.status == Result::<MZStatus, MZError>::Ok(MZStatus::StreamEnd),
        old(compressor).is_finished() && old(output)@.len() > 0 && flush != MZFlush::Finish
            ==> r.status == Result::<MZStatus, MZError>::Err(MZError::Buf),
        !old(compressor).is_finished() ==> (final(compressor).is_finished() <==> r.status
            == Result::<MZStatus, MZError>::Ok(MZStatus::StreamEnd)),
        r.status == Result::<MZStatus, MZError>::Ok(MZStatus::StreamEnd) ==> flush
            == MZFlush::Finish,
        r.status == Result::<MZStatus, MZError>::Ok(MZStatus::Okay) && flush == MZFlush::NoFlush
            ==> r.bytes_consumed > 0 || r.bytes_written > 0,
        r.status == Result::<MZStatus, MZError>::Err(MZError::Buf)
            && !old(compressor).is_finished() && old(output)@.len() > 0 ==> input@.len() == 0
            && flush == MZFlush::NoFlush,
        r.status == Result::<MZStatus, MZError>::Ok(MZStatus::Okay) ==> r.bytes_written
            == old(output)@.len() || (r.bytes_consumed == input@.len() && flush
            != MZFlush::Finish),
{
    if output.len() == 0 {
        return StreamResult::error(MZError::Buf);
    }
    if compressor.finished {
        if flush == MZFlush::Finish {
            return StreamResult {
                bytes_consumed: 0,
                bytes_written: 0,
                status: Ok(MZStatus::StreamEnd),
            };
        } else {
            return StreamResult::error(MZError::Buf);
        }
    }
    let in_len: usize = input.len();
    let out_len: usize = output.len();
    let mut in_pos: usize = 0;
    let mut out_pos: usize = 0;
    let mut stall_fuel: usize = STALL_LIMIT;
    loop
        invariant
            in_len == input@.len(),
            out_len == output@.len(),
            out_len == old(output)@.len(),
            !old(compressor).is_finished(),
            in_pos <= in_len,
            out_pos <= out_len,
            0 < out_len,
            !compressor.finished,
        decreases in_len - in_pos, out_len - out_pos, stall_fuel,
    {
        let (code, consumed, written) = deflate_core(
            &mut compressor.inner,
            input,
            in_pos,
            output,
            out_pos,
            flush,
        );
        in_pos = in_pos + consumed;
        out_pos = out_pos + written;
        if code == -2 {
            return StreamResult {
                bytes_consumed: in_pos,
                bytes_written: out_pos,
                status: Err(MZError::Param),
            };
        }
        if code == -1 {
            return StreamResult {
                bytes_consumed: in_pos,
                bytes_written: out_pos,
                status: Err(MZError::Stream),
            };
        }
        if code == 1 {
            compressor.finished = true;
            return StreamResult {
                bytes_consumed: in_pos,
                bytes_written: out_pos,
                status: Ok(MZStatus::StreamEnd),
            };
        }
        // All the output space was used, so wait for more.
        if out_pos == out_len {
            return StreamResult {
                bytes_consumed: in_pos,
                bytes_written: out_pos,
                status: Ok(MZStatus::Okay),
            };
        }
        if in_pos == in_len && flush != MZFlush::Finish {
            if flush != MZFlush::NoFlush || in_pos > 0 || out_pos > 0 {
                // Something was consumed or written, and/or a flush to a
                // byte boundary was requested.
                return StreamResult {
                    bytes_consumed: in_pos,
                    bytes_written: out_pos,
                    status: Ok(MZStatus::Okay),
                };
            } else {
                // No more input, not flushing, and no progress at all.
                return StreamResult::error(MZError::Buf);
            }
        }
        if consumed == 0 && written == 0 {
            if stall_fuel == 0 {
                return StreamResult {
                    bytes_consumed: in_pos,
                    bytes_written: out_pos,
                    status: Err(MZError::Stream),
                };
            }
            stall_fuel = stall_fuel - 1;
        } else {
            stall_fuel = STALL_LIMIT;
        }
    }
}

/// Copies the bytes of `s` from `from` until `until` into a fresh vector.
fn vec_slice_range(s: &[u8], from: usize, until: usize) -> (v: Vec<u8>)
    requires
        from <= until <= s@.len(),
    ensures
        v@ == s@.subrange(from as int, until as int),
{
    let mut v: Vec<u8> = Vec::new();
    let mut i: usize = from;
    while i < until
        invariant
            from <= i <= until <= s@.len(),
            v@ == s@.subrange(from as int, i as int),
        decreases until - i,
    {
        v.push(s[i]);
        i = i + 1;
        proof {
            assert(v@ =~= s@.subrange(from as int, i as int));
        }
    }
    v
}

/// Appends the first `n` bytes of `src` to `dst`.
fn append_prefix(dst: &mut Vec<u8>, src: &Vec<u8>, n: usize)
    requires
        n <= src@.len(),
    ensures
        final(dst)@ == old(dst)@ + src@.subrange(0, n as int),
{
    let ghost dst0 = dst@;
    let mut i: usize = 0;
    while i < n
        invariant
            i <= n <= src@.len(),
            dst@ == dst0 + src@.subrange(0, i as int),
        decreases n - i,
    {
        dst.push(src[i]);
        i = i + 1;
        proof {
            assert(dst@ =~= dst0 + src@.subrange(0, i as int));
        }
    }
}

/// Backend of the one-shot compressions: feeds `input` to a fresh raw-format
/// compressor in chunks of at most `chunk_size` bytes through a bounded
/// transfer buffer, collecting everything the engine emits.
///
/// The callback is handed the number of input bytes consumed by each engine
/// call, and on success one final corrective increment, so that the sum of
/// all increments equals the length of `input` exactly when compression
/// finishes successfully.
fn compress_to_vec_inner<F: Fn(usize)>(
    input: &[u8],
    level: u8,
    chunk_size: usize,
    callback_func: F,
) -> (r: Result<Vec<u8>, MZError>)
    requires
        level <= 10,
        chunk_size >= 1,
        forall|n: usize| call_requires(callback_func, (n,)),
    ensures
        r matches Err(e) ==> e == MZError::Param || e == MZError::Stream,
{
    let size: usize = input.len();
    let mut compressor = Compressor::new(false, level);
    let mut result: Vec<u8> = Vec::new();
    let mut out_buf: Vec<u8> = vec![0u8; 32 * 1024];
    let mut in_pos: usize = 0;
    let mut reported: usize = 0;
    let mut stall_fuel: usize = STALL_LIMIT;
    loop
        invariant
            size == input@.len(),
            in_pos <= size,
            reported == in_pos,
            out_buf@.len() == 32 * 1024,
            !compressor.is_finished(),
            chunk_size >= 1,
            forall|n: usize| call_requires(callback_func, (n,)),
        decreases size - in_pos, stall_fuel,
    {
        let end: usize = if size - in_pos > chunk_size {
            in_pos + chunk_size
        } else {
            size
        };
        let chunk: Vec<u8> = vec_slice_range(input, in_pos, end);
        let flush = if end == size {
            MZFlush::Finish
        } else {
            MZFlush::NoFlush
        };
        let res = deflate(&mut compressor, chunk.as_slice(), &mut out_buf, flush);
        append_prefix(&mut result, &out_buf, res.bytes_written);
        if res.bytes_consumed > 0 {
            callback_func(res.bytes_consumed);
        }
        in_pos = in_pos + res.bytes_consumed;
        reported = reported + res.bytes_consumed;
        match res.status {
            Ok(MZStatus::StreamEnd) => {
                // reconcile the running total with the input length, so the
                // increments handed out sum to it exactly
                if reported < size {
                    callback_func(size - reported);
                }
                return Ok(result);
            },
            Ok(MZStatus::Okay) => {
                if res.bytes_consumed == 0 {
                    if stall_fuel == 0 {
                        return Err(MZError::Stream);
                    }
                    stall_fuel = stall_fuel - 1;
                } else {
                    stall_fuel = STALL_LIMIT;
                }
            },
            Err(e) => {
                return Err(e);
            },
        }
    }
}

/// Compresses `input` into a raw DEFLATE stream at the given effort level,
/// 0 emitting only literals.
pub fn compress_to_vec(input: &[u8], level: u8) -> (r: Result<Vec<u8>, MZError>)
    requires
        level <= 10,
    ensures
        r matches Err(e) ==> e == MZError::Param || e == MZError::Stream,
{
    compress_to_vec_inner(input, level, 32 * 1024, |_n: usize| {})
}

/// Compresses `input` into a raw DEFLATE stream at the given effort level,
/// feeding the engine `chunk_size` bytes at a time and reporting progress
/// as it goes.
///
/// The callback receives increments of input bytes consumed; on success
/// their sum equals the length of `input` exactly by the time the call
/// returns, a final corrective increment included.
pub fn compress_to_vec_callback<F: Fn(usize)>(
    input: &[u8],
    level: u8,
    chunk_size: usize,
    callback_func: F,
) -> (r: Result<Vec<u8>, MZError>)
    requires
        level <= 10,
        chunk_size >= 1,
        forall|n: usize| call_requires(callback_func, (n,)),
    ensures
        r matches Err(e) ==> e == MZError::Param || e == MZError::Stream,
{
    compress_to_vec_inner(input, level, chunk_size, callback_func)
}

} // verus!

