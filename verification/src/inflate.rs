//! One-shot decompression into a growable, size-capped vector.
//!
//! The DEFLATE bit-level decoding is done by `miniz_oxide`'s decompressor
//! engine; this module verifies the control layer around it: resuming the
//! engine across buffer growth, capping the output at a caller-given limit,
//! mapping status codes, and progress accounting for the callback variant.

use vstd::prelude::*;

verus! {

/// Return status codes of a decompression call.
#[derive(Copy, Clone, Debug, Hash, PartialEq, Eq, Structural)]
pub enum TINFLStatus {
    /// A read or write on a byte source or sink failed.
    IoError,
    /// More input was needed, but the caller stated that none is coming, so
    /// the input stream is likely truncated.
    FailedCannotMakeProgress,
    /// The output buffer is an invalid size.
    BadParam,
    /// Decompression went fine, but the Adler-32 checksum did not match the
    /// one in the zlib header.
    Adler32Mismatch,
    /// The input data is invalid.
    Failed,
    /// The end of the compressed stream was reached without issues.
    Done,
    /// The decompressor needs more input data to continue.
    NeedsMoreInput,
    /// There is pending data that did not fit in the output buffer.
    HasMoreOutput,
}

/// The status that a numeric engine code stands for, if any.
pub open spec fn spec_status_from_i32(value: i32) -> Option<TINFLStatus> {
    if value == -4 {
        Some(TINFLStatus::FailedCannotMakeProgress)
    } else if value == -3 {
        Some(TINFLStatus::BadParam)
    } else if value == -2 {
        Some(TINFLStatus::Adler32Mismatch)
    } else if value == -1 {
        Some(TINFLStatus::Failed)
    } else if value == 0 {
        Some(TINFLStatus::Done)
    } else if value == 1 {
        Some(TINFLStatus::NeedsMoreInput)
    } else if value == 2 {
        Some(TINFLStatus::HasMoreOutput)
    } else {
        None
    }
}

/// The numeric engine code each status stands for.
pub open spec fn spec_status_code(status: TINFLStatus) -> i32 {
    match status {
        TINFLStatus::IoError => 10i32,
        TINFLStatus::FailedCannotMakeProgress => -4i32,
        TINFLStatus::BadParam => -3i32,
        TINFLStatus::Adler32Mismatch => -2i32,
        TINFLStatus::Failed => -1i32,
        TINFLStatus::Done => 0i32,
        TINFLStatus::NeedsMoreInput => 1i32,
        TINFLStatus::HasMoreOutput => 2i32,
    }
}

impl TINFLStatus {
    /// The numeric engine code of this status: the engine's own numbers for
    /// its seven statuses, and 10 for the I/O error, which is this layer's
    /// and maps back to no engine code.
    pub fn code(&self) -> (r: i32)
        ensures
            r == spec_status_code(*self),
            spec_status_from_i32(r) == (if *self == TINFLStatus::IoError {
                None
            } else {
                Some(*self)
            }),
    {
        match self {
            TINFLStatus::IoError => 10,
            TINFLStatus::FailedCannotMakeProgress => -4,
            TINFLStatus::BadParam => -3,
            TINFLStatus::Adler32Mismatch => -2,
            TINFLStatus::Failed => -1,
            TINFLStatus::Done => 0,
            TINFLStatus::NeedsMoreInput => 1,
            TINFLStatus::HasMoreOutput => 2,
        }
    }

    /// The status a numeric engine code stands for, if any.
    pub fn from_i32(value: i32) -> (r: Option<TINFLStatus>)
        ensures
            r == spec_status_from_i32(value),
    {
        match value {
            -4 => Some(TINFLStatus::FailedCannotMakeProgress),
            -3 => Some(TINFLStatus::BadParam),
            -2 => Some(TINFLStatus::Adler32Mismatch),
            -1 => Some(TINFLStatus::Failed),
            0 => Some(TINFLStatus::Done),
            1 => Some(TINFLStatus::NeedsMoreInput),
            2 => Some(TINFLStatus::HasMoreOutput),
            _ => None,
        }
    }
}

/// What a failed decompression reports: the status, and whatever output was
/// produced before the failure.
#[derive(Debug)]
pub struct DecompressError {
    /// Optional context, empty unless a source or sink supplied one.
    pub msg: String,
    /// Decompressor status on failure.
    pub status: TINFLStatus,
    /// The data decompressed before the failure, if any.
    pub output: Vec<u8>,
}

/// The fixed description of each failure status.
pub open spec fn spec_status_message(status: TINFLStatus) -> Seq<char> {
    match status {
        TINFLStatus::FailedCannotMakeProgress => "Truncated input stream"@,
        TINFLStatus::BadParam => "Invalid output buffer size"@,
        TINFLStatus::Adler32Mismatch => "Adler32 checksum mismatch"@,
        TINFLStatus::Failed => "Invalid input data"@,
        TINFLStatus::Done => ""@,
        TINFLStatus::NeedsMoreInput => "Truncated input stream"@,
        TINFLStatus::HasMoreOutput => "Output size exceeded the specified limit"@,
        TINFLStatus::IoError => "Io read or write error"@,
    }
}

impl DecompressError {
    /// A human-readable description of the failure status.
    pub fn message(&self) -> (s: String)
        ensures
            s@ == spec_status_message(self.status),
    {
        match self.status {
            TINFLStatus::FailedCannotMakeProgress => "Truncated input stream".to_owned(),
            TINFLStatus::BadParam => "Invalid output buffer size".to_owned(),
            TINFLStatus::Adler32Mismatch => "Adler32 checksum mismatch".to_owned(),
            TINFLStatus::Failed => "Invalid input data".to_owned(),
            TINFLStatus::Done => "".to_owned(),
            TINFLStatus::NeedsMoreInput => "Truncated input stream".to_owned(),
            TINFLStatus::HasMoreOutput => "Output size exceeded the specified limit".to_owned(),
            TINFLStatus::IoError => "Io read or write error".to_owned(),
        }
    }
}

/// Wraps a status and the output produced so far as a failure result.
pub fn decompress_error(status: TINFLStatus, output: Vec<u8>) -> (r: Result<
    Vec<u8>,
    DecompressError,
>)
    ensures
        r matches Err(e) && e.status == status && e.output == output && e.msg@
            == Seq::<char>::empty(),
{
    Err(DecompressError { msg: String::new(), status, output })
}

#[verifier::external_type_specification]
#[verifier::external_body]
pub struct ExDecompressorOxide(miniz_oxide::inflate::core::DecompressorOxide);

/// Relies on `miniz_oxide::inflate::core::DecompressorOxide::new`: a fresh
/// decompressor at the start of a stream.
#[verifier::external_body]
fn new_decompressor() -> miniz_oxide::inflate::core::DecompressorOxide {
    miniz_oxide::inflate::core::DecompressorOxide::new()
}

/// Relies on `miniz_oxide::inflate::core::decompress`, driven with a
/// non-wrapping output buffer and without the more-input flag. Its source
/// shows: the consumed count never exceeds the input given; the call
/// writes nothing outside `out_pos..out_pos + written` and never changes
/// the buffer's length; the status code is one of the seven in the range
/// -4..=2; the more-input code 1 only ever comes with the more-input
/// flag, the bad-parameter code -3 only from the parameter check that the
/// non-wrapping flag and the `requires` here rule out, and the checksum
/// code -2 only under the zlib-header flag.
#[verifier::external_body]
fn inflate_core(
    decomp: &mut miniz_oxide::inflate::core::DecompressorOxide,
    input: &[u8],
    in_start: usize,
    out: &mut Vec<u8>,
    out_pos: usize,
    zlib: bool,
) -> (r: (i32, usize, usize))
    requires
        in_start <= input@.len(),
        out_pos <= old(out)@.len(),
    ensures
        final(out)@.len() == old(out)@.len(),
        -4 <= r.0 <= 2,
        r.0 != 1,
        r.0 != -3,
        !zlib ==> r.0 != -2,
        r.1 <= input@.len() - in_start,
        r.2 <= old(out)@.len() - out_pos,
        forall|i: int|
            0 <= i < old(out)@.len() && !(out_pos <= i < out_pos + r.2) ==> final(out)@[i]
                == old(out)@[i],
{
    let flags = miniz_oxide::inflate::core::inflate_flags::TINFL_FLAG_USING_NON_WRAPPING_OUTPUT_BUF
        | if zlib {
        miniz_oxide::inflate::core::inflate_flags::TINFL_FLAG_PARSE_ZLIB_HEADER
    } else {
        0
    };
    let (status, consumed, written) = miniz_oxide::inflate::core::decompress(
        decomp,
        &input[in_start..],
        out.as_mut_slice(),
        out_pos,
        flags,
    );
    (status as i32, consumed, written)
}

/// Doubles a length, saturating at the largest representable size.
fn saturating_double(n: usize) -> (r: usize)
    ensures
        n <= usize::MAX / 2 ==> r == 2 * n,
        n > usize::MAX / 2 ==> r == usize::MAX,
        r >= n,
{
    if n > usize::MAX / 2 {
        usize::MAX
    } else {
        2 * n
    }
}

/// The starting size of the output buffer: a small multiple of the input
/// length, at least a fixed minimum, and never over the caller's cap.
fn initial_buffer_size(input_len: usize, max_output_size: usize) -> (r: usize)
    ensures
        r <= max_output_size,
        max_output_size >= 64 ==> r >= 64,
        max_output_size > 0 ==> r > 0,
{
    let doubled = saturating_double(input_len);
    let wanted = if doubled < 64 {
        64
    } else {
        doubled
    };
    if wanted < max_output_size {
        wanted
    } else {
        max_output_size
    }
}

/// Backend of the to-vector decompressions: the progress-reporting loop
/// with the increments discarded, so the callback and plain paths run the
/// same engine-call sequence and return the same result by construction.
fn decompress_to_vec_inner(input: &[u8], zlib: bool, max_output_size: usize) -> (r: Result<
    Vec<u8>,
    DecompressError,
>)
    ensures
        r matches Ok(v) ==> v@.len() <= max_output_size,
        r matches Err(e) ==> e.output@.len() <= max_output_size,
        r matches Err(e) ==> e.msg@ == Seq::<char>::empty(),
        r matches Err(e) ==> e.status == TINFLStatus::Failed || e.status
            == TINFLStatus::Adler32Mismatch || e.status == TINFLStatus::FailedCannotMakeProgress
            || e.status == TINFLStatus::HasMoreOutput,
        !zlib ==> (r matches Err(e) ==> e.status != TINFLStatus::Adler32Mismatch),
{
    decompress_to_vec_inner_callback(input, zlib, max_output_size, |_n: usize| {})
}

/// Backend of the to-vector decompression with progress reporting.
///
/// Grows the output geometrically, capped at `max_output_size`, and resumes
/// the engine with the same output position after each growth step. On
/// failure the error carries the engine's status, an empty message, and
/// exactly the bytes produced before the failure. The callback is handed
/// the number of input bytes consumed by each engine call, and on success
/// one final corrective increment, so that the sum of all increments equals
/// the length of `input` exactly when decoding finishes successfully.
fn decompress_to_vec_inner_callback<F: Fn(usize)>(
    input: &[u8],
    zlib: bool,
    max_output_size: usize,
    callback_func: F,
) -> (r: Result<Vec<u8>, DecompressError>)
    requires
        forall|n: usize| call_requires(callback_func, (n,)),
    ensures
        r matches Ok(v) ==> v@.len() <= max_output_size,
        r matches Err(e) ==> e.output@.len() <= max_output_size,
        r matches Err(e) ==> e.msg@ == Seq::<char>::empty(),
        r matches Err(e) ==> e.status == TINFLStatus::Failed || e.status
            == TINFLStatus::Adler32Mismatch || e.status == TINFLStatus::FailedCannotMakeProgress
            || e.status == TINFLStatus::HasMoreOutput,
        !zlib ==> (r matches Err(e) ==> e.status != TINFLStatus::Adler32Mismatch),
{
    let size: usize = input.len();
    let initial: usize = initial_buffer_size(size, max_output_size);
    let mut ret: Vec<u8> = vec![0u8; initial];
    let mut decomp = new_decompressor();
    let mut in_pos: usize = 0;
    let mut out_pos: usize = 0;
    let mut reported: usize = 0;
    loop
        invariant
            size == input@.len(),
            in_pos <= size,
            reported == in_pos,
            out_pos <= ret@.len(),
            ret@.len() <= max_output_size,
            max_output_size > 0 ==> ret@.len() > 0,
            forall|n: usize| call_requires(callback_func, (n,)),
        decreases max_output_size - ret@.len(),
    {
        let (code, in_consumed, out_written) = inflate_core(
            &mut decomp,
            input,
            in_pos,
            &mut ret,
            out_pos,
            zlib,
        );
        out_pos = out_pos + out_written;
        if in_consumed > 0 {
            callback_func(in_consumed);
        }
        in_pos = in_pos + in_consumed;
        reported = reported + in_consumed;
        let status = match TINFLStatus::from_i32(code) {
            Some(s) => s,
            None => unreached(),
        };
        match status {
            TINFLStatus::Done => {
                // reconcile the running total with the input length, so the
                // increments handed out sum to it exactly
                if reported < size {
                    callback_func(size - reported);
                }
                ret.truncate(out_pos);
                return Ok(ret);
            },
            TINFLStatus::HasMoreOutput => {
                if ret.len() >= max_output_size {
                    ret.truncate(out_pos);
                    return decompress_error(TINFLStatus::HasMoreOutput, ret);
                }
                let doubled = saturating_double(ret.len());
                let new_len = if doubled < max_output_size {
                    doubled
                } else {
                    max_output_size
                };
                ret.resize(new_len, 0u8);
            },
            _ => {
                ret.truncate(out_pos);
                return decompress_error(status, ret);
            },
        }
    }
}

/// Decompresses the DEFLATE-encoded data in `input` to a vector.
///
/// The output is unbounded; on failure the error carries the engine's
/// status, an empty message, and exactly the bytes decompressed before the
/// failure.
pub fn decompress_to_vec(input: &[u8]) -> (r: Result<Vec<u8>, DecompressError>)
    ensures
        r matches Err(e) ==> e.msg@ == Seq::<char>::empty(),
        r matches Err(e) ==> e.status == TINFLStatus::Failed || e.status
            == TINFLStatus::FailedCannotMakeProgress || e.status == TINFLStatus::HasMoreOutput,
{
    decompress_to_vec_inner(input, false, usize::MAX)
}

/// Decompresses the DEFLATE-encoded data in `input` to a vector, reporting
/// progress as it goes.
///
/// The callback receives increments of input bytes consumed; on success
/// their sum equals the length of `input` exactly by the time the call
/// returns, a final corrective increment included.
pub fn decompress_to_vec_callback<F: Fn(usize)>(input: &[u8], callback_func: F) -> (r: Result<
    Vec<u8>,
    DecompressError,
>)
    requires
        forall|n: usize| call_requires(callback_func, (n,)),
    ensures
        r matches Err(e) ==> e.msg@ == Seq::<char>::empty(),
        r matches Err(e) ==> e.status == TINFLStatus::Failed || e.status
            == TINFLStatus::FailedCannotMakeProgress || e.status == TINFLStatus::HasMoreOutput,
{
    decompress_to_vec_inner_callback(input, false, usize::MAX, callback_func)
}

/// Decompresses the zlib-wrapped DEFLATE data in `input` to a vector,
/// validating the header and the trailing Adler-32 checksum.
pub fn decompress_to_vec_zlib(input: &[u8]) -> (r: Result<Vec<u8>, DecompressError>)
    ensures
        r matches Err(e) ==> e.msg@ == Seq::<char>::empty(),
        r matches Err(e) ==> e.status == TINFLStatus::Failed || e.status
            == TINFLStatus::Adler32Mismatch || e.status == TINFLStatus::FailedCannotMakeProgress
            || e.status == TINFLStatus::HasMoreOutput,
{
    decompress_to_vec_inner(input, true, usize::MAX)
}

/// Decompresses the DEFLATE-encoded data in `input` to a vector of at most
/// `max_size` bytes.
///
/// If the data does not fit, the error carries the status
/// [`TINFLStatus::HasMoreOutput`] and the data decompressed so far, itself
/// never over `max_size` bytes.
pub fn decompress_to_vec_with_limit(input: &[u8], max_size: usize) -> (r: Result<
    Vec<u8>,
    DecompressError,
>)
    ensures
        r matches Ok(v) ==> v@.len() <= max_size,
        r matches Err(e) ==> e.output@.len() <= max_size,
        r matches Err(e) ==> e.msg@ == Seq::<char>::empty(),
        r matches Err(e) ==> e.status == TINFLStatus::Failed || e.status
            == TINFLStatus::FailedCannotMakeProgress || e.status == TINFLStatus::HasMoreOutput,
{
    decompress_to_vec_inner(input, false, max_size)
}

/// Decompresses the zlib-wrapped DEFLATE data in `input` to a vector of at
/// most `max_size` bytes.
///
/// If the data does not fit, the error carries the status
/// [`TINFLStatus::HasMoreOutput`] and the data decompressed so far, itself
/// never over `max_size` bytes.
pub fn decompress_to_vec_zlib_with_limit(input: &[u8], max_size: usize) -> (r: Result<
    Vec<u8>,
    DecompressError,
>)
    ensures
        r matches Ok(v) ==> v@.len() <= max_size,
        r matches Err(e) ==> e.output@.len() <= max_size,
        r matches Err(e) ==> e.msg@ == Seq::<char>::empty(),
        r matches Err(e) ==> e.status == TINFLStatus::Failed || e.status
            == TINFLStatus::Adler32Mismatch || e.status == TINFLStatus::FailedCannotMakeProgress
            || e.status == TINFLStatus::HasMoreOutput,
{
    decompress_to_vec_inner(input, true, max_size)
}

} // verus!

