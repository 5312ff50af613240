//! A streaming DEFLATE/zlib codec layer: resumable compression and
//! decompression driven one bounded-buffer call at a time, together with
//! one-shot helpers that decompress into a growable, size-capped vector.
//!
//! The raw DEFLATE bit-level engines come from `miniz_oxide`; this crate
//! verifies the control layer around them: call protocol, progress
//! accounting, buffer growth, and status mapping.

use vstd::prelude::*;

pub mod deflate;
pub mod inflate;

verus! {

/// Status of a successful compressor call.
#[derive(Copy, Clone, Debug, PartialEq, Eq, Structural)]
pub enum MZStatus {
    /// More work may remain; keep calling.
    Okay,
    /// The stream has been fully terminated.
    StreamEnd,
}

/// Error conditions a compressor call can report.
#[derive(Copy, Clone, Debug, PartialEq, Eq, Structural)]
pub enum MZError {
    /// The output buffer was empty, or no progress could be made with the
    /// input and flush mode given, or a terminated stream was driven again
    /// without a finish request.
    Buf,
    /// The compressor's parameters are invalid.
    Param,
    /// The lower-level engine failed to place bytes in the output buffer.
    Stream,
}

/// How eagerly a compressor call must flush buffered state.
#[derive(Copy, Clone, Debug, PartialEq, Eq, Structural)]
pub enum MZFlush {
    /// Emit only what is ready.
    NoFlush,
    /// Flush to a byte boundary with an empty fixed block, without ending
    /// the stream.
    Partial,
    /// Flush to a byte boundary with an empty stored block, without ending
    /// the stream.
    Sync,
    /// Flush and reset the match history.
    Full,
    /// Drain everything and terminate the stream.
    Finish,
}

/// The atomic unit of progress reported by every compressor call.
#[derive(Copy, Clone, Debug)]
pub struct StreamResult {
    /// Input bytes consumed by this call.
    pub bytes_consumed: usize,
    /// Output bytes written by this call.
    pub bytes_written: usize,
    /// Terminal or resumable status of this call.
    pub status: Result<MZStatus, MZError>,
}

impl StreamResult {
    /// A failed call that made no progress.
    pub fn error(error: MZError) -> (r: StreamResult)
        ensures
            r.bytes_consumed == 0,
            r.bytes_written == 0,
            r.status == Result::<MZStatus, MZError>::Err(error),
    {
        StreamResult { bytes_consumed: 0, bytes_written: 0, status: Err(error) }
    }
}

} // verus!
