//! What the muxer makes of the audio sample FIFO's answers.
//!
//! The FIFO itself is FFmpeg's `AVAudioFifo`; the sample accounting that
//! decides when it is read lives in [`crate::convert`].

use vstd::prelude::*;

use crate::error::{AVMuxError, FfmpegError};

verus! {

/// The outcome of allocating the FIFO: FFmpeg gives no FIFO when the
/// source parameters are unusable.
pub fn fifo_allocation(allocated: bool) -> (r: Result<(), AVMuxError>)
    ensures
        allocated ==> r matches Ok(()),
        !allocated ==> r matches Err(AVMuxError::Invalid),
{
    if allocated {
        Ok(())
    } else {
        Err(AVMuxError::Invalid)
    }
}

/// The outcome of writing or reading `requested` samples: `done` is the
/// number of samples FFmpeg moved, or its error. Fewer samples than asked
/// for make the source invalid.
pub fn fifo_transfer(requested: i32, done: Result<i32, FfmpegError>) -> (r: Result<(), AVMuxError>)
    ensures
        match done {
            Err(e) => r matches Err(AVMuxError::Ffmpeg(f)) && f == e,
            Ok(n) => if n < requested {
                r matches Err(AVMuxError::Invalid)
            } else {
                r matches Ok(())
            },
        },
{
    match done {
        Err(e) => Err(AVMuxError::Ffmpeg(e)),
        Ok(n) => if n < requested {
            Err(AVMuxError::Invalid)
        } else {
            Ok(())
        },
    }
}

} // verus!
