use vstd::prelude::*;

pub mod clapper;
pub mod ffmpeg;
pub mod media;
pub mod pipeline;
pub mod tenor;
pub mod text;
pub mod upload;

verus! {

/// Why a run stopped.
pub enum TimeForError {
    /// The external video tool is not installed.
    FfmpegNotFound,
    /// The external video tool could not be started or waited for.
    FfmpegError { source: ffmpeg::FfmpegError },
    /// The directory for the run's files could not be made.
    CreateWorkingDirectory { message: String },
    /// A file could not be moved into place.
    Io { message: String },
    /// A clip could not be downloaded.
    Download { message: String },
    /// No clip could be found.
    GetRandGif { source: tenor::TenorError },
    /// A step of the video tool ended with a failure status.
    ScalingError { exit_code: Option<i32> },
}

} // verus!
