use vstd::prelude::*;
use vstd::string::StringExecFns;

verus! {

/// Errors that can occur during playback, decoding, seeking, or device I/O.
#[derive(Clone, Debug, PartialEq)]
pub enum VoxError {
    /// The file could not be opened or is not a regular file.
    FileOpen(String),
    /// The output device could not be opened or rebuilt.
    Device(String),
    /// The track could not be decoded.
    Decoder(String),
    /// Resampling to the output rate failed.
    Resampler(String),
    /// A seek could not be completed.
    Seek(String),
    /// No active track to queue after; the engine is idle.
    NotActive,
    /// The engine has shut down and no longer accepts commands.
    ChannelClosed,
}

impl VoxError {
    /// The text shown for the error.
    pub open spec fn text(self) -> Seq<char> {
        match self {
            VoxError::FileOpen(what) => "Failed to open file: "@ + what@,
            VoxError::Device(what) => "output error: "@ + what@,
            VoxError::Decoder(what) => "decoder error: "@ + what@,
            VoxError::Resampler(what) => "resampler error: "@ + what@,
            VoxError::Seek(what) => "seek error: "@ + what@,
            VoxError::NotActive => "no active track to queue after"@,
            VoxError::ChannelClosed => "Vox channel closed"@,
        }
    }

    /// Renders the error for display.
    pub fn message(&self) -> (message: String)
        ensures
            message@ == self.text(),
    {
        match self {
            VoxError::FileOpen(what) => String::from_str("Failed to open file: ").concat(what.as_str()),
            VoxError::Device(what) => String::from_str("output error: ").concat(what.as_str()),
            VoxError::Decoder(what) => String::from_str("decoder error: ").concat(what.as_str()),
            VoxError::Resampler(what) => String::from_str("resampler error: ").concat(what.as_str()),
            VoxError::Seek(what) => String::from_str("seek error: ").concat(what.as_str()),
            VoxError::NotActive => String::from_str("no active track to queue after"),
            VoxError::ChannelClosed => String::from_str("Vox channel closed"),
        }
    }
}

} // verus!
