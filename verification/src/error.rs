//! The error kinds that the client pipeline reports.

use crate::text::join;
use vstd::prelude::*;
use vstd::string::*;

verus! {

/// What can go wrong between extracting audio and installing subtitles.
///
/// Callers tell `SttCancelled` from `SttFailed`: after a cancellation that the
/// user asked for, nothing is shown.
#[derive(Debug, Clone)]
pub enum MpvSttError {
    Io(String),
    ProcessFailed(String),
    ProcessTimeout(String),
    InvalidSrt(String),
    TranslationFailed(String),
    AudioExtractionFailed(String),
    AudioExtractionCancelled,
    Wav(String),
    SttFailed(String),
    SttCancelled,
    InvalidPath(String),
    CryptoError(String),
}

impl MpvSttError {
    /// The one-line text of this error.
    pub open spec fn text(self) -> Seq<char> {
        match self {
            MpvSttError::Io(m) => "IO error: "@ + m@,
            MpvSttError::ProcessFailed(m) => "Process execution failed: "@ + m@,
            MpvSttError::ProcessTimeout(m) => "Process timed out: "@ + m@,
            MpvSttError::InvalidSrt(m) => "Invalid SRT format: "@ + m@,
            MpvSttError::TranslationFailed(m) => "Translation failed: "@ + m@,
            MpvSttError::AudioExtractionFailed(m) => "Audio extraction failed: "@ + m@,
            MpvSttError::AudioExtractionCancelled => "Audio extraction cancelled"@,
            MpvSttError::Wav(m) => "WAV error: "@ + m@,
            MpvSttError::SttFailed(m) => "STT execution failed: "@ + m@,
            MpvSttError::SttCancelled => "STT execution cancelled"@,
            MpvSttError::InvalidPath(m) => "Invalid path: "@ + m@,
            MpvSttError::CryptoError(m) => "Encryption/Decryption error: "@ + m@,
        }
    }

    /// Whether a failed attempt with this error may be tried again: only a
    /// failure of the transport is transient.
    pub open spec fn is_transient(self) -> bool {
        self is SttFailed
    }

    pub fn message(&self) -> (s: String)
        ensures
            s@ == self.text(),
    {
        match self {
            MpvSttError::Io(m) => join("IO error: ", m.as_str()),
            MpvSttError::ProcessFailed(m) => join("Process execution failed: ", m.as_str()),
            MpvSttError::ProcessTimeout(m) => join("Process timed out: ", m.as_str()),
            MpvSttError::InvalidSrt(m) => join("Invalid SRT format: ", m.as_str()),
            MpvSttError::TranslationFailed(m) => join("Translation failed: ", m.as_str()),
            MpvSttError::AudioExtractionFailed(m) => join(
                "Audio extraction failed: ",
                m.as_str(),
            ),
            MpvSttError::AudioExtractionCancelled => String::from_str(
                "Audio extraction cancelled",
            ),
            MpvSttError::Wav(m) => join("WAV error: ", m.as_str()),
            MpvSttError::SttFailed(m) => join("STT execution failed: ", m.as_str()),
            MpvSttError::SttCancelled => String::from_str("STT execution cancelled"),
            MpvSttError::InvalidPath(m) => join("Invalid path: ", m.as_str()),
            MpvSttError::CryptoError(m) => join("Encryption/Decryption error: ", m.as_str()),
        }
    }

    pub fn is_retryable(&self) -> (b: bool)
        ensures
            b == self.is_transient(),
    {
        match self {
            MpvSttError::SttFailed(_) => true,
            _ => false,
        }
    }
}

} // verus!
