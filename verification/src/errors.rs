//! Error taxonomy of the extraction subsystem.
//!
//! Every failure is detected at its origin and surfaced to the caller as one
//! of these variants; the host maps a variant to a descriptive string via
//! [`ExtractError::message`]. No variant is retried internally and no partial
//! output accompanies an error.

use vstd::prelude::*;

verus! {

/// The ways an extraction request can fail.
#[derive(Clone, Copy, Debug, PartialEq, Eq, Structural)]
pub enum ExtractError {
    /// The input path does not reference an existing file.
    InputNotFound,
    /// The external transcoder executable could not be launched.
    ProcessSpawnFailure,
    /// The operating system's thumbnail service declined to produce a bitmap.
    PlatformServiceError,
    /// The raw pixel copy reported fewer rows than requested.
    PixelExtractionError,
    /// The pixel buffer was inconsistent with the reported dimensions.
    EncodingError,
}

impl ExtractError {
    /// The descriptive message of this error, as a sequence of characters.
    pub open spec fn message_spec(self) -> Seq<char> {
        match self {
            ExtractError::InputNotFound => "Video not found"@,
            ExtractError::ProcessSpawnFailure => "failed to spawn"@,
            ExtractError::PlatformServiceError => "Platform thumbnail service failed"@,
            ExtractError::PixelExtractionError => "Failed to get bitmap bytes (GetDIBits)"@,
            ExtractError::EncodingError => "Failed to encode image"@,
        }
    }

    /// The user-facing description of this error.
    pub fn message(&self) -> (r: String)
        ensures
            r@ == self.message_spec(),
    {
        match self {
            ExtractError::InputNotFound => "Video not found".to_owned(),
            ExtractError::ProcessSpawnFailure => "failed to spawn".to_owned(),
            ExtractError::PlatformServiceError => "Platform thumbnail service failed".to_owned(),
            ExtractError::PixelExtractionError => "Failed to get bitmap bytes (GetDIBits)".to_owned(),
            ExtractError::EncodingError => "Failed to encode image".to_owned(),
        }
    }
}

} // verus!
