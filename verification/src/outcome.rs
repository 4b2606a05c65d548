//! The closed set of terminal states one download item can end in.

use vstd::prelude::*;

verus! {

/// Terminal classification of one download item's processing result.
/// Exactly one `Outcome` is produced per submitted item.
#[derive(Debug, Clone, Copy, PartialEq, Eq, Structural)]
pub enum Outcome {
    /// Transfer (or existing file) passed checksum or size verification.
    Verified,
    /// Transfer completed but no integrity metadata was available to check.
    VerifiedNoChecksum,
    /// An existing local file already satisfied the integrity requirements.
    SkippedExisting,
    /// The credential was rejected; retrying is pointless.
    AuthError,
    /// The file's checksum did not match the expected checksum.
    ChecksumMismatch,
    /// The file's size did not match the expected size.
    SizeMismatch,
    /// Retries were exhausted, or a fatal I/O error ended the transfer.
    NetworkFailure,
    /// The one-shot metadata request failed.
    MetadataFetchFailed,
    /// A task-execution failure not otherwise classified.
    UnexpectedFailure,
}

impl Outcome {
    /// A successful download: verified, or accepted without metadata.
    pub open spec fn is_success(self) -> bool {
        self == Outcome::Verified || self == Outcome::VerifiedNoChecksum
    }

    /// The item was skipped because an existing file already satisfied it.
    pub open spec fn is_skipped(self) -> bool {
        self == Outcome::SkippedExisting
    }

    /// Every outcome that is neither a success nor a skip counts as failed.
    pub open spec fn is_failure(self) -> bool {
        !self.is_success() && !self.is_skipped()
    }
}

} // verus!
