//! Local-file validation: whether an existing file already satisfies the
//! integrity requirements of its resolved metadata.

use vstd::prelude::*;
use crate::outcome::Outcome;
use crate::metadata::ResolvedMetadata;
use crate::strutil::str_eq;

verus! {

/// The hexadecimal MD5 digest of a byte sequence, as the checksum
/// accumulator renders it.
pub uninterp spec fn md5_of(bytes: Seq<u8>) -> Seq<char>;

/// Relies on `md5::compute`: the digest is a pure function of the input
/// bytes alone, and formatting it with `LowerHex` renders its sixteen bytes
/// as lowercase hexadecimal digits.
#[verifier::external_body]
fn md5_hex(data: &Vec<u8>) -> (r: String)
    ensures
        r@ == md5_of(data@),
{
    let digest = md5::compute(data.as_slice());
    format!("{:x}", digest)
}

/// The view of an optional string.
pub open spec fn opt_view(o: Option<String>) -> Option<Seq<char>> {
    match o {
        Some(s) => Some(s@),
        None => None,
    }
}

/// The outcome of validating a local file against expected metadata, from
/// what was observed of the file: whether it exists, its computed checksum
/// (when one was computed) and its on-disk size (when it could be read).
///
/// A missing file fails validation. A present expected checksum that
/// matches verifies the file outright; failing that, a present expected
/// size that matches verifies it; with no metadata at all, existence is
/// accepted without verification. Otherwise the checksum was the criterion
/// when one was expected, else the size.
pub open spec fn validation_outcome(
    exists: bool,
    actual_checksum: Option<Seq<char>>,
    actual_size: Option<u64>,
    expected_checksum: Option<Seq<char>>,
    expected_size: Option<u64>,
) -> Outcome {
    if !exists {
        Outcome::SizeMismatch
    } else if expected_checksum is Some && actual_checksum == expected_checksum {
        Outcome::Verified
    } else if expected_size is Some && actual_size == expected_size {
        Outcome::Verified
    } else if expected_checksum is None && expected_size is None {
        Outcome::VerifiedNoChecksum
    } else if expected_checksum is Some {
        Outcome::ChecksumMismatch
    } else {
        Outcome::SizeMismatch
    }
}

/// Classifies a local file from pure observations, exactly as
/// `validation_outcome` states.
pub fn classify_local_file(
    exists: bool,
    actual_checksum: &Option<String>,
    actual_size: Option<u64>,
    expected_checksum: &Option<String>,
    expected_size: Option<u64>,
) -> (r: Outcome)
    ensures
        r == validation_outcome(
            exists,
            opt_view(*actual_checksum),
            actual_size,
            opt_view(*expected_checksum),
            expected_size,
        ),
{
    if !exists {
        return Outcome::SizeMismatch;
    }
    let checksum_matches: bool = match (actual_checksum, expected_checksum) {
        (Some(a), Some(e)) => str_eq(a.as_str(), e.as_str()),
        _ => false,
    };
    if expected_checksum.is_some() && checksum_matches {
        return Outcome::Verified;
    }
    let size_matches: bool = match (actual_size, expected_size) {
        (Some(a), Some(e)) => a == e,
        _ => false,
    };
    if expected_size.is_some() && size_matches {
        return Outcome::Verified;
    }
    if expected_checksum.is_none() && expected_size.is_none() {
        return Outcome::VerifiedNoChecksum;
    }
    if expected_checksum.is_some() {
        Outcome::ChecksumMismatch
    } else {
        Outcome::SizeMismatch
    }
}

/// What validating a file whose full contents were read comes to: the
/// checksum accumulator sees exactly the file's bytes, and the observed
/// size is their count.
pub open spec fn bytes_validation_outcome(
    content: Seq<u8>,
    expected_checksum: Option<Seq<char>>,
    expected_size: Option<u64>,
) -> Outcome {
    validation_outcome(
        true,
        if expected_checksum is Some {
            Some(md5_of(content))
        } else {
            None
        },
        Some(content.len() as u64),
        expected_checksum,
        expected_size,
    )
}

/// Validates an existing local file, given its full contents, against the
/// resolved metadata. The checksum is computed only when one is expected,
/// as the streaming validator does.
pub fn validate_local_file(content: &Vec<u8>, meta: &ResolvedMetadata) -> (r: Outcome)
    requires
        content@.len() <= u64::MAX,
    ensures
        r == bytes_validation_outcome(
            content@,
            opt_view(meta.expected_checksum),
            meta.expected_size,
        ),
{
    let actual_checksum: Option<String> = if meta.expected_checksum.is_some() {
        Some(md5_hex(content))
    } else {
        None
    };
    let actual_size: u64 = content.len() as u64;
    classify_local_file(
        true,
        &actual_checksum,
        Some(actual_size),
        &meta.expected_checksum,
        meta.expected_size,
    )
}

/// Law: validation is idempotent. Two validations of an unchanged file
/// against the same expected metadata yield the same outcome.
pub proof fn lemma_validation_idempotent(
    exists1: bool,
    checksum1: Option<Seq<char>>,
    size1: Option<u64>,
    exists2: bool,
    checksum2: Option<Seq<char>>,
    size2: Option<u64>,
    expected_checksum: Option<Seq<char>>,
    expected_size: Option<u64>,
)
    requires
        exists1 == exists2,
        checksum1 == checksum2,
        size1 == size2,
    ensures
        validation_outcome(exists1, checksum1, size1, expected_checksum, expected_size)
            == validation_outcome(exists2, checksum2, size2, expected_checksum, expected_size),
{
}

/// Law: a matching expected checksum verifies the file, whatever the
/// expected size says or whether it is present at all.
pub proof fn lemma_checksum_match_verifies(
    checksum: Seq<char>,
    actual_size: Option<u64>,
    expected_size: Option<u64>,
)
    ensures
        validation_outcome(true, Some(checksum), actual_size, Some(checksum), expected_size)
            == Outcome::Verified,
{
}

/// Law: with no expected checksum and no expected size, any existing
/// non-empty file is accepted without verification.
pub proof fn lemma_no_metadata_accepts_existing(content: Seq<u8>)
    requires
        content.len() > 0,
    ensures
        bytes_validation_outcome(content, None, None) == Outcome::VerifiedNoChecksum,
{
}

} // verus!
