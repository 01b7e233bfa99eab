//! Checksum verification of downloaded files.
//!
//! A file's bytes are digested (SHA-256), the digest is hex-encoded, and the
//! result is compared case-insensitively against the expected value. Reading
//! the file from disk is the caller's part; the decision is made here, over
//! the bytes.

use sha2::Digest;
use vstd::prelude::*;

use crate::error::InstallerError;
use crate::error::InstallerResult;
use crate::text::eq_ci;
use crate::text::str_eq_ci;

verus! {

/// The lowercase hex digit for a value below 16.
pub open spec fn hex_digit(d: u8) -> char {
    if d < 10 {
        (d + 48) as char
    } else {
        (d + 87) as char
    }
}

/// The lowercase hex encoding of a byte sequence: two digits per byte, in
/// order, high nibble first.
pub open spec fn hex_of(bytes: Seq<u8>) -> Seq<char>
    decreases bytes.len(),
{
    if bytes.len() == 0 {
        Seq::empty()
    } else {
        hex_of(bytes.drop_last()) + seq![
            hex_digit(bytes.last() / 16),
            hex_digit(bytes.last() % 16),
        ]
    }
}

/// The SHA-256 digest of a byte sequence. Its value is fixed by the hash
/// function; this library only names it.
pub uninterp spec fn sha256_of(data: Seq<u8>) -> Seq<u8>;

/// Relies on `sha2::Sha256::digest`: the 32-byte digest depends on the input
/// bytes alone.
#[verifier::external_body]
fn sha256_digest(data: &[u8]) -> (r: Vec<u8>)
    ensures
        r@ == sha256_of(data@),
        r@.len() == 32,
{
    sha2::Sha256::digest(data).to_vec()
}

/// Relies on `hex::encode`: lowercase hex, exactly two digits per input
/// byte, in input order.
#[verifier::external_body]
fn hex_encode(data: &Vec<u8>) -> (r: String)
    ensures
        r@ == hex_of(data@),
{
    hex::encode(data.as_slice())
}

/// The bytes' true digest, hex-encoded, equals `expected` up to ASCII case.
pub open spec fn checksum_matches(data: Seq<u8>, expected: Seq<char>) -> bool {
    eq_ci(hex_of(sha256_of(data)), expected)
}

/// File verification utility.
pub struct FileVerifier;

impl FileVerifier {
    /// Creates a new file verifier.
    pub fn new() -> (r: FileVerifier)
        ensures
            r == (FileVerifier {}),
    {
        FileVerifier
    }

    /// The hex-encoded SHA-256 digest of the given file contents.
    pub fn calculate_sha256(&self, data: &[u8]) -> (r: String)
        ensures
            r@ == hex_of(sha256_of(data@)),
    {
        let digest = sha256_digest(data);
        hex_encode(&digest)
    }

    /// Verifies file contents against an expected hex-encoded SHA-256
    /// digest; the comparison ignores ASCII case.
    ///
    /// Succeeds exactly when the expected digest matches the contents' true
    /// digest. On mismatch the error carries the file's name, the expected
    /// value as given, and the actual digest of the bytes.
    pub fn verify_sha256(&self, data: &[u8], file: &str, expected: &str) -> (r: InstallerResult<
        (),
    >)
        ensures
            r is Ok <==> checksum_matches(data@, expected@),
            r matches Err(e) ==> (e matches InstallerError::ChecksumMismatch {
                file: f,
                expected: x,
                actual: a,
            } && f@ == file@ && x@ == expected@ && a@ == hex_of(sha256_of(data@))),
    {
        let actual = self.calculate_sha256(data);
        if str_eq_ci(actual.as_str(), expected) {
            Ok(())
        } else {
            Err(
                InstallerError::ChecksumMismatch {
                    file: file.to_owned(),
                    expected: expected.to_owned(),
                    actual,
                },
            )
        }
    }
}

impl Default for FileVerifier {
    /// Same as [`FileVerifier::new`].
    fn default() -> (r: FileVerifier)
        ensures
            r == (FileVerifier {}),
    {
        FileVerifier
    }
}

/// Law: round trip of download and verification.
///
/// Computing a file's digest and verifying the same file against that digest
/// always succeeds; verifying it against any expected value succeeds exactly
/// when that value equals the true digest up to ASCII case, so on mismatch
/// the reported actual digest is the digest of the downloaded bytes.
pub proof fn lemma_verification_round_trip(data: Seq<u8>, expected: Seq<char>)
    ensures
        checksum_matches(data, hex_of(sha256_of(data))),
        checksum_matches(data, expected) <==> eq_ci(hex_of(sha256_of(data)), expected),
{
}

} // verus!
