//! Integrity of downloaded bytes: the SHA-256 digest of a buffer, written as
//! lowercase hex, held against the digest that the release index published.

use sha2::Digest;
use sha2::Sha256;
use vstd::prelude::*;
use vstd::string::*;

verus! {

/// Characters that a published digest carries in front of its hex value: an
/// algorithm tag and a separator, as in `sha256:`.
pub const DIGEST_PREFIX_LEN: usize = 7;

/// What holding a buffer against a published digest came to.
#[derive(Debug, Clone, Copy, PartialEq, Eq, Structural)]
pub enum VerificationOutcome {
    /// The digest of the bytes is the published one.
    Verified,
    /// A digest was published and the bytes have another.
    Mismatched,
    /// Nothing to compare with: no digest was published, or the published
    /// field is too short to carry one.
    Skipped,
}

/// The SHA-256 digest of `data`, as the `sha2` crate computes it.
pub uninterp spec fn sha256(data: Seq<u8>) -> Seq<u8>;

/// The lowercase hex digit of a value below sixteen.
pub open spec fn hex_digit(nibble: int) -> char {
    seq!['0', '1', '2', '3', '4', '5', '6', '7', '8', '9', 'a', 'b', 'c', 'd', 'e', 'f'][nibble]
}

/// Two lowercase hex digits for each byte, the high half first.
pub open spec fn lower_hex(bytes: Seq<u8>) -> Seq<char> {
    Seq::new(
        2 * bytes.len(),
        |i: int|
            if i % 2 == 0 {
                hex_digit(bytes[i / 2] as int / 16)
            } else {
                hex_digit(bytes[i / 2] as int % 16)
            },
    )
}

/// The hex value that a published digest field carries behind its prefix,
/// where it is long enough to have one.
pub open spec fn published_hex(field: Seq<char>) -> Option<Seq<char>> {
    if field.len() < DIGEST_PREFIX_LEN {
        None
    } else {
        Some(field.skip(DIGEST_PREFIX_LEN as int))
    }
}

/// The outcome of comparing a computed hex digest with a published field.
pub open spec fn comparison(computed: Seq<char>, expected: Option<Seq<char>>) -> VerificationOutcome {
    match expected {
        None => VerificationOutcome::Skipped,
        Some(field) => match published_hex(field) {
            None => VerificationOutcome::Skipped,
            Some(hex) => if hex == computed {
                VerificationOutcome::Verified
            } else {
                VerificationOutcome::Mismatched
            },
        },
    }
}

/// The outcome of verifying `bytes` against a published field.
pub open spec fn verification(bytes: Seq<u8>, expected: Option<Seq<char>>) -> VerificationOutcome {
    comparison(lower_hex(sha256(bytes)), expected)
}

/// The view of an optional string.
pub open spec fn text_of(field: Option<String>) -> Option<Seq<char>> {
    match field {
        None => None,
        Some(s) => Some(s@),
    }
}

/// Calls `sha2::Sha256::digest` on the bytes and copies the output into a
/// vector. Trusted: the result depends on the bytes alone; it is the digest
/// that `sha256` names.
#[verifier::external_body]
fn sha256_digest(data: &[u8]) -> (digest: Vec<u8>)
    ensures
        digest@ == sha256(data@),
{
    Sha256::digest(data).to_vec()
}

/// Calls `hex::encode`. Trusted: each byte becomes two lowercase hex digits,
/// the high half first, in the order of the bytes.
#[verifier::external_body]
fn hex_encode(bytes: &[u8]) -> (text: String)
    ensures
        text@ == lower_hex(bytes@),
{
    hex::encode(bytes)
}

/// Compares a computed hex digest with the published field.
///
/// The first seven characters of the field are its prefix and are not looked
/// at; what follows is compared with `computed` character by character, so
/// an uppercase digit does not match a lowercase one.
pub fn compare_digest(computed: &str, expected: &Option<String>) -> (outcome: VerificationOutcome)
    ensures
        outcome == comparison(computed@, text_of(*expected)),
        *expected is None ==> outcome == VerificationOutcome::Skipped,
{
    match expected {
        None => VerificationOutcome::Skipped,
        Some(field) => {
            let field = field.as_str();
            let n = field.unicode_len();
            if n < DIGEST_PREFIX_LEN {
                VerificationOutcome::Skipped
            } else {
                let hex = String::from_str(field.substring_char(DIGEST_PREFIX_LEN, n));
                let computed = String::from_str(computed);
                if hex == computed {
                    VerificationOutcome::Verified
                } else {
                    VerificationOutcome::Mismatched
                }
            }
        },
    }
}

/// Verifies downloaded bytes against the digest that was published for them.
///
/// Reports the outcome and decides nothing: what a mismatch means for the
/// acquisition is the caller's policy.
pub fn verify(bytes: &[u8], expected: &Option<String>) -> (outcome: VerificationOutcome)
    ensures
        outcome == verification(bytes@, text_of(*expected)),
        *expected is None ==> outcome == VerificationOutcome::Skipped,
{
    match expected {
        None => VerificationOutcome::Skipped,
        Some(_) => {
            let digest = sha256_digest(bytes);
            let computed = hex_encode(digest.as_slice());
            compare_digest(computed.as_str(), expected)
        },
    }
}

/// A field made of the prefix `sha256:` and the lowercase hex digest of the
/// bytes verifies against those bytes, whatever the bytes are.
pub proof fn lemma_published_digest_verifies(bytes: Seq<u8>, field: Seq<char>)
    requires
        field == "sha256:"@ + lower_hex(sha256(bytes)),
    ensures
        verification(bytes, Some(field)) == VerificationOutcome::Verified,
{
    reveal_strlit("sha256:");
    assert(field.skip(DIGEST_PREFIX_LEN as int) =~= lower_hex(sha256(bytes)));
}

/// Without a published digest the outcome is `Skipped`, whatever the bytes
/// are.
pub proof fn lemma_absent_digest_is_skipped(bytes: Seq<u8>)
    ensures
        verification(bytes, None) == VerificationOutcome::Skipped,
{
}

} // verus!
