use prefix_manager::api::checksum::compare_digest;
use prefix_manager::api::checksum::verify;
use prefix_manager::api::checksum::VerificationOutcome;

const EMPTY: &str = "e3b0c44298fc1c149afbf4c8996fb92427ae41e4649b934ca495991b7852b855";
const HELLO_WORLD: &str = "b94d27b9934d3e08a52e52d7da7dabfac484efe37a5380ee9088f7ace2efcde9";
const ABC: &str = "ba7816bf8f01cfea414140de5dae2223b00361a396177a9cb410ff61f20015ad";

fn field(prefix: &str, hex: &str) -> Option<String> {
    Some(format!("{}{}", prefix, hex))
}

#[test]
fn published_digest_of_the_bytes_verifies() {
    assert_eq!(verify(b"hello world", &field("sha256:", HELLO_WORLD)), VerificationOutcome::Verified);
    assert_eq!(verify(b"abc", &field("sha256:", ABC)), VerificationOutcome::Verified);
}

#[test]
fn digest_of_no_bytes_verifies() {
    assert_eq!(verify(b"", &field("sha256:", EMPTY)), VerificationOutcome::Verified);
}

#[test]
fn digest_of_other_bytes_is_a_mismatch() {
    assert_eq!(verify(b"hello world", &field("sha256:", ABC)), VerificationOutcome::Mismatched);
    assert_eq!(verify(b"hello world!", &field("sha256:", HELLO_WORLD)), VerificationOutcome::Mismatched);
}

#[test]
fn bytes_are_not_their_own_digest() {
    let bytes = b"b94d27b9934d3e08a52e52d7da7dabfac484efe37a5380ee9088f7ace2efcde9";
    assert_eq!(verify(bytes, &field("sha256:", HELLO_WORLD)), VerificationOutcome::Mismatched);
}

#[test]
fn absent_digest_is_skipped() {
    assert_eq!(verify(b"hello world", &None), VerificationOutcome::Skipped);
    assert_eq!(verify(b"", &None), VerificationOutcome::Skipped);
    assert_eq!(compare_digest(HELLO_WORLD, &None), VerificationOutcome::Skipped);
}

#[test]
fn uppercase_hex_is_a_mismatch() {
    let upper = HELLO_WORLD.to_uppercase();
    assert_eq!(verify(b"hello world", &field("sha256:", &upper)), VerificationOutcome::Mismatched);
}

#[test]
fn prefix_is_stripped_and_not_read() {
    assert_eq!(verify(b"abc", &field("sha512:", ABC)), VerificationOutcome::Verified);
    assert_eq!(verify(b"abc", &field("1234567", ABC)), VerificationOutcome::Verified);
}

#[test]
fn exactly_seven_characters_are_stripped() {
    assert_eq!(verify(b"abc", &field("sha256", ABC)), VerificationOutcome::Mismatched);
    assert_eq!(verify(b"abc", &field("sha256::", ABC)), VerificationOutcome::Mismatched);
    assert_eq!(verify(b"abc", &field("", ABC)), VerificationOutcome::Mismatched);
}

#[test]
fn prefix_is_counted_in_characters() {
    assert_eq!(verify(b"abc", &field("häsh25:", ABC)), VerificationOutcome::Verified);
}

#[test]
fn field_too_short_for_a_prefix_is_skipped() {
    assert_eq!(verify(b"abc", &Some(String::new())), VerificationOutcome::Skipped);
    assert_eq!(verify(b"abc", &Some("sha256".to_string())), VerificationOutcome::Skipped);
}

#[test]
fn prefix_alone_is_a_mismatch() {
    assert_eq!(verify(b"abc", &Some("sha256:".to_string())), VerificationOutcome::Mismatched);
}

#[test]
fn truncated_or_extended_hex_is_a_mismatch() {
    assert_eq!(verify(b"abc", &field("sha256:", &ABC[..63])), VerificationOutcome::Mismatched);
    let longer = format!("{}0", ABC);
    assert_eq!(verify(b"abc", &field("sha256:", &longer)), VerificationOutcome::Mismatched);
}

#[test]
fn compare_digest_holds_the_computed_text_against_the_field() {
    assert_eq!(compare_digest("00ff", &Some("sha256:00ff".to_string())), VerificationOutcome::Verified);
    assert_eq!(compare_digest("00ff", &Some("sha256:00fe".to_string())), VerificationOutcome::Mismatched);
    assert_eq!(compare_digest("00ff", &Some("sha256:00FF".to_string())), VerificationOutcome::Mismatched);
    assert_eq!(compare_digest("", &Some("sha256:".to_string())), VerificationOutcome::Verified);
    assert_eq!(compare_digest("00ff", &Some("00ff".to_string())), VerificationOutcome::Skipped);
}

#[test]
fn verification_is_repeatable() {
    let expected = field("sha256:", HELLO_WORLD);
    let first = verify(b"hello world", &expected);
    let second = verify(b"hello world", &expected);
    assert_eq!(first, second);
}
