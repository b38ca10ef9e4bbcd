//! The integrity check of a downloaded archive against its checksum sidecar.

use crate::error::InstallError;
use crate::text::chars_of;
use sha2::Digest;
use vstd::prelude::*;
use vstd::string::{StrSliceExecFns, StringExecFns};

verus! {

/// The number of characters of a digest written in hexadecimal.
pub const DIGEST_WIDTH: usize = 128;

/// The SHA-512 digest of `data`.
pub uninterp spec fn sha512_digest(data: Seq<u8>) -> Seq<u8>;

/// Calls `sha2::Sha512::digest`, the one-shot form of the hash. Trusted: the
/// result is the SHA-512 digest of the input and of nothing else.
#[verifier::external_body]
fn sha512(data: &[u8]) -> (digest: Vec<u8>)
    ensures
        digest@ == sha512_digest(data@),
{
    sha2::Sha512::digest(data).to_vec()
}

/// The lower-case hexadecimal digit for `d`.
pub open spec fn hex_digit(d: int) -> char {
    "0123456789abcdef"@[d]
}

/// `bytes` in lower-case hexadecimal: two digits a byte, the high one first.
pub open spec fn hex_encoding(bytes: Seq<u8>) -> Seq<char> {
    Seq::new(
        2 * bytes.len(),
        |i: int|
            if i % 2 == 0 {
                hex_digit(bytes[i / 2] as int / 16)
            } else {
                hex_digit(bytes[i / 2] as int % 16)
            },
    )
}

fn hex_digit_str(d: u8) -> (s: &'static str)
    requires
        d < 16,
    ensures
        s@ == seq![hex_digit(d as int)],
{
    let digits = "0123456789abcdef";
    proof {
        reveal_strlit("0123456789abcdef");
    }
    let s = digits.substring_ascii(d as usize, d as usize + 1);
    assert(s@ =~= seq![hex_digit(d as int)]);
    s
}

/// Writes `bytes` in lower-case hexadecimal.
pub fn hex_lower(bytes: &[u8]) -> (text: String)
    ensures
        text@ == hex_encoding(bytes@),
{
    let mut text = String::new();
    let mut i: usize = 0;
    while i < bytes.len()
        invariant
            i <= bytes.len(),
            text@ == hex_encoding(bytes@.take(i as int)),
        decreases bytes.len() - i,
    {
        let byte = bytes[i];
        let ghost before = text@;
        text.append(hex_digit_str(byte / 16));
        text.append(hex_digit_str(byte % 16));
        proof {
            let done = bytes@.take(i as int);
            let next = bytes@.take(i as int + 1);
            assert forall|k: int| 0 <= k < 2 * i implies hex_encoding(next)[k] == before[k] by {
                assert(next[k / 2] == done[k / 2]);
            }
            assert(text@ =~= hex_encoding(next));
        }
        i += 1;
    }
    assert(bytes@.take(bytes.len() as int) =~= bytes@);
    text
}

/// What comparing a digest with a checksum text gives: whether the text's
/// first [`DIGEST_WIDTH`] characters are the digest, or that the text is too
/// short to hold one.
pub open spec fn checksum_verdict(digest_hex: Seq<char>, expected: Seq<char>) -> Result<
    bool,
    InstallError,
> {
    if expected.len() < DIGEST_WIDTH {
        Err(InstallError::MalformedChecksum)
    } else {
        Ok(expected.take(DIGEST_WIDTH as int) == digest_hex)
    }
}

/// Compares a digest in hexadecimal with the text of a checksum sidecar, of
/// which only the leading digest counts.
pub fn digest_matches(digest_hex: &str, expected: &str) -> (verdict: Result<bool, InstallError>)
    ensures
        verdict == checksum_verdict(digest_hex@, expected@),
{
    let want = chars_of(expected);
    let have = chars_of(digest_hex);
    if want.len() < DIGEST_WIDTH {
        return Err(InstallError::MalformedChecksum);
    }
    if have.len() != DIGEST_WIDTH {
        return Ok(false);
    }
    let mut i: usize = 0;
    while i < DIGEST_WIDTH
        invariant
            i <= DIGEST_WIDTH,
            want@ == expected@,
            have@ == digest_hex@,
            have.len() == DIGEST_WIDTH,
            want.len() >= DIGEST_WIDTH,
            forall|k: int| 0 <= k < i ==> want@[k] == have@[k],
        decreases DIGEST_WIDTH - i,
    {
        if want[i] != have[i] {
            assert(expected@.take(DIGEST_WIDTH as int)[i as int] != digest_hex@[i as int]);
            return Ok(false);
        }
        i += 1;
    }
    assert(expected@.take(DIGEST_WIDTH as int) =~= digest_hex@);
    Ok(true)
}

/// Checks `archive` against the text of its checksum sidecar: hashes the
/// archive and compares the digest, in lower-case hexadecimal, with the
/// leading digest of `expected`.
pub fn check_sha(archive: &[u8], expected: &str) -> (verdict: Result<bool, InstallError>)
    ensures
        verdict == checksum_verdict(hex_encoding(sha512_digest(archive@)), expected@),
{
    let digest = sha512(archive);
    let digest_hex = hex_lower(digest.as_slice());
    digest_matches(digest_hex.as_str(), expected)
}

} // verus!
