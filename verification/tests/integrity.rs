use protonctllib::checksum::{check_sha, digest_matches, hex_lower, DIGEST_WIDTH};
use protonctllib::error::InstallError;
use sha2::Digest;

const HELLO_WORLD: &str = "309ecc489c12d6eb4cc40f50c902f2b4d0ed77ee511a7c7a9bcd3ca86d4cd86f\
989dd35bc5ff499670da34255b45b0cfd830e81f605dcf7dc5542e93ae9cd76f";

const EMPTY: &str = "cf83e1357eefb8bdf1542850d66d8007d620e4050b5715dc83f4a921d36ce9ce\
47d0d13c5d85f2b0ff8318d2877eec2f63b931bd47417a81a538327af927da3e";

const ABC: &str = "ddaf35a193617abacc417349ae20413112e6fa4e89a97ea20a9eeee64b55d39a\
2192992a274fc1a836ba3c23a3feebbd454d4423643ce80e2a9ac94fa54ca49f";

#[test]
fn hex_of_bytes() {
    assert_eq!(hex_lower(&[]), "");
    assert_eq!(hex_lower(&[0]), "00");
    assert_eq!(hex_lower(&[0x0f, 0xf0, 0xff]), "0ff0ff");
    assert_eq!(hex_lower(&[0x01, 0x23, 0x45, 0x67, 0x89, 0xab, 0xcd, 0xef]), "0123456789abcdef");
    assert_eq!(hex_lower(&[0x9a, 0x10, 0xa9]), "9a10a9");
}

#[test]
fn hex_of_every_byte() {
    let mut byte: u8 = 0;
    loop {
        assert_eq!(hex_lower(&[byte]), format!("{:02x}", byte));
        if byte == u8::MAX {
            break;
        }
        byte += 1;
    }
}

#[test]
fn hex_agrees_with_the_digest_crate() {
    let digest = sha2::Sha512::digest(b"hello world");
    assert_eq!(hex_lower(&digest), format!("{:x}", digest));
    assert_eq!(hex_lower(&digest), HELLO_WORLD);
}

#[test]
fn digest_width_is_that_of_sha512() {
    assert_eq!(DIGEST_WIDTH, 128);
    assert_eq!(HELLO_WORLD.len(), 128);
}

#[test]
fn archive_matches_its_checksum() {
    assert_eq!(check_sha(b"hello world", HELLO_WORLD), Ok(true));
    assert_eq!(check_sha(b"", EMPTY), Ok(true));
    assert_eq!(check_sha(b"abc", ABC), Ok(true));
}

#[test]
fn checksum_may_carry_a_file_name() {
    let sidecar = format!("{}  GE-Proton8-4.tar.gz\n", HELLO_WORLD);
    assert_eq!(check_sha(b"hello world", &sidecar), Ok(true));
}

#[test]
fn other_archive_does_not_match() {
    assert_eq!(check_sha(b"hello world!", HELLO_WORLD), Ok(false));
    assert_eq!(check_sha(b"hello world", EMPTY), Ok(false));
    assert_eq!(check_sha(b"", ABC), Ok(false));
}

#[test]
fn upper_case_checksum_does_not_match() {
    let upper = HELLO_WORLD.to_uppercase();
    assert_eq!(check_sha(b"hello world", &upper), Ok(false));
}

#[test]
fn short_checksum_is_malformed() {
    assert_eq!(check_sha(b"hello world", ""), Err(InstallError::MalformedChecksum));
    assert_eq!(
        check_sha(b"hello world", &HELLO_WORLD[..127]),
        Err(InstallError::MalformedChecksum)
    );
    assert_eq!(check_sha(b"hello world", &HELLO_WORLD[..128]), Ok(true));
}

#[test]
fn digest_comparison() {
    assert_eq!(digest_matches(HELLO_WORLD, HELLO_WORLD), Ok(true));
    assert_eq!(digest_matches(HELLO_WORLD, EMPTY), Ok(false));
    assert_eq!(digest_matches(HELLO_WORLD, "abc"), Err(InstallError::MalformedChecksum));
    assert_eq!(digest_matches("abc", HELLO_WORLD), Ok(false));
    assert_eq!(digest_matches("", HELLO_WORLD), Ok(false));
    assert_eq!(digest_matches("", ""), Err(InstallError::MalformedChecksum));
    let mut last_differs = String::from(&HELLO_WORLD[..127]);
    last_differs.push('0');
    assert_eq!(digest_matches(HELLO_WORLD, &last_differs), Ok(false));
    let mut first_differs = String::from("0");
    first_differs.push_str(&HELLO_WORLD[1..]);
    assert_eq!(digest_matches(HELLO_WORLD, &first_differs), Ok(false));
}

#[test]
fn digest_is_compared_by_characters() {
    let wide = "é".repeat(128);
    assert_eq!(digest_matches(HELLO_WORLD, &wide), Ok(false));
    let short = "é".repeat(127);
    assert_eq!(digest_matches(HELLO_WORLD, &short), Err(InstallError::MalformedChecksum));
}
