//! The choice of a codec from an archive's name, and the decoding of the
//! archive into the tar stream it holds.

use crate::error::InstallError;
use crate::text::ends_with;
use std::io::Read;
use vstd::prelude::*;

verus! {

#[verifier::external_type_specification]
#[verifier::external_body]
pub struct ExIoError(std::io::Error);

/// A compression format of build archives.
#[derive(Clone, Copy, Debug, PartialEq, Eq, Structural)]
pub enum Codec {
    Gzip,
    Xz,
}

/// What the first member of the gzip file `data` decodes to, if it decodes.
pub uninterp spec fn gzip_decoded(data: Seq<u8>) -> Option<Seq<u8>>;

/// What the xz stream `data` decodes to, if it decodes.
pub uninterp spec fn xz_decoded(data: Seq<u8>) -> Option<Seq<u8>>;

/// Reads `flate2::read::GzDecoder` over `data` to its end. Trusted: the bytes
/// read, or the failure to read them, depend on `data` alone.
#[verifier::external_body]
fn gunzip(data: &[u8]) -> (decoded: Result<Vec<u8>, std::io::Error>)
    ensures
        match decoded {
            Ok(bytes) => gzip_decoded(data@) == Some(bytes@),
            Err(_) => gzip_decoded(data@) is None,
        },
{
    let mut bytes = Vec::new();
    flate2::read::GzDecoder::new(data).read_to_end(&mut bytes)?;
    Ok(bytes)
}

/// Reads `xz2::read::XzDecoder` over `data` to its end. Trusted: the bytes
/// read, or the failure to read them, depend on `data` alone.
#[verifier::external_body]
fn lzma(data: &[u8]) -> (decoded: Result<Vec<u8>, std::io::Error>)
    ensures
        match decoded {
            Ok(bytes) => xz_decoded(data@) == Some(bytes@),
            Err(_) => xz_decoded(data@) is None,
        },
{
    let mut bytes = Vec::new();
    xz2::read::XzDecoder::new(data).read_to_end(&mut bytes)?;
    Ok(bytes)
}

/// The codec that a path's ending selects: gzip for `.gz`, xz for `.xz`, none
/// for any other.
pub open spec fn codec_of(path: Seq<char>) -> Option<Codec> {
    if ".gz"@.is_suffix_of(path) {
        Some(Codec::Gzip)
    } else if ".xz"@.is_suffix_of(path) {
        Some(Codec::Xz)
    } else {
        None
    }
}

/// Chooses the codec for the archive at `path` from the path's ending alone,
/// so that an archive of another format is refused before it is read.
pub fn codec_for(path: &str) -> (choice: Result<Codec, InstallError>)
    ensures
        choice == match codec_of(path@) {
            Some(codec) => Ok::<Codec, InstallError>(codec),
            None => Err(InstallError::UnsupportedFormat),
        },
{
    if ends_with(path, ".gz") {
        Ok(Codec::Gzip)
    } else if ends_with(path, ".xz") {
        Ok(Codec::Xz)
    } else {
        Err(InstallError::UnsupportedFormat)
    }
}

impl Codec {
    /// What `data` decodes to under this codec, if it decodes.
    pub open spec fn decoded(self, data: Seq<u8>) -> Option<Seq<u8>> {
        match self {
            Codec::Gzip => gzip_decoded(data),
            Codec::Xz => xz_decoded(data),
        }
    }

    /// Whether `outcome` is what decoding `data` under this codec gives.
    pub open spec fn is_decoding(
        self,
        data: Seq<u8>,
        outcome: Result<Vec<u8>, InstallError>,
    ) -> bool {
        match outcome {
            Ok(bytes) => self.decoded(data) == Some(bytes@),
            Err(reason) => reason == InstallError::ExtractFailed && self.decoded(data) is None,
        }
    }

    /// Decodes `data` under this codec into the tar stream it holds.
    pub fn decode(&self, data: &[u8]) -> (outcome: Result<Vec<u8>, InstallError>)
        ensures
            self.is_decoding(data@, outcome),
    {
        let decoded = match self {
            Codec::Gzip => gunzip(data),
            Codec::Xz => lzma(data),
        };
        match decoded {
            Ok(bytes) => Ok(bytes),
            Err(_) => Err(InstallError::ExtractFailed),
        }
    }
}

/// Decodes the archive named `compressed`, whose content is `data`, under the
/// codec that the name's ending selects. A name that selects none is refused
/// whatever the content.
pub fn decompress(compressed: &str, data: &[u8]) -> (outcome: Result<Vec<u8>, InstallError>)
    ensures
        match codec_of(compressed@) {
            Some(codec) => codec.is_decoding(data@, outcome),
            None => outcome == Err::<Vec<u8>, InstallError>(InstallError::UnsupportedFormat),
        },
{
    match codec_for(compressed) {
        Ok(codec) => codec.decode(data),
        Err(reason) => Err(reason),
    }
}

/// The codec follows from the path's ending: a path that ends with `.tar.gz`
/// or `.gz` is decoded as gzip and never as xz, one that ends with `.tar.xz`
/// or `.xz` as xz and never as gzip, and any other path is refused.
pub proof fn codec_follows_ending(path: Seq<char>)
    ensures
        ".tar.gz"@.is_suffix_of(path) ==> ".gz"@.is_suffix_of(path),
        ".tar.xz"@.is_suffix_of(path) ==> ".xz"@.is_suffix_of(path),
        ".gz"@.is_suffix_of(path) ==> codec_of(path) == Some(Codec::Gzip),
        ".xz"@.is_suffix_of(path) ==> codec_of(path) == Some(Codec::Xz),
        !".gz"@.is_suffix_of(path) && !".xz"@.is_suffix_of(path) ==> codec_of(path) is None,
{
    reveal_strlit(".gz");
    reveal_strlit(".xz");
    reveal_strlit(".tar.gz");
    reveal_strlit(".tar.xz");
    let n = path.len() as int;
    if ".tar.gz"@.is_suffix_of(path) {
        let tail = path.subrange(n - 7, n);
        assert(tail == ".tar.gz"@);
        assert(path.subrange(n - 3, n) =~= tail.subrange(4, 7));
        assert(tail.subrange(4, 7) =~= ".gz"@);
    }
    if ".tar.xz"@.is_suffix_of(path) {
        let tail = path.subrange(n - 7, n);
        assert(tail == ".tar.xz"@);
        assert(path.subrange(n - 3, n) =~= tail.subrange(4, 7));
        assert(tail.subrange(4, 7) =~= ".xz"@);
    }
    if ".gz"@.is_suffix_of(path) && ".xz"@.is_suffix_of(path) {
        let tail = path.subrange(n - 3, n);
        assert(tail[1] == 'g');
        assert(tail[1] == 'x');
    }
}

} // verus!
