//! Why an install can fail.

use vstd::prelude::*;

verus! {

/// The part an asset plays in an install.
#[derive(Clone, Copy, Debug, PartialEq, Eq, Structural)]
pub enum AssetRole {
    /// The compressed build itself.
    Archive,
    /// The sidecar that holds the digest of the archive.
    Checksum,
}

/// A reason for which an install stops.
#[derive(Clone, Copy, Debug, PartialEq, Eq, Structural)]
pub enum InstallError {
    /// The catalog or an asset could not be reached.
    Transport,
    /// The catalog knows no release with the requested tag.
    NotFound,
    /// The release offers no asset for one of the two roles.
    AssetMissing { role: AssetRole },
    /// A downloaded chunk could not be written.
    WriteFailed,
    /// A local file could not be opened or read.
    IoError,
    /// The checksum text is too short to hold a digest.
    MalformedChecksum,
    /// The digest of the archive differs from the expected one.
    HashMismatch,
    /// The archive's name selects no known codec.
    UnsupportedFormat,
    /// The archive could not be decoded or unpacked.
    ExtractFailed,
}

impl InstallError {
    /// What [`InstallError::message`] returns.
    pub open spec fn message_text(self) -> Seq<char> {
        match self {
            InstallError::Transport => "Failed to reach the release catalog"@,
            InstallError::NotFound => "No release has the requested tag"@,
            InstallError::AssetMissing { role: AssetRole::Archive } =>
                "The release has no archive asset"@,
            InstallError::AssetMissing { role: AssetRole::Checksum } =>
                "The release has no checksum asset"@,
            InstallError::WriteFailed => "Failed to write a downloaded chunk"@,
            InstallError::IoError => "Failed to read a local file"@,
            InstallError::MalformedChecksum => "Failed to get sha slice"@,
            InstallError::HashMismatch => "Hash mismatch error!"@,
            InstallError::UnsupportedFormat => "Unknown archive extension"@,
            InstallError::ExtractFailed => "Failed to unpack the archive"@,
        }
    }

    /// The line shown to the user for this failure.
    pub fn message(&self) -> (text: &'static str)
        ensures
            text@ == self.message_text(),
    {
        match self {
            InstallError::Transport => "Failed to reach the release catalog",
            InstallError::NotFound => "No release has the requested tag",
            InstallError::AssetMissing { role: AssetRole::Archive } =>
                "The release has no archive asset",
            InstallError::AssetMissing { role: AssetRole::Checksum } =>
                "The release has no checksum asset",
            InstallError::WriteFailed => "Failed to write a downloaded chunk",
            InstallError::IoError => "Failed to read a local file",
            InstallError::MalformedChecksum => "Failed to get sha slice",
            InstallError::HashMismatch => "Hash mismatch error!",
            InstallError::UnsupportedFormat => "Unknown archive extension",
            InstallError::ExtractFailed => "Failed to unpack the archive",
        }
    }
}

} // verus!
