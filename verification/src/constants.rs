//! Fixed names and limits of the release catalog and of the local layout.

use vstd::prelude::*;

verus! {

/// The largest page size the release catalog serves.
pub const MAX_PER_PAGE: u8 = 50;

/// The account that publishes the Proton and Wine builds.
pub const GE_PROJECT_OWNER: &'static str = "GloriousEggroll";

/// The project of the Wine builds.
pub const WINE_PROJECT_NAME: &'static str = "wine-ge-custom";

/// The project of the Proton builds.
pub const PROTON_PROJECT_NAME: &'static str = "proton-ge-custom";

/// The account that publishes the ULWGL builds.
pub const ULWGL_PROJECT_OWNER: &'static str = "Open-Wine-Components";

/// The project of the ULWGL builds.
pub const ULWGL_PROJECT_NAME: &'static str = "ULWGL-Proton";

/// The name under which every request to the catalog is made.
pub const USER_AGENT: &'static str = "protonctl-rs";

/// The content type asked for when an asset is downloaded.
pub const ASSET_CONTENT_TYPE: &'static str = "application/octet-stream";

/// The ending of the name of an archive's checksum sidecar.
pub const CHECKSUM_SUFFIX: &'static str = ".sha512sum";

/// Caps a requested page size at [`MAX_PER_PAGE`].
pub fn clamp_per_page(number: u8) -> (capped: u8)
    ensures
        capped == if number > MAX_PER_PAGE {
            MAX_PER_PAGE
        } else {
            number
        },
        capped <= MAX_PER_PAGE,
{
    if number > MAX_PER_PAGE {
        MAX_PER_PAGE
    } else {
        number
    }
}

/// Where downloads are kept until an install is over, relative to the
/// user's home.
pub fn install_path() -> (path: &'static str)
    ensures
        path@ == ".local/share/protonctl"@,
{
    ".local/share/protonctl"
}

} // verus!
