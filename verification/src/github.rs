//! Releases of the catalog, their assets, and the choice of the two assets an
//! install needs.

use crate::error::{AssetRole, InstallError};
use crate::constants::{clamp_per_page, CHECKSUM_SUFFIX, MAX_PER_PAGE};
use crate::text::{decimal, ends_with, to_decimal};
use vstd::prelude::*;
use vstd::string::StringExecFns;

verus! {

/// One downloadable file of a release.
#[derive(Debug, PartialEq, Eq, Default)]
pub struct AssetId {
    pub name: String,
    pub id: u64,
    pub size: u64,
}

/// What an [`AssetId`] stands for.
pub struct AssetIdView {
    pub name: Seq<char>,
    pub id: u64,
    pub size: u64,
}

impl View for AssetId {
    type V = AssetIdView;

    open spec fn view(&self) -> AssetIdView {
        AssetIdView { name: self.name@, id: self.id, size: self.size }
    }
}

impl Clone for AssetId {
    fn clone(&self) -> (copy: Self)
        ensures
            copy@ == self@,
    {
        AssetId { name: self.name.clone(), id: self.id, size: self.size }
    }
}

impl AssetId {
    /// Whether this asset has no name, as a placeholder has.
    pub fn is_empty(&self) -> (empty: bool)
        ensures
            empty == (self@.name.len() == 0),
    {
        self.name.as_str().is_empty()
    }
}

/// The views of `assets`, in order.
pub open spec fn asset_views(assets: Seq<AssetId>) -> Seq<AssetIdView> {
    Seq::new(assets.len(), |i: int| assets[i]@)
}

/// A published release.
#[derive(Debug, PartialEq, Eq)]
pub struct Release {
    pub html_url: String,
    pub tag_name: String,
    pub assets: Vec<AssetId>,
    pub body: String,
}

/// What a [`Release`] stands for.
pub struct ReleaseView {
    pub html_url: Seq<char>,
    pub tag_name: Seq<char>,
    pub assets: Seq<AssetIdView>,
    pub body: Seq<char>,
}

impl View for Release {
    type V = ReleaseView;

    open spec fn view(&self) -> ReleaseView {
        ReleaseView {
            html_url: self.html_url@,
            tag_name: self.tag_name@,
            assets: asset_views(self.assets@),
            body: self.body@,
        }
    }
}

/// A copy of `assets`.
pub fn clone_assets(assets: &Vec<AssetId>) -> (copy: Vec<AssetId>)
    ensures
        asset_views(copy@) == asset_views(assets@),
{
    let mut copy: Vec<AssetId> = Vec::new();
    let mut i: usize = 0;
    while i < assets.len()
        invariant
            i <= assets.len(),
            copy.len() == i,
            forall|k: int| 0 <= k < i ==> copy@[k]@ == assets@[k]@,
        decreases assets.len() - i,
    {
        copy.push(assets[i].clone());
        i += 1;
    }
    assert(asset_views(copy@) =~= asset_views(assets@));
    copy
}

impl Clone for Release {
    fn clone(&self) -> (copy: Self)
        ensures
            copy@ == self@,
    {
        Release {
            html_url: self.html_url.clone(),
            tag_name: self.tag_name.clone(),
            assets: clone_assets(&self.assets),
            body: self.body.clone(),
        }
    }
}

impl Release {
    /// The tag of this release.
    pub fn get_version(&self) -> (version: String)
        ensures
            version@ == self@.tag_name,
    {
        self.tag_name.clone()
    }

    /// The assets of this release, in the catalog's order.
    pub fn get_assets(&self) -> (assets: Vec<AssetId>)
        ensures
            asset_views(assets@) == self@.assets,
    {
        clone_assets(&self.assets)
    }

    /// The page that presents this release.
    pub fn get_release_url(&self) -> (url: String)
        ensures
            url@ == self@.html_url,
    {
        self.html_url.clone()
    }

    /// The change log of this release.
    pub fn get_body(&self) -> (body: String)
        ensures
            body@ == self@.body,
    {
        self.body.clone()
    }
}

/// The two assets an install downloads.
#[derive(Debug, PartialEq, Eq)]
pub struct AssetPair {
    pub archive: AssetId,
    pub checksum: AssetId,
}

/// What an [`AssetPair`] stands for.
pub struct AssetPairView {
    pub archive: AssetIdView,
    pub checksum: AssetIdView,
}

impl View for AssetPair {
    type V = AssetPairView;

    open spec fn view(&self) -> AssetPairView {
        AssetPairView { archive: self.archive@, checksum: self.checksum@ }
    }
}

/// The ending that marks the checksum sidecar of an archive.
pub open spec fn checksum_suffix() -> Seq<char> {
    CHECKSUM_SUFFIX@
}

/// Whether `i` is the place of the first asset whose name ends with `suffix`.
pub open spec fn is_first_match(assets: Seq<AssetIdView>, suffix: Seq<char>, i: int) -> bool {
    &&& 0 <= i < assets.len()
    &&& suffix.is_suffix_of(assets[i].name)
    &&& forall|k: int| 0 <= k < i ==> !suffix.is_suffix_of(#[trigger] assets[k].name)
}

/// Whether no asset has a name that ends with `suffix`.
pub open spec fn no_match(assets: Seq<AssetIdView>, suffix: Seq<char>) -> bool {
    forall|k: int| 0 <= k < assets.len() ==> !suffix.is_suffix_of(#[trigger] assets[k].name)
}

/// Whether `outcome` is what selecting from `assets` gives: the first asset of
/// each role, or the role that no asset fills, the archive's before the
/// checksum's.
pub open spec fn is_selection(
    assets: Seq<AssetIdView>,
    archive_suffix: Seq<char>,
    outcome: Result<AssetPairView, InstallError>,
) -> bool {
    match outcome {
        Ok(pair) => exists|i: int, j: int|
            {
                &&& is_first_match(assets, archive_suffix, i)
                &&& is_first_match(assets, checksum_suffix(), j)
                &&& pair.archive == #[trigger] assets[i]
                &&& pair.checksum == #[trigger] assets[j]
            },
        Err(reason) => if no_match(assets, archive_suffix) {
            reason == (InstallError::AssetMissing { role: AssetRole::Archive })
        } else {
            &&& no_match(assets, checksum_suffix())
            &&& reason == (InstallError::AssetMissing { role: AssetRole::Checksum })
        },
    }
}

/// The view of a selection's outcome.
pub open spec fn selection_view(outcome: Result<AssetPair, InstallError>) -> Result<
    AssetPairView,
    InstallError,
> {
    match outcome {
        Ok(pair) => Ok(pair@),
        Err(reason) => Err(reason),
    }
}

/// The place of the first asset whose name ends with `suffix`, if there is one.
pub fn find_asset(assets: &Vec<AssetId>, suffix: &str) -> (found: Option<usize>)
    ensures
        match found {
            Some(i) => is_first_match(asset_views(assets@), suffix@, i as int),
            None => no_match(asset_views(assets@), suffix@),
        },
{
    let mut i: usize = 0;
    while i < assets.len()
        invariant
            i <= assets.len(),
            forall|k: int|
                0 <= k < i ==> !suffix@.is_suffix_of(#[trigger] asset_views(assets@)[k].name),
        decreases assets.len() - i,
    {
        if ends_with(assets[i].name.as_str(), suffix) {
            return Some(i);
        }
        i += 1;
    }
    None
}

/// Picks the archive and the checksum sidecar of `release`: for each role the
/// first asset whose name has the role's ending. Fails where a role has no
/// asset, so that no placeholder reaches a download.
pub fn get_asset_ids(release: &Release, archive_suffix: &str) -> (outcome: Result<
    AssetPair,
    InstallError,
>)
    ensures
        is_selection(release@.assets, archive_suffix@, selection_view(outcome)),
{
    let archive = match find_asset(&release.assets, archive_suffix) {
        Some(i) => i,
        None => {
            return Err(InstallError::AssetMissing { role: AssetRole::Archive });
        },
    };
    let checksum = match find_asset(&release.assets, CHECKSUM_SUFFIX) {
        Some(j) => j,
        None => {
            return Err(InstallError::AssetMissing { role: AssetRole::Checksum });
        },
    };
    let pair = AssetPair {
        archive: release.assets[archive].clone(),
        checksum: release.assets[checksum].clone(),
    };
    Ok(pair)
}

/// Selection has one outcome: two selections from the same assets with the
/// same archive ending agree.
pub proof fn selection_is_unique(
    assets: Seq<AssetIdView>,
    archive_suffix: Seq<char>,
    first: Result<AssetPairView, InstallError>,
    second: Result<AssetPairView, InstallError>,
)
    requires
        is_selection(assets, archive_suffix, first),
        is_selection(assets, archive_suffix, second),
    ensures
        first == second,
{
    match (first, second) {
        (Ok(p), Ok(q)) => {
            let (i, j) = choose|i: int, j: int|
                {
                    &&& is_first_match(assets, archive_suffix, i)
                    &&& is_first_match(assets, checksum_suffix(), j)
                    &&& p.archive == #[trigger] assets[i]
                    &&& p.checksum == #[trigger] assets[j]
                };
            let (k, l) = choose|k: int, l: int|
                {
                    &&& is_first_match(assets, archive_suffix, k)
                    &&& is_first_match(assets, checksum_suffix(), l)
                    &&& q.archive == #[trigger] assets[k]
                    &&& q.checksum == #[trigger] assets[l]
                };
            assert(i == k) by {
                if i < k {
                    assert(!archive_suffix.is_suffix_of(assets[i].name));
                }
                if k < i {
                    assert(!archive_suffix.is_suffix_of(assets[k].name));
                }
            }
            assert(j == l) by {
                if j < l {
                    assert(!checksum_suffix().is_suffix_of(assets[j].name));
                }
                if l < j {
                    assert(!checksum_suffix().is_suffix_of(assets[l].name));
                }
            }
        },
        (Ok(p), Err(_)) => {
            let (i, j) = choose|i: int, j: int|
                {
                    &&& is_first_match(assets, archive_suffix, i)
                    &&& is_first_match(assets, checksum_suffix(), j)
                    &&& p.archive == #[trigger] assets[i]
                    &&& p.checksum == #[trigger] assets[j]
                };
            assert(archive_suffix.is_suffix_of(assets[i].name));
            assert(checksum_suffix().is_suffix_of(assets[j].name));
        },
        (Err(_), Ok(q)) => {
            let (k, l) = choose|k: int, l: int|
                {
                    &&& is_first_match(assets, archive_suffix, k)
                    &&& is_first_match(assets, checksum_suffix(), l)
                    &&& q.archive == #[trigger] assets[k]
                    &&& q.checksum == #[trigger] assets[l]
                };
            assert(archive_suffix.is_suffix_of(assets[k].name));
            assert(checksum_suffix().is_suffix_of(assets[l].name));
        },
        (Err(_), Err(_)) => {},
    }
}

/// Where no asset's name ends with the archive's ending, selection fails for
/// want of the archive, whatever else the release offers.
pub proof fn selection_needs_archive(
    assets: Seq<AssetIdView>,
    archive_suffix: Seq<char>,
    outcome: Result<AssetPairView, InstallError>,
)
    requires
        no_match(assets, archive_suffix),
        is_selection(assets, archive_suffix, outcome),
    ensures
        outcome == Err::<AssetPairView, InstallError>(
            InstallError::AssetMissing { role: AssetRole::Archive },
        ),
{
    if let Ok(pair) = outcome {
        let (i, j) = choose|i: int, j: int|
            {
                &&& is_first_match(assets, archive_suffix, i)
                &&& is_first_match(assets, checksum_suffix(), j)
                &&& pair.archive == #[trigger] assets[i]
                &&& pair.checksum == #[trigger] assets[j]
            };
        assert(archive_suffix.is_suffix_of(assets[i].name));
    }
}

/// The address of the release tagged `version`, under the listing at `url`.
pub open spec fn tag_url(url: Seq<char>, version: Seq<char>) -> Seq<char> {
    url + "/tags/"@ + version
}

/// The address from which the asset numbered `id` is downloaded, under the
/// listing at `url`.
pub open spec fn asset_url(url: Seq<char>, id: u64) -> Seq<char> {
    url + "/assets/"@ + decimal(id as nat)
}

/// The address to ask for the release tagged `version`.
pub fn release_version_url(url: &str, version: &str) -> (address: String)
    ensures
        address@ == tag_url(url@, version@),
{
    String::from_str(url).concat("/tags/").concat(version)
}

/// The address to ask for the content of `asset`.
pub fn download_asset_url(url: &str, asset: &AssetId) -> (address: String)
    ensures
        address@ == asset_url(url@, asset@.id),
{
    let number = to_decimal(asset.id);
    String::from_str(url).concat("/assets/").concat(number.as_str())
}

/// The page of a release listing to ask for.
#[derive(Clone, Copy, Debug, PartialEq, Eq, Structural)]
pub struct PageQuery {
    pub per_page: u8,
    pub page: u8,
}

/// The page size asked for where the caller names none.
pub const DEFAULT_PER_PAGE: u8 = 10;

/// The page asked for where the caller names none.
pub const DEFAULT_PAGE: u8 = 1;

/// The query of a release listing: the caller's page size, never above
/// [`MAX_PER_PAGE`], and page, each with its default.
pub fn page_query(per_page: Option<u8>, page: Option<u8>) -> (query: PageQuery)
    ensures
        query.per_page == match per_page {
            Some(n) => if n > MAX_PER_PAGE {
                MAX_PER_PAGE
            } else {
                n
            },
            None => DEFAULT_PER_PAGE,
        },
        query.page == match page {
            Some(p) => p,
            None => DEFAULT_PAGE,
        },
        query.per_page <= MAX_PER_PAGE,
{
    let per_page = match per_page {
        Some(n) => clamp_per_page(n),
        None => DEFAULT_PER_PAGE,
    };
    let page = match page {
        Some(p) => p,
        None => DEFAULT_PAGE,
    };
    PageQuery { per_page, page }
}

/// Bytes in a gigabyte.
pub const GB: u64 = 1_073_741_824;

/// Bytes in a megabyte.
pub const MB: u64 = 1_048_576;

/// The unit in which `e` bytes are shown: the largest that they fill.
pub open spec fn size_unit(e: u64) -> Seq<char> {
    if e >= GB {
        "gigabytes"@
    } else if e >= MB {
        "megabytes"@
    } else {
        "bytes"@
    }
}

/// The amount shown for `e` bytes: whole units of [`size_unit`].
pub open spec fn size_amount(e: u64) -> int {
    if e >= GB {
        e as int / GB as int
    } else if e >= MB {
        e as int / MB as int
    } else {
        e as int
    }
}

/// A byte count in the largest unit that it fills, rounded down, with the
/// unit's name.
pub fn bytes_conversion(e: u64) -> (shown: (u64, &'static str))
    ensures
        shown.0 == size_amount(e),
        shown.1@ == size_unit(e),
{
    if e >= GB {
        (e / GB, "gigabytes")
    } else if e >= MB {
        (e / MB, "megabytes")
    } else {
        (e, "bytes")
    }
}

/// What a catalog answer with the status code `status` means: the answer is
/// there (any code from 200 to 299), the catalog knows no such release (404),
/// or the request failed.
pub open spec fn status_outcome(status: u16) -> Result<(), InstallError> {
    if 200 <= status <= 299 {
        Ok(())
    } else if status == 404 {
        Err(InstallError::NotFound)
    } else {
        Err(InstallError::Transport)
    }
}

/// Tells by the status code of a catalog answer whether its body is the
/// answer asked for, and if not, why.
pub fn check_status(status: u16) -> (outcome: Result<(), InstallError>)
    ensures
        outcome == status_outcome(status),
{
    if 200 <= status && status <= 299 {
        Ok(())
    } else if status == 404 {
        Err(InstallError::NotFound)
    } else {
        Err(InstallError::Transport)
    }
}

/// The line that reports a finished transfer of `bytes` bytes into the file
/// `name`.
pub open spec fn written_report(name: Seq<char>, bytes: u64) -> Seq<char> {
    "File "@ + name + " written. Wrote "@ + decimal(size_amount(bytes) as nat) + " "@ + size_unit(
        bytes,
    )
}

/// Writes the line that reports a finished transfer.
pub fn report_written(name: &str, bytes: u64) -> (line: String)
    ensures
        line@ == written_report(name@, bytes),
{
    let (amount, unit) = bytes_conversion(bytes);
    let number = to_decimal(amount);
    String::from_str("File ").concat(name).concat(" written. Wrote ").concat(
        number.as_str(),
    ).concat(" ").concat(unit)
}

} // verus!
