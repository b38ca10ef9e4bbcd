use protonctllib::error::{AssetRole, InstallError};
use protonctllib::github::{get_asset_ids, AssetId, Release};

fn asset(name: &str, id: u64, size: u64) -> AssetId {
    AssetId { name: String::from(name), id, size }
}

fn proton_release() -> Release {
    Release {
        html_url: String::from(
            "https://github.com/GloriousEggroll/proton-ge-custom/releases/tag/GE-Proton8-4",
        ),
        tag_name: String::from("GE-Proton8-4"),
        assets: vec![
            asset("GE-Proton8-4.sha512sum", 110_000_001, 154),
            asset("GE-Proton8-4.tar.gz", 110_000_002, 432_000_000),
        ],
        body: String::from("Proton 8.0-2c rebase"),
    }
}

#[test]
fn github_can_get_asset_ids() {
    let release = proton_release();
    let pair = get_asset_ids(&release, ".tar.gz").unwrap();
    assert_eq!(pair.archive.name, String::from("GE-Proton8-4.tar.gz"));
    assert_eq!(pair.checksum.name, String::from("GE-Proton8-4.sha512sum"));
}

#[test]
fn github_can_get_release_by_tag() {
    let version: String = String::from("GE-Proton8-4");
    let release = proton_release();
    assert_eq!(release.get_version(), version);
    assert_eq!(release.tag_name, version);
}

#[test]
fn selection_takes_the_first_asset_of_each_role() {
    let mut release = proton_release();
    release.assets.push(asset("other.tar.gz", 3, 1));
    release.assets.push(asset("other.sha512sum", 4, 1));
    let pair = get_asset_ids(&release, ".tar.gz").unwrap();
    assert_eq!(pair.archive, asset("GE-Proton8-4.tar.gz", 110_000_002, 432_000_000));
    assert_eq!(pair.checksum, asset("GE-Proton8-4.sha512sum", 110_000_001, 154));
}

#[test]
fn selection_twice_gives_the_same_pair() {
    let release = proton_release();
    let first = get_asset_ids(&release, ".tar.gz");
    let second = get_asset_ids(&release, ".tar.gz");
    assert_eq!(first, second);
}

#[test]
fn selection_without_archive_fails() {
    let release = proton_release();
    let outcome = get_asset_ids(&release, ".tar.xz");
    assert_eq!(outcome, Err(InstallError::AssetMissing { role: AssetRole::Archive }));
}

#[test]
fn selection_without_checksum_fails() {
    let mut release = proton_release();
    release.assets.remove(0);
    let outcome = get_asset_ids(&release, ".tar.gz");
    assert_eq!(outcome, Err(InstallError::AssetMissing { role: AssetRole::Checksum }));
}

#[test]
fn selection_from_no_assets_misses_the_archive() {
    let mut release = proton_release();
    release.assets.clear();
    let outcome = get_asset_ids(&release, ".tar.gz");
    assert_eq!(outcome, Err(InstallError::AssetMissing { role: AssetRole::Archive }));
}

#[test]
fn release_getters() {
    let release = proton_release();
    assert_eq!(release.get_version(), "GE-Proton8-4");
    assert_eq!(
        release.get_release_url(),
        "https://github.com/GloriousEggroll/proton-ge-custom/releases/tag/GE-Proton8-4"
    );
    assert_eq!(release.get_body(), "Proton 8.0-2c rebase");
    assert_eq!(release.get_assets(), release.assets);
    assert_eq!(release.get_assets().len(), 2);
    assert_eq!(release.clone(), release);
}

#[test]
fn placeholder_asset_is_empty() {
    assert!(AssetId::default().is_empty());
    assert!(asset("", 7, 7).is_empty());
    assert!(!asset("GE-Proton8-4.tar.gz", 0, 0).is_empty());
    assert_eq!(asset("a", 1, 2).clone(), asset("a", 1, 2));
}

#[test]
fn one_asset_may_fill_both_roles() {
    let mut release = proton_release();
    release.assets.clear();
    release.assets.push(asset("build.sha512sum", 9, 1));
    let pair = get_asset_ids(&release, "sum").unwrap();
    assert_eq!(pair.archive, asset("build.sha512sum", 9, 1));
    assert_eq!(pair.checksum, asset("build.sha512sum", 9, 1));
}

#[test]
fn wine_release_selects_the_xz_archive() {
    let mut release = proton_release();
    release.assets.clear();
    release.assets.push(asset("wine-lutris-GE-Proton8-26-x86_64.sha512sum", 1, 160));
    release.assets.push(asset("wine-lutris-GE-Proton8-26-x86_64.tar.xz", 2, 90_000_000));
    let pair = get_asset_ids(&release, ".tar.xz").unwrap();
    assert_eq!(pair.archive.id, 2);
    assert_eq!(pair.checksum.id, 1);
}
