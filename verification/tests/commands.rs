use protonctllib::cli::InstallTypeCmd;
use protonctllib::cmd::{command_to_struct, Actions, Arguments, ProtonCtl, Subcommand};
use protonctllib::error::{AssetRole, InstallError};
use protonctllib::github::PageQuery;
use protonctllib::install::Install;
use protonctllib::install_type::InstallType;
use protonctllib::list::List;
use protonctllib::remove::{Remove, RemoveTarget};

fn arguments(install_type: InstallTypeCmd, subcommand: Option<Subcommand>) -> Arguments {
    Arguments { flatpak: false, install_type, subcommand }
}

#[test]
fn family_names_are_read() {
    assert_eq!(InstallTypeCmd::from_str("wine", false), Ok(InstallTypeCmd::Wine));
    assert_eq!(InstallTypeCmd::from_str("proton", false), Ok(InstallTypeCmd::Proton));
    assert_eq!(InstallTypeCmd::from_str("ulwgl", true), Ok(InstallTypeCmd::ULWGL));
}

#[test]
fn unknown_family_is_refused() {
    assert_eq!(
        InstallTypeCmd::from_str("steam", false),
        Err(String::from("Invalid argument: steam"))
    );
    assert_eq!(
        InstallTypeCmd::from_str("Wine", true),
        Err(String::from("Invalid argument: Wine"))
    );
    assert_eq!(InstallTypeCmd::from_str("", false), Err(String::from("Invalid argument: ")));
}

#[test]
fn family_names_read_back() {
    for kind in InstallTypeCmd::value_variants() {
        assert_eq!(InstallTypeCmd::from_str(kind.to_possible_value(), false), Ok(kind));
    }
}

#[test]
fn families_on_the_command_line() {
    assert_eq!(
        InstallTypeCmd::value_variants(),
        vec![InstallTypeCmd::Proton, InstallTypeCmd::Wine, InstallTypeCmd::ULWGL]
    );
    assert_eq!(InstallTypeCmd::default(), InstallTypeCmd::Proton);
    assert_eq!(InstallTypeCmd::Proton.to_possible_value(), "proton");
    assert_eq!(InstallTypeCmd::Wine.to_possible_value(), "wine");
    assert_eq!(InstallTypeCmd::ULWGL.to_possible_value(), "ulwgl");
    assert_eq!(InstallTypeCmd::Proton.install_type(), InstallType::Proton);
    assert_eq!(InstallTypeCmd::Wine.install_type(), InstallType::Wine);
    assert_eq!(InstallTypeCmd::ULWGL.install_type(), InstallType::ULWGL);
}

#[test]
fn command_line_family_urls() {
    assert_eq!(
        InstallTypeCmd::Wine.get_url(false),
        "https://api.github.com/repos/GloriousEggroll/wine-ge-custom/releases"
    );
    assert_eq!(
        InstallTypeCmd::Proton.get_url(true),
        "https://api.github.com/repos/GloriousEggroll/proton-ge-custom/releases/latest"
    );
    assert_eq!(
        InstallTypeCmd::Proton.compat_directory(true),
        ".var/app/com.valvesoftware.Steam/.local/share/Steam/compatibilitytools.d"
    );
}

#[test]
fn install_command_is_built() {
    let mut cmd = arguments(
        InstallTypeCmd::Wine,
        Some(Subcommand::Install { install_version: String::from("GE-Proton8-26") }),
    );
    cmd.flatpak = true;
    assert_eq!(
        command_to_struct(cmd),
        Ok(Actions::Install(Install::new(
            String::from("GE-Proton8-26"),
            true,
            InstallTypeCmd::Wine
        )))
    );
}

#[test]
fn list_command_is_built() {
    let cmd = arguments(
        InstallTypeCmd::Proton,
        Some(Subcommand::List { number: 10, page: 1, local: false }),
    );
    assert_eq!(
        command_to_struct(cmd),
        Ok(Actions::List(List::new(10, 1, false, InstallTypeCmd::Proton)))
    );
}

#[test]
fn remove_command_is_built() {
    let cmd = arguments(
        InstallTypeCmd::Proton,
        Some(Subcommand::Remove {
            cache: false,
            all: false,
            pw_version: Some(String::from("GE-Proton8-4")),
        }),
    );
    assert_eq!(
        command_to_struct(cmd),
        Ok(Actions::Remove(Remove::new(
            false,
            false,
            InstallTypeCmd::Proton,
            String::from("GE-Proton8-4")
        )))
    );
}

#[test]
fn remove_without_version_needs_all_or_cache() {
    let bare = arguments(
        InstallTypeCmd::Proton,
        Some(Subcommand::Remove { cache: false, all: false, pw_version: None }),
    );
    assert_eq!(command_to_struct(bare), Err(String::from("No install_version specified")));
    let all = arguments(
        InstallTypeCmd::Wine,
        Some(Subcommand::Remove { cache: false, all: true, pw_version: None }),
    );
    assert_eq!(
        command_to_struct(all),
        Ok(Actions::Remove(Remove::new(false, true, InstallTypeCmd::Wine, String::new())))
    );
    let cache = arguments(
        InstallTypeCmd::Proton,
        Some(Subcommand::Remove { cache: true, all: false, pw_version: None }),
    );
    assert_eq!(
        command_to_struct(cache),
        Ok(Actions::Remove(Remove::new(true, false, InstallTypeCmd::Proton, String::new())))
    );
}

#[test]
fn missing_subcommand_is_refused() {
    assert_eq!(
        command_to_struct(arguments(InstallTypeCmd::Proton, None)),
        Err(String::from("It shouldn't be possible to hit this"))
    );
}

#[test]
fn invocation_holds_family_and_command() {
    let cmd = arguments(
        InstallTypeCmd::Wine,
        Some(Subcommand::List { number: 5, page: 2, local: true }),
    );
    assert_eq!(
        ProtonCtl::from_arguments(cmd),
        Ok(ProtonCtl {
            install_type: InstallType::Wine,
            actions: Some(Actions::List(List::new(5, 2, true, InstallTypeCmd::Wine))),
        })
    );
    assert_eq!(
        ProtonCtl::from_arguments(arguments(InstallTypeCmd::ULWGL, None)),
        Ok(ProtonCtl { install_type: InstallType::ULWGL, actions: None })
    );
    let bare = arguments(
        InstallTypeCmd::Proton,
        Some(Subcommand::Remove { cache: false, all: false, pw_version: None }),
    );
    assert_eq!(
        ProtonCtl::from_arguments(bare),
        Err(String::from("No install_version specified"))
    );
}

#[test]
fn list_asks_for_at_most_fifty() {
    assert_eq!(
        List::new(50, 1, false, InstallTypeCmd::Proton).query(),
        PageQuery { per_page: 50, page: 1 }
    );
    assert_eq!(
        List::new(200, 3, false, InstallTypeCmd::Proton).query(),
        PageQuery { per_page: 50, page: 3 }
    );
    assert_eq!(
        List::new(10, 1, false, InstallTypeCmd::Proton).query(),
        PageQuery { per_page: 10, page: 1 }
    );
}

#[test]
fn list_places() {
    let list = List::new(10, 1, true, InstallTypeCmd::Wine);
    assert_eq!(list.url(), "https://api.github.com/repos/GloriousEggroll/wine-ge-custom/releases");
    assert_eq!(list.directory(), ".local/share/lutris/runners/wine");
    assert_eq!(list.header(), "wine installs:");
    assert_eq!(List::new(1, 1, true, InstallTypeCmd::Proton).header(), "proton installs:");
    assert_eq!(
        List::default(),
        List { number: 0, page: 0, local: false, install_type: InstallTypeCmd::Proton }
    );
}

#[test]
fn remove_targets() {
    let version = Remove::new(false, false, InstallTypeCmd::Proton, String::from("GE-Proton8-4"));
    assert_eq!(version.target(), RemoveTarget::Version);
    assert_eq!(version.directory(), ".local/share/Steam/compatibilitytools.d");
    let cache = Remove::new(true, false, InstallTypeCmd::Proton, String::new());
    assert_eq!(cache.target(), RemoveTarget::Cache);
    assert_eq!(cache.directory(), ".local/share/protonctl");
    let all = Remove::new(false, true, InstallTypeCmd::Wine, String::new());
    assert_eq!(all.target(), RemoveTarget::AllInstalls);
    assert_eq!(all.directory(), ".local/share/lutris/runners/wine");
    let both = Remove::new(true, true, InstallTypeCmd::Wine, String::new());
    assert_eq!(both.target(), RemoveTarget::AllInstalls);
    assert_eq!(both.directory(), ".local/share/lutris/runners/wine");
    assert_eq!(
        Remove::default(),
        Remove { cache: false, all: false, install_type: InstallTypeCmd::Proton, pw_version: String::new() }
    );
}

#[test]
fn remove_finds_the_named_install() {
    let installed = vec![
        String::from("GE-Proton8-3"),
        String::from("GE-Proton8-4"),
        String::from("GE-Proton8-40"),
        String::from("GE-Proton8-4"),
    ];
    let remove = Remove::new(false, false, InstallTypeCmd::Proton, String::from("GE-Proton8-4"));
    assert_eq!(remove.locate(&installed), Some(1));
    let other = Remove::new(false, false, InstallTypeCmd::Proton, String::from("GE-Proton8"));
    assert_eq!(other.locate(&installed), None);
    assert_eq!(remove.locate(&Vec::new()), None);
}

#[test]
fn failures_have_messages() {
    assert_eq!(InstallError::Transport.message(), "Failed to reach the release catalog");
    assert_eq!(InstallError::NotFound.message(), "No release has the requested tag");
    assert_eq!(
        InstallError::AssetMissing { role: AssetRole::Archive }.message(),
        "The release has no archive asset"
    );
    assert_eq!(
        InstallError::AssetMissing { role: AssetRole::Checksum }.message(),
        "The release has no checksum asset"
    );
    assert_eq!(InstallError::WriteFailed.message(), "Failed to write a downloaded chunk");
    assert_eq!(InstallError::IoError.message(), "Failed to read a local file");
    assert_eq!(InstallError::MalformedChecksum.message(), "Failed to get sha slice");
    assert_eq!(InstallError::HashMismatch.message(), "Hash mismatch error!");
    assert_eq!(InstallError::UnsupportedFormat.message(), "Unknown archive extension");
    assert_eq!(InstallError::ExtractFailed.message(), "Failed to unpack the archive");
}
