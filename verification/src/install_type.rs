//! The product families and where each is published and installed.

use crate::constants::{
    GE_PROJECT_OWNER, PROTON_PROJECT_NAME, ULWGL_PROJECT_NAME, ULWGL_PROJECT_OWNER,
    WINE_PROJECT_NAME,
};
use vstd::prelude::*;
use vstd::string::StringExecFns;

verus! {

/// Which family of compatibility builds an operation targets.
#[derive(Clone, Copy, Debug, PartialEq, Eq, Structural)]
pub enum InstallType {
    Proton,
    Wine,
    ULWGL,
}

impl InstallType {
    /// The account that publishes this family.
    pub open spec fn owner(self) -> Seq<char> {
        match self {
            InstallType::Proton => GE_PROJECT_OWNER@,
            InstallType::Wine => GE_PROJECT_OWNER@,
            InstallType::ULWGL => ULWGL_PROJECT_OWNER@,
        }
    }

    /// The project under which this family is published.
    pub open spec fn project(self) -> Seq<char> {
        match self {
            InstallType::Proton => PROTON_PROJECT_NAME@,
            InstallType::Wine => WINE_PROJECT_NAME@,
            InstallType::ULWGL => ULWGL_PROJECT_NAME@,
        }
    }

    /// The catalog address of this family's releases, or of its latest release.
    pub open spec fn url(self, latest: bool) -> Seq<char> {
        "https://api.github.com/repos/"@ + self.owner() + "/"@ + self.project() + if latest {
            "/releases/latest"@
        } else {
            "/releases"@
        }
    }

    /// The ending of the names of this family's archives.
    pub open spec fn suffix(self) -> Seq<char> {
        match self {
            InstallType::Proton => ".tar.gz"@,
            InstallType::Wine => ".tar.xz"@,
            InstallType::ULWGL => ".tar.gz"@,
        }
    }

    /// Where this family's builds are installed, below the user's home; a
    /// sandboxed runtime keeps its own place for the families it hosts.
    pub open spec fn compat_path(self, is_flatpak: bool) -> Seq<char> {
        match self {
            InstallType::Proton => if is_flatpak {
                ".var/app/com.valvesoftware.Steam/.local/share/Steam/compatibilitytools.d"@
            } else {
                ".local/share/Steam/compatibilitytools.d"@
            },
            InstallType::Wine => if is_flatpak {
                ".var/app/net.lutris.Lutris/data/lutris/runners/wine"@
            } else {
                ".local/share/lutris/runners/wine"@
            },
            InstallType::ULWGL => ".local/share/ULWGL-Proton/"@,
        }
    }

    /// The name by which this family is chosen and shown.
    pub open spec fn label(self) -> Seq<char> {
        match self {
            InstallType::Proton => "proton"@,
            InstallType::Wine => "wine"@,
            InstallType::ULWGL => "ulwgl"@,
        }
    }

    /// The ending by which this family's archive is told from a release's
    /// other assets.
    pub fn archive_suffix(&self) -> (suffix: &'static str)
        ensures
            suffix@ == self.suffix(),
    {
        match self {
            InstallType::Proton => ".tar.gz",
            InstallType::Wine => ".tar.xz",
            InstallType::ULWGL => ".tar.gz",
        }
    }

    /// The directory of this family's installs, relative to the user's home.
    pub fn compat_directory(&self, is_flatpak: bool) -> (path: &'static str)
        ensures
            path@ == self.compat_path(is_flatpak),
    {
        match self {
            InstallType::Proton => if is_flatpak {
                ".var/app/com.valvesoftware.Steam/.local/share/Steam/compatibilitytools.d"
            } else {
                ".local/share/Steam/compatibilitytools.d"
            },
            InstallType::Wine => if is_flatpak {
                ".var/app/net.lutris.Lutris/data/lutris/runners/wine"
            } else {
                ".local/share/lutris/runners/wine"
            },
            InstallType::ULWGL => ".local/share/ULWGL-Proton/",
        }
    }

    /// This family's name in lower case.
    pub fn name(&self) -> (name: &'static str)
        ensures
            name@ == self.label(),
    {
        match self {
            InstallType::Proton => "proton",
            InstallType::Wine => "wine",
            InstallType::ULWGL => "ulwgl",
        }
    }

    fn owner_name(&self) -> (name: &'static str)
        ensures
            name@ == self.owner(),
    {
        match self {
            InstallType::Proton => GE_PROJECT_OWNER,
            InstallType::Wine => GE_PROJECT_OWNER,
            InstallType::ULWGL => ULWGL_PROJECT_OWNER,
        }
    }

    fn project_name(&self) -> (name: &'static str)
        ensures
            name@ == self.project(),
    {
        match self {
            InstallType::Proton => PROTON_PROJECT_NAME,
            InstallType::Wine => WINE_PROJECT_NAME,
            InstallType::ULWGL => ULWGL_PROJECT_NAME,
        }
    }

    /// The catalog address to query: the release listing, or the latest release
    /// where `latest` is set.
    pub fn get_url(&self, latest: bool) -> (url: String)
        ensures
            url@ == self.url(latest),
    {
        let base = String::from_str("https://api.github.com/repos/");
        let base = base.concat(self.owner_name());
        let base = base.concat("/");
        let base = base.concat(self.project_name());
        if latest {
            base.concat("/releases/latest")
        } else {
            base.concat("/releases")
        }
    }
}

} // verus!
