//! The product family as the command line names it.

use crate::install_type::InstallType;
use crate::text::{join, same_text};
use vstd::prelude::*;

verus! {

/// The product family chosen on the command line.
#[derive(Clone, Copy, Debug, PartialEq, Eq, Structural)]
pub enum InstallTypeCmd {
    Proton,
    Wine,
    ULWGL,
}

impl Default for InstallTypeCmd {
    fn default() -> (kind: Self)
        ensures
            kind == InstallTypeCmd::Proton,
    {
        InstallTypeCmd::Proton
    }
}

impl InstallTypeCmd {
    /// The family that this choice stands for.
    pub open spec fn family(self) -> InstallType {
        match self {
            InstallTypeCmd::Proton => InstallType::Proton,
            InstallTypeCmd::Wine => InstallType::Wine,
            InstallTypeCmd::ULWGL => InstallType::ULWGL,
        }
    }

    /// What reading `input` as a family's name gives: the family with that
    /// name, or a complaint that quotes the input.
    pub open spec fn parsed(input: Seq<char>) -> Result<InstallTypeCmd, Seq<char>> {
        if input == "wine"@ {
            Ok(InstallTypeCmd::Wine)
        } else if input == "proton"@ {
            Ok(InstallTypeCmd::Proton)
        } else if input == "ulwgl"@ {
            Ok(InstallTypeCmd::ULWGL)
        } else {
            Err("Invalid argument: "@ + input)
        }
    }

    /// The family that this choice stands for.
    pub fn install_type(&self) -> (family: InstallType)
        ensures
            family == self.family(),
    {
        match self {
            InstallTypeCmd::Proton => InstallType::Proton,
            InstallTypeCmd::Wine => InstallType::Wine,
            InstallTypeCmd::ULWGL => InstallType::ULWGL,
        }
    }

    /// All the families that can be chosen, the default first.
    pub fn value_variants() -> (all: Vec<InstallTypeCmd>)
        ensures
            all@ == seq![InstallTypeCmd::Proton, InstallTypeCmd::Wine, InstallTypeCmd::ULWGL],
    {
        let mut all: Vec<InstallTypeCmd> = Vec::new();
        all.push(InstallTypeCmd::Proton);
        all.push(InstallTypeCmd::Wine);
        all.push(InstallTypeCmd::ULWGL);
        assert(all@ =~= seq![InstallTypeCmd::Proton, InstallTypeCmd::Wine, InstallTypeCmd::ULWGL]);
        all
    }

    /// The name by which this family is chosen.
    pub fn to_possible_value(&self) -> (name: &'static str)
        ensures
            name@ == self.family().label(),
    {
        self.install_type().name()
    }

    /// Reads a family's name, in lower case as [`Self::to_possible_value`]
    /// writes it.
    pub fn from_str(input: &str, _ignore_case: bool) -> (choice: Result<Self, String>)
        ensures
            match choice {
                Ok(kind) => Self::parsed(input@) == Ok::<InstallTypeCmd, Seq<char>>(kind),
                Err(complaint) => Self::parsed(input@) == Err::<InstallTypeCmd, Seq<char>>(
                    complaint@,
                ),
            },
    {
        if same_text(input, "wine") {
            Ok(InstallTypeCmd::Wine)
        } else if same_text(input, "proton") {
            Ok(InstallTypeCmd::Proton)
        } else if same_text(input, "ulwgl") {
            Ok(InstallTypeCmd::ULWGL)
        } else {
            Err(join("Invalid argument: ", input))
        }
    }

    /// The catalog address to query for this family: the release listing, or
    /// the latest release where `latest` is set.
    pub fn get_url(&self, latest: bool) -> (url: String)
        ensures
            url@ == self.family().url(latest),
    {
        self.install_type().get_url(latest)
    }

    /// The directory of this family's installs, relative to the user's home.
    pub fn compat_directory(&self, is_flatpak: bool) -> (path: &'static str)
        ensures
            path@ == self.family().compat_path(is_flatpak),
    {
        self.install_type().compat_directory(is_flatpak)
    }
}

/// A family's name reads back as the family.
pub proof fn name_reads_back(kind: InstallTypeCmd)
    ensures
        InstallTypeCmd::parsed(kind.family().label()) == Ok::<InstallTypeCmd, Seq<char>>(kind),
{
    reveal_strlit("wine");
    reveal_strlit("proton");
    reveal_strlit("ulwgl");
    match kind {
        InstallTypeCmd::Proton => {
            assert("proton"@.len() != "wine"@.len());
        },
        InstallTypeCmd::Wine => {},
        InstallTypeCmd::ULWGL => {
            assert("ulwgl"@.len() != "wine"@.len());
            assert("ulwgl"@.len() != "proton"@.len());
        },
    }
}

} // verus!
