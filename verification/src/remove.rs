//! The remove command: what it is to delete.

use crate::cli::InstallTypeCmd;
use crate::constants::install_path;
use crate::text::same_text;
use vstd::prelude::*;

verus! {

/// The request to remove installs of a family, or what an install left
/// behind.
#[derive(Debug, PartialEq, Eq)]
pub struct Remove {
    pub cache: bool,
    pub all: bool,
    pub install_type: InstallTypeCmd,
    pub pw_version: String,
}

/// What a removal deletes.
#[derive(Clone, Copy, Debug, PartialEq, Eq, Structural)]
pub enum RemoveTarget {
    /// Every install of the family.
    AllInstalls,
    /// Every file in the download directory.
    Cache,
    /// The one install that the request names.
    Version,
}

impl Default for Remove {
    fn default() -> (remove: Self)
        ensures
            !remove.cache,
            !remove.all,
            remove.install_type == InstallTypeCmd::Proton,
            remove.pw_version@ == Seq::<char>::empty(),
    {
        Remove {
            cache: false,
            all: false,
            install_type: InstallTypeCmd::Proton,
            pw_version: String::new(),
        }
    }
}

/// Whether `i` is the place of the first of `names` that is `wanted`.
pub open spec fn is_first_named(names: Seq<String>, wanted: Seq<char>, i: int) -> bool {
    &&& 0 <= i < names.len()
    &&& names[i]@ == wanted
    &&& forall|k: int| 0 <= k < i ==> (#[trigger] names[k])@ != wanted
}

impl Remove {
    pub fn new(cache: bool, all: bool, install_type: InstallTypeCmd, pw_version: String) -> (remove:
        Self)
        ensures
            remove.cache == cache,
            remove.all == all,
            remove.install_type == install_type,
            remove.pw_version == pw_version,
    {
        Self { cache, all, install_type, pw_version }
    }

    /// What this request deletes: all installs where `all` is set, else the
    /// downloads where `cache` is set, else the named install.
    pub fn target(&self) -> (target: RemoveTarget)
        ensures
            target == if self.all {
                RemoveTarget::AllInstalls
            } else if self.cache {
                RemoveTarget::Cache
            } else {
                RemoveTarget::Version
            },
    {
        if self.all {
            RemoveTarget::AllInstalls
        } else if self.cache {
            RemoveTarget::Cache
        } else {
            RemoveTarget::Version
        }
    }

    /// The directory that this request works in, relative to the user's
    /// home: the download directory for the downloads, else the family's
    /// installs.
    pub fn directory(&self) -> (path: &'static str)
        ensures
            path@ == if !self.all && self.cache {
                ".local/share/protonctl"@
            } else {
                self.install_type.family().compat_path(false)
            },
    {
        match self.target() {
            RemoveTarget::Cache => install_path(),
            _ => self.install_type.compat_directory(false),
        }
    }

    /// The place of the named install among the names of the installed
    /// builds: the first that is the name asked for, if there is one.
    pub fn locate(&self, installed: &Vec<String>) -> (found: Option<usize>)
        ensures
            match found {
                Some(i) => is_first_named(installed@, self.pw_version@, i as int),
                None => forall|k: int|
                    0 <= k < installed.len() ==> (#[trigger] installed@[k])@ != self.pw_version@,
            },
    {
        let mut i: usize = 0;
        while i < installed.len()
            invariant
                i <= installed.len(),
                forall|k: int| 0 <= k < i ==> (#[trigger] installed@[k])@ != self.pw_version@,
            decreases installed.len() - i,
        {
            if same_text(installed[i].as_str(), self.pw_version.as_str()) {
                return Some(i);
            }
            i += 1;
        }
        None
    }
}

} // verus!
