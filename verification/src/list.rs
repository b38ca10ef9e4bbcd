//! The list command: a page of the catalog's releases, or the local installs.

use crate::cli::InstallTypeCmd;
use crate::constants::MAX_PER_PAGE;
use crate::github::{page_query, PageQuery};
use crate::text::join;
use vstd::prelude::*;

verus! {

/// The request to list releases of a family, or its installed builds.
#[derive(Clone, Copy, Debug, PartialEq, Eq, Structural)]
pub struct List {
    pub number: u8,
    pub page: u8,
    pub local: bool,
    pub install_type: InstallTypeCmd,
}

impl Default for List {
    fn default() -> (list: Self)
        ensures
            list == (List { number: 0, page: 0, local: false, install_type: InstallTypeCmd::Proton }),
    {
        List { number: 0, page: 0, local: false, install_type: InstallTypeCmd::Proton }
    }
}

impl List {
    pub fn new(number: u8, page: u8, local: bool, install_type: InstallTypeCmd) -> (list: Self)
        ensures
            list == (List { number, page, local, install_type }),
    {
        Self { number, page, local, install_type }
    }

    /// The page to ask the catalog for: this request's page, with at most
    /// [`MAX_PER_PAGE`] releases on it, however many were asked for.
    pub fn query(&self) -> (query: PageQuery)
        ensures
            query.page == self.page,
            query.per_page == if self.number > MAX_PER_PAGE {
                MAX_PER_PAGE
            } else {
                self.number
            },
            query.per_page <= MAX_PER_PAGE,
    {
        page_query(Some(self.number), Some(self.page))
    }

    /// The catalog address of the family's release listing.
    pub fn url(&self) -> (address: String)
        ensures
            address@ == self.install_type.family().url(false),
    {
        self.install_type.get_url(false)
    }

    /// The directory whose entries are the family's installs, relative to
    /// the user's home.
    pub fn directory(&self) -> (path: &'static str)
        ensures
            path@ == self.install_type.family().compat_path(false),
    {
        self.install_type.compat_directory(false)
    }

    /// The line above the list of the family's installs.
    pub fn header(&self) -> (line: String)
        ensures
            line@ == self.install_type.family().label() + " installs:"@,
    {
        join(self.install_type.to_possible_value(), " installs:")
    }
}

} // verus!
