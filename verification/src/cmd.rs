//! From a parsed command line to the command that it asks for.

use crate::cli::InstallTypeCmd;
use crate::install::Install;
use crate::install_type::InstallType;
use crate::list::List;
use crate::remove::Remove;
use vstd::prelude::*;
use vstd::string::StringExecFns;

verus! {

/// A command, ready to be carried out.
#[derive(Debug, PartialEq, Eq)]
pub enum Actions {
    Install(Install),
    List(List),
    Remove(Remove),
}

/// A whole invocation: the family and, if one was given, the command.
#[derive(Debug, PartialEq, Eq)]
pub struct ProtonCtl {
    pub install_type: InstallType,
    pub actions: Option<Actions>,
}

/// The arguments of a subcommand, as the command line held them.
#[derive(Debug, PartialEq, Eq)]
pub enum Subcommand {
    Install { install_version: String },
    List { number: u8, page: u8, local: bool },
    Remove { cache: bool, all: bool, pw_version: Option<String> },
}

/// The arguments of an invocation, as the command line held them.
#[derive(Debug, PartialEq, Eq)]
pub struct Arguments {
    pub flatpak: bool,
    pub install_type: InstallTypeCmd,
    pub subcommand: Option<Subcommand>,
}

/// Whether `outcome` is the command that `cmd` asks for, or the complaint
/// that it earns: a removal must name a version unless it removes all
/// installs or the downloads, and an invocation must name a subcommand.
pub open spec fn is_command(cmd: Arguments, outcome: Result<Actions, String>) -> bool {
    match cmd.subcommand {
        Some(Subcommand::Install { install_version }) => {
            &&& outcome matches Ok(Actions::Install(install))
            &&& install.install_version@ == install_version@
            &&& install.flatpak == cmd.flatpak
            &&& install.install_type == cmd.install_type
        },
        Some(Subcommand::List { number, page, local }) => {
            &&& outcome matches Ok(Actions::List(list))
            &&& list == (List { number, page, local, install_type: cmd.install_type })
        },
        Some(Subcommand::Remove { cache, all, pw_version }) => {
            if pw_version is None && !all && !cache {
                &&& outcome matches Err(complaint)
                &&& complaint@ == "No install_version specified"@
            } else {
                &&& outcome matches Ok(Actions::Remove(remove))
                &&& remove.cache == cache
                &&& remove.all == all
                &&& remove.install_type == cmd.install_type
                &&& remove.pw_version@ == match pw_version {
                    Some(version) => version@,
                    None => Seq::<char>::empty(),
                }
            }
        },
        None => {
            &&& outcome matches Err(complaint)
            &&& complaint@ == "It shouldn't be possible to hit this"@
        },
    }
}

/// Builds the command that a parsed command line asks for.
pub fn command_to_struct(cmd: Arguments) -> (outcome: Result<Actions, String>)
    ensures
        is_command(cmd, outcome),
{
    let install_type = cmd.install_type;
    match cmd.subcommand {
        Some(Subcommand::Install { install_version }) => Ok(
            Actions::Install(Install::new(install_version, cmd.flatpak, install_type)),
        ),
        Some(Subcommand::List { number, page, local }) => Ok(
            Actions::List(List::new(number, page, local, install_type)),
        ),
        Some(Subcommand::Remove { cache, all, pw_version }) => {
            let version = match pw_version {
                Some(version) => version,
                None => {
                    if !all && !cache {
                        return Err(String::from_str("No install_version specified"));
                    }
                    String::new()
                },
            };
            Ok(Actions::Remove(Remove::new(cache, all, install_type, version)))
        },
        None => Err(String::from_str("It shouldn't be possible to hit this")),
    }
}

impl ProtonCtl {
    /// The invocation that a parsed command line stands for; one without a
    /// subcommand asks for nothing.
    pub fn from_arguments(cmd: Arguments) -> (outcome: Result<ProtonCtl, String>)
        ensures
            match outcome {
                Ok(invocation) => {
                    &&& invocation.install_type == cmd.install_type.family()
                    &&& match invocation.actions {
                        Some(command) => cmd.subcommand is Some && is_command(cmd, Ok(command)),
                        None => cmd.subcommand is None,
                    }
                },
                Err(complaint) => cmd.subcommand is Some && is_command(cmd, Err(complaint)),
            },
    {
        let install_type = cmd.install_type.install_type();
        if cmd.subcommand.is_none() {
            return Ok(ProtonCtl { install_type, actions: None });
        }
        match command_to_struct(cmd) {
            Ok(command) => Ok(ProtonCtl { install_type, actions: Some(command) }),
            Err(complaint) => Err(complaint),
        }
    }
}

} // verus!
