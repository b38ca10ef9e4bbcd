//! Rules and data of a manager for Proton and Wine compatibility builds.

pub mod checksum;
pub mod cli;
pub mod cmd;
pub mod constants;
pub mod decompress;
pub mod download;
pub mod error;
pub mod github;
pub mod install;
pub mod install_type;
pub mod list;
pub mod remove;
pub mod text;
