//! Organizes local clones of remote repositories into a canonical
//! `root/host/owner/name` directory layout and drives a safety-checked
//! synchronization workflow for overwriting a remote working copy.

pub mod command_ext;
pub mod config;
pub mod remote_mount;
pub mod repo_url;
pub mod sync;
