//! The scoped remote mount's interface: the connection descriptor and the
//! unmount invocation it is acquired and released with, and how acquisition
//! fails. The mount itself is an external tool run outside the library.

use crate::command_ext;
use vstd::prelude::*;

verus! {

/// How acquiring a scoped remote mount fails. A handle exists only for a
/// fully mounted directory: on any failure here no handle is returned.
#[derive(Clone, Debug)]
pub enum Error {
    /// The mount command could not be run, or ran and reported failure.
    Command { err: command_ext::Error },
    /// The private temporary directory for the mountpoint could not be
    /// created.
    TempDir,
}

impl Error {
    /// A human-readable description of the failure.
    pub fn message(&self) -> (r: String)
        ensures
            match *self {
                Error::Command { err } => r@ == err.spec_message(),
                Error::TempDir => r@ == "Failed creating temporary directory"@,
            },
    {
        match self {
            Error::Command { err } => err.message(),
            Error::TempDir => "Failed creating temporary directory".to_owned(),
        }
    }
}

/// The connection descriptor handed to the network-filesystem mount tool:
/// `host:remotePath`.
pub fn connection_string(host: &str, path: &str) -> (r: String)
    ensures
        r@ == host@ + ":"@ + path@,
{
    let mut s = host.to_owned();
    s.append(":");
    s.append(path);
    s
}

/// The argument list for the unmount tool: `-u`, then the mountpoint.
pub fn unmount_args(mountpoint: &str) -> (r: Vec<String>)
    ensures
        r@.len() == 2,
        r@[0]@ == "-u"@,
        r@[1]@ == mountpoint@,
{
    let mut v: Vec<String> = Vec::new();
    v.push("-u".to_owned());
    v.push(mountpoint.to_owned());
    v
}

} // verus!
