//! How external programs are run and how their failures are reported.

use vstd::prelude::*;

verus! {

/// Runs a prepared external command to completion, mapping an absent
/// program and a non-zero exit to [`Error`]. The library only states this
/// interface: the process plumbing that implements it lives outside, next
/// to the process boundary.
pub trait CommandExt {
    fn run(&mut self) -> Result<(), Error>;
}

/// How invoking an external program fails.
#[derive(Clone, Debug)]
pub enum Error {
    /// The program is not installed.
    MissingProgram { name: String },
    /// The program ran and reported failure.
    ProgramFailed { cmd: String },
}

impl Error {
    /// What the description of each failure must say.
    pub open spec fn spec_message(&self) -> Seq<char> {
        match *self {
            Error::MissingProgram { name } => "Missing executable `"@ + name@ + "`"@,
            Error::ProgramFailed { cmd } => "Failed executing "@ + cmd@,
        }
    }

    /// A human-readable description naming the failed invocation.
    pub fn message(&self) -> (r: String)
        ensures
            r@ == self.spec_message(),
    {
        match self {
            Error::MissingProgram { name } => {
                let mut m = "Missing executable `".to_owned();
                m.append(name.as_str());
                m.append("`");
                m
            },
            Error::ProgramFailed { cmd } => {
                let mut m = "Failed executing ".to_owned();
                m.append(cmd.as_str());
                m
            },
        }
    }
}

} // verus!
