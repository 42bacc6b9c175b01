//! The failures the library reports.

use vstd::prelude::*;
use vstd::string::StringExecFns;

verus! {

/// Everything that can go wrong while loading posts, resolving themes or
/// scaffolding a blog.
#[derive(Debug)]
pub enum Error {
    /// `init` was asked to scaffold a root that already exists.
    AlreadyExists,
    /// A filesystem failure, with the underlying message.  The library never
    /// produces this variant itself; callers that perform the reads and
    /// writes report their failures with it.
    IOError(String),
    /// A malformed post file; the message names the fault.
    FormatError(String),
    /// No theme of the given name exists, neither on disk nor built in.
    ThemeNotFound(String),
}

impl Error {
    /// A human-readable description of the failure.
    pub fn message(&self) -> (r: String)
        ensures
            r@ == match self {
                Error::AlreadyExists => "directory already exists"@,
                Error::IOError(m) => "io error: "@ + m@,
                Error::FormatError(m) => m@,
                Error::ThemeNotFound(n) => "theme not found: "@ + n@,
            },
    {
        match self {
            Error::AlreadyExists => String::from_str("directory already exists"),
            Error::IOError(m) => String::from_str("io error: ").concat(m.as_str()),
            Error::FormatError(m) => m.clone(),
            Error::ThemeNotFound(n) => String::from_str("theme not found: ").concat(n.as_str()),
        }
    }
}

} // verus!
