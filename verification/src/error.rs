//! The failures that the driver subsystem reports to its caller.

use vstd::prelude::*;
use vstd::string::StringExecFns;

verus! {

/// Every way in which acquiring, installing or launching the driver can fail.
#[derive(Clone, Copy, Debug, PartialEq, Eq, Structural)]
pub enum Error {
    /// A transport failure on one of the two HTTP requests.
    Network,
    /// The release feed answered, but not with a release index.
    Decode,
    /// The release index holds no asset for the running platform.
    ReleaseNotFound,
    /// The archive is corrupt or truncated, or an entry could not be written.
    Archive,
    /// The driver executable is missing or cannot be executed.
    Spawn,
}

impl Error {
    /// The text that describes the failure to a reader.
    pub open spec fn text(&self) -> Seq<char> {
        match self {
            Error::Network => "network request failed"@,
            Error::Decode => "release index could not be decoded"@,
            Error::ReleaseNotFound => "release not found"@,
            Error::Archive => "archive is corrupt or could not be extracted"@,
            Error::Spawn => "driver could not be started"@,
        }
    }

    /// Describes the failure in words.
    pub fn message(&self) -> (s: String)
        ensures
            s@ == self.text(),
    {
        match self {
            Error::Network => String::from_str("network request failed"),
            Error::Decode => String::from_str("release index could not be decoded"),
            Error::ReleaseNotFound => String::from_str("release not found"),
            Error::Archive => String::from_str("archive is corrupt or could not be extracted"),
            Error::Spawn => String::from_str("driver could not be started"),
        }
    }
}

} // verus!
