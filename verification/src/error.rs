//! The failure taxonomy of an acquisition attempt. Every failure is terminal
//! for the attempt and carries a human-readable detail string; `message`
//! renders the full text that is surfaced to the host.

use vstd::prelude::*;
use vstd::string::StringExecFns;

verus! {

/// What went wrong during one acquisition attempt.
#[derive(Debug)]
pub enum FsacError {
    /// The package index could not be reached.
    Network(String),
    /// A payload or a probed version string could not be parsed.
    Parse(String),
    /// The package index lists no versions at all.
    NotFound,
    /// The version archive could not be downloaded.
    Download(String),
    /// The version archive could not be unpacked.
    Extract(String),
    /// The installed package's tools directory could not be listed.
    Io(String),
    /// The runtime executable failed or could not be run.
    Execution(String),
    /// No shipped build variant is usable under the probed runtime.
    NoCompatibleVariant(String),
}

impl FsacError {
    /// The full human-readable text of this error.
    pub open spec fn spec_message(self) -> Seq<char> {
        match self {
            FsacError::Network(d) => "failed to fetch fsautocomplete versions: "@ + d@,
            FsacError::Parse(d) => "failed to parse: "@ + d@,
            FsacError::NotFound => "no versions found"@,
            FsacError::Download(d) => "failed to download fsautocomplete: "@ + d@,
            FsacError::Extract(d) => "failed to unpack fsautocomplete: "@ + d@,
            FsacError::Io(d) => "failed to read fsautocomplete tools directory: "@ + d@,
            FsacError::Execution(d) => "failed to get dotnet version: "@ + d@,
            FsacError::NoCompatibleVariant(d) => {
                "no compatible target framework monikers found for dotnet version "@ + d@
            },
        }
    }

    /// Renders the message that the host shows to the user.
    pub fn message(&self) -> (r: String)
        ensures
            r@ == self.spec_message(),
    {
        match self {
            FsacError::Network(d) => {
                String::from_str("failed to fetch fsautocomplete versions: ").concat(d.as_str())
            },
            FsacError::Parse(d) => String::from_str("failed to parse: ").concat(d.as_str()),
            FsacError::NotFound => String::from_str("no versions found"),
            FsacError::Download(d) => {
                String::from_str("failed to download fsautocomplete: ").concat(d.as_str())
            },
            FsacError::Extract(d) => {
                String::from_str("failed to unpack fsautocomplete: ").concat(d.as_str())
            },
            FsacError::Io(d) => {
                String::from_str("failed to read fsautocomplete tools directory: ").concat(
                    d.as_str(),
                )
            },
            FsacError::Execution(d) => {
                String::from_str("failed to get dotnet version: ").concat(d.as_str())
            },
            FsacError::NoCompatibleVariant(d) => {
                String::from_str("no compatible target framework monikers found for dotnet version ")
                    .concat(d.as_str())
            },
        }
    }
}

} // verus!
