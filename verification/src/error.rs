//! The error taxonomy of resolution. Every failure is surfaced to the
//! caller as a descriptive value; [`Error::message`] renders the single
//! human-readable line each kind carries.

use vstd::prelude::*;

verus! {

/// Why a resolution attempt failed.
#[derive(Debug)]
pub enum Error {
    /// The platform's architecture is recognized but not supported; raised
    /// before any host work is requested and never retried.
    UnsupportedPlatform,
    /// The requested logical server identifier is not in the registry's
    /// known set. Carries the identifier as requested.
    UnknownServerId(String),
    /// The release-source query failed. Carries the host's cause text.
    ReleaseLookupFailed(String),
    /// A release was fetched but no asset name equals the computed expected
    /// name. Carries the expected name verbatim.
    NoMatchingAsset(String),
    /// Retrieval or extraction of the matched asset failed. Carries the
    /// host's cause text.
    DownloadFailed(String),
    /// Marking the extracted binary executable failed. Carries the host's
    /// cause text.
    PermissionError(String),
    /// Neither a local executable nor an ephemeral runner could be found
    /// and no install path applies. Carries the remediation message.
    NoUsableInstallation(String),
}

/// The human-readable message [`Error::message`] produces for each kind.
pub open spec fn message_spec(e: Error) -> Seq<char> {
    match e {
        Error::UnsupportedPlatform => "x86 architecture is not supported"@,
        Error::UnknownServerId(id) => "unknown language server: "@ + id@,
        Error::ReleaseLookupFailed(cause) => cause@,
        Error::NoMatchingAsset(name) => "No asset found matching "@ + name@,
        Error::DownloadFailed(cause) => "Failed to download djls: "@ + cause@,
        Error::PermissionError(cause) => cause@,
        Error::NoUsableInstallation(msg) => msg@,
    }
}

impl Error {
    /// The single human-readable line describing this failure.
    pub fn message(&self) -> (r: String)
        ensures
            r@ == message_spec(*self),
    {
        match self {
            Error::UnsupportedPlatform => "x86 architecture is not supported".to_owned(),
            Error::UnknownServerId(id) => {
                let mut m = "unknown language server: ".to_owned();
                m.append(id.as_str());
                m
            },
            Error::ReleaseLookupFailed(cause) => cause.clone(),
            Error::NoMatchingAsset(name) => {
                let mut m = "No asset found matching ".to_owned();
                m.append(name.as_str());
                m
            },
            Error::DownloadFailed(cause) => {
                let mut m = "Failed to download djls: ".to_owned();
                m.append(cause.as_str());
                m
            },
            Error::PermissionError(cause) => cause.clone(),
            Error::NoUsableInstallation(msg) => msg.clone(),
        }
    }
}

} // verus!
