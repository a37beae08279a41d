use vstd::prelude::*;

verus! {

/// Why an update run failed.
#[derive(Debug, PartialEq, Eq)]
pub enum DriverError {
    /// The browser executable at this path could not be run.
    BrowserNotFound(String),
    /// The output of a version query holds no dotted four-part version.
    VersionNotParsable,
    /// No connection to the archive host within the connect timeout.
    ConnectTimeout,
    /// The response did not complete within the overall timeout.
    RequestTimeout,
    /// Any other failure of the download.
    TransportError,
    /// The downloaded bytes are not a readable ZIP archive.
    ArchiveInvalid,
    /// The archive holds no entry at this path.
    DriverEntryNotFound(String),
    /// The driver could not be written to this path.
    InstallFailed(String),
}

} // verus!
