//! Typed failures of the report operation.
//!
//! Each of the three fetches can fail independently; the report is then
//! abandoned as a whole and the caller receives a variant that identifies
//! the failing fetch together with the transport's own error message.

use vstd::prelude::*;

verus! {

/// Why no report could be produced: one variant per fetch, each carrying
/// the underlying transport error rendered as text.
#[derive(Debug, Clone, PartialEq, Eq)]
pub enum ReportError {
    /// The running version could not be obtained.
    CurrentVersionUnavailable(String),
    /// The version metadata could not be obtained.
    VersionInfoUnavailable(String),
    /// The display settings could not be obtained.
    SettingsUnavailable(String),
}

impl ReportError {
    /// The human-readable cause chain: a static description of which fetch
    /// failed, followed by the transport error.
    pub open spec fn spec_describe(&self) -> Seq<char> {
        match self {
            ReportError::CurrentVersionUnavailable(m) => "Failed to get current version: "@ + m@,
            ReportError::VersionInfoUnavailable(m) => "Failed to get version info: "@ + m@,
            ReportError::SettingsUnavailable(m) => "Failed to obtain settings: "@ + m@,
        }
    }

    /// Renders the error for display.
    pub fn describe(&self) -> (r: String)
        ensures
            r@ == self.spec_describe(),
    {
        match self {
            ReportError::CurrentVersionUnavailable(m) => {
                let mut r = "Failed to get current version: ".to_owned();
                r.append(m.as_str());
                r
            },
            ReportError::VersionInfoUnavailable(m) => {
                let mut r = "Failed to get version info: ".to_owned();
                r.append(m.as_str());
                r
            },
            ReportError::SettingsUnavailable(m) => {
                let mut r = "Failed to obtain settings: ".to_owned();
                r.append(m.as_str());
                r
            },
        }
    }
}

} // verus!
