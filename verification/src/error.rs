//! The failures that end a run.

use vstd::prelude::*;
use vstd::string::*;

verus! {

/// A fatal failure. None is recovered from: each one ends the run, and no
/// record kind is started after it.
#[derive(Clone, Debug, PartialEq, Eq)]
pub enum SyncError {
    /// A required setting is missing or invalid. Raised before anything is
    /// asked of the network.
    Configuration(String),
    /// The document store or the search service cannot be reached.
    Connection(String),
    /// A stored record does not have the shape of its kind.
    Decode(String),
    /// The search service refused a bulk write or could not complete it.
    Write(String),
}

impl SyncError {
    /// What the caller gave as the cause of the failure.
    pub open spec fn spec_detail(self) -> String {
        match self {
            SyncError::Configuration(detail) => detail,
            SyncError::Connection(detail) => detail,
            SyncError::Decode(detail) => detail,
            SyncError::Write(detail) => detail,
        }
    }

    /// The words that introduce a failure of this kind in a diagnostic.
    pub open spec fn spec_label(self) -> Seq<char> {
        match self {
            SyncError::Configuration(_) => "Missing or invalid configuration: "@,
            SyncError::Connection(_) => "Connection failed: "@,
            SyncError::Decode(_) => "Failed to get document: "@,
            SyncError::Write(_) => "Failed to write documents: "@,
        }
    }

    /// The diagnostic shown when the run ends on this failure.
    pub fn describe(&self) -> (text: String)
        ensures
            text@ == self.spec_label() + self.spec_detail()@,
    {
        match self {
            SyncError::Configuration(detail) => {
                "Missing or invalid configuration: ".to_owned().concat(detail.as_str())
            },
            SyncError::Connection(detail) => {
                "Connection failed: ".to_owned().concat(detail.as_str())
            },
            SyncError::Decode(detail) => {
                "Failed to get document: ".to_owned().concat(detail.as_str())
            },
            SyncError::Write(detail) => {
                "Failed to write documents: ".to_owned().concat(detail.as_str())
            },
        }
    }
}

} // verus!
