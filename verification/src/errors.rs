//! The error kinds the lifecycle surfaces to its caller.
//!
//! Transient gateway failures are retried and never surfaced; control-API
//! failures during probing are logged and never surfaced; a child crash is
//! an observed event, not an error.  What remains is what a caller of
//! `start_core`, `stop_core` or `change_core` can see.

use crate::extstr::SmartText;
use crate::extstr::smart_as_str;
use crate::extstr::smart_chars;
use vstd::prelude::*;

verus! {

/// An error surfaced by the lifecycle coordinator.
pub enum CoreError {
    /// Generating the runtime configuration file failed; startup was
    /// aborted before any process was touched.
    ConfigGeneration { detail: String },
    /// Spawning the sidecar child process failed; no mode change happened.
    ProcessSpawn { detail: String },
    /// `change_core` was handed an identifier outside the allow-list; no
    /// persisted or runtime state was changed.
    InvalidCoreSelection { requested: SmartText },
}

impl CoreError {
    /// The human-readable description of the error.
    pub fn message(&self) -> (s: String)
        ensures
            match *self {
                CoreError::ConfigGeneration { detail } => s@ == "Failed to generate config: "@
                    + detail@,
                CoreError::ProcessSpawn { detail } => s@ == "Failed to spawn core process: "@
                    + detail@,
                CoreError::InvalidCoreSelection { requested } => s@ == "Invalid clash core: "@
                    + smart_chars(requested),
            },
    {
        match self {
            CoreError::ConfigGeneration { detail } => {
                let mut s = String::from_str("Failed to generate config: ");
                s.append(detail.as_str());
                s
            },
            CoreError::ProcessSpawn { detail } => {
                let mut s = String::from_str("Failed to spawn core process: ");
                s.append(detail.as_str());
                s
            },
            CoreError::InvalidCoreSelection { requested } => {
                let mut s = String::from_str("Invalid clash core: ");
                s.append(smart_as_str(requested));
                s
            },
        }
    }
}

} // verus!
