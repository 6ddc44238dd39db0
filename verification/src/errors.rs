//! Error taxonomy for snapshot refreshes.

use vstd::prelude::*;

verus! {

/// Why a configuration refresh failed.
///
/// `ConfigLoadError`: the metadata document was missing, unreadable, or not
/// parseable as a key-value document with string `description` and `version`
/// fields. `RevisionLookupError`: the revision-control command could not be
/// run or exited unsuccessfully.
#[derive(Clone, Copy, Debug, PartialEq, Eq, Structural)]
pub enum ConfigError {
    ConfigLoadError,
    RevisionLookupError,
}

} // verus!
