//! The configuration snapshot cache: serves a held snapshot while it is
//! fresh, and commits a wholesale replacement on refresh.
//!
//! The cache itself performs no reads: the caller hands in the current time,
//! the metadata text it read (or `None` when the read failed) and the
//! revision command's output (or `None` when the command could not be run),
//! and the cache decides and commits. A failed refresh provably leaves the
//! held snapshot untouched.

use vstd::prelude::*;

use crate::FRESHNESS_WINDOW_MS;
use crate::errors::ConfigError;
use crate::metadata::{parse_metadata, spec_parse_metadata, Metadata, MetadataView};
use crate::revision::{revision_from_output, spec_revision, CommandOutput};

verus! {

/// The mathematical content of a configuration snapshot.
pub struct SnapshotView {
    pub metadata: MetadataView,
    pub sha: Seq<char>,
    pub last_updated: u64,
}

/// One consistent configuration snapshot: metadata and revision hash read
/// together, stamped with the time of the refresh that produced them.
#[derive(Debug)]
pub struct ConfigSnapshot {
    pub metadata: Metadata,
    pub sha: String,
    pub last_updated: u64,
}

impl View for ConfigSnapshot {
    type V = SnapshotView;

    open spec fn view(&self) -> SnapshotView {
        SnapshotView { metadata: self.metadata@, sha: self.sha@, last_updated: self.last_updated }
    }
}

impl Clone for ConfigSnapshot {
    fn clone(&self) -> (r: Self)
        ensures
            r@ == self@,
    {
        ConfigSnapshot {
            metadata: self.metadata.clone(),
            sha: self.sha.clone(),
            last_updated: self.last_updated,
        }
    }
}

/// Whether a cache holding `c` serves its snapshot at time `now`: it holds
/// one, taken at most a freshness window ago and not after `now`.
pub open spec fn spec_fresh(c: Option<SnapshotView>, now: u64) -> bool {
    c matches Some(s) && s.last_updated <= now < s.last_updated + FRESHNESS_WINDOW_MS
}

/// What a cache holding `c` answers at time `now`: its snapshot while fresh,
/// nothing once the window has elapsed.
pub open spec fn spec_lookup(c: Option<SnapshotView>, now: u64) -> Option<SnapshotView> {
    if spec_fresh(c, now) {
        c
    } else {
        None
    }
}

/// The snapshot cache. Empty at construction; holds at most one snapshot,
/// replaced wholesale by each successful refresh.
#[derive(Debug)]
pub struct ConfigCache {
    entry: Option<ConfigSnapshot>,
}

impl View for ConfigCache {
    type V = Option<SnapshotView>;

    closed spec fn view(&self) -> Option<SnapshotView> {
        match self.entry {
            Some(s) => Some(s@),
            None => None,
        }
    }
}

impl ConfigCache {
    /// A cache holding no snapshot.
    pub fn new() -> (r: Self)
        ensures
            r@ is None,
    {
        ConfigCache { entry: None }
    }

    /// The held snapshot, when it is fresh at time `now`; `None` when the
    /// cache is empty or the freshness window has elapsed, in which case the
    /// caller refreshes. Reads nothing and changes nothing.
    pub fn lookup(&self, now: u64) -> (r: Option<ConfigSnapshot>)
        ensures
            r matches Some(s) ==> spec_lookup(self@, now) == Some(s@),
            r is None ==> spec_lookup(self@, now) is None,
            r is Some <==> spec_fresh(self@, now),
    {
        match &self.entry {
            Some(s) => {
                if s.last_updated <= now && now - s.last_updated < FRESHNESS_WINDOW_MS {
                    Some(s.clone())
                } else {
                    None
                }
            },
            None => None,
        }
    }

    /// One refresh attempt at time `now`, given what the caller read:
    /// the metadata text (`None` when the file could not be read) and the
    /// revision command's output (`None` when it could not be run; consulted
    /// only when the metadata parses).
    ///
    /// On success the new snapshot, stamped `now`, replaces the held one
    /// wholesale and is returned. On any failure the cache is unchanged:
    /// `ConfigLoadError` exactly when the metadata text is missing or does
    /// not parse, `RevisionLookupError` exactly when the metadata parses but
    /// the command run yields no revision.
    pub fn apply_refresh(
        &mut self,
        now: u64,
        doc: Option<&str>,
        output: Option<CommandOutput>,
    ) -> (r: Result<ConfigSnapshot, ConfigError>)
        ensures
            r matches Ok(snap) ==> {
                &&& doc matches Some(d) && spec_parse_metadata(d@) == Some(snap@.metadata)
                &&& spec_revision(output) == Some(snap@.sha)
                &&& snap@.last_updated == now
                &&& final(self)@ == Some(snap@)
            },
            r is Err ==> final(self)@ == old(self)@,
            r == Err::<ConfigSnapshot, ConfigError>(ConfigError::ConfigLoadError) <==> !(doc
                matches Some(d) && spec_parse_metadata(d@) is Some),
            r == Err::<ConfigSnapshot, ConfigError>(ConfigError::RevisionLookupError) <==> ((doc
                matches Some(d) && spec_parse_metadata(d@) is Some) && spec_revision(output)
                is None),
    {
        let d = match doc {
            Some(d) => d,
            None => {
                return Err(ConfigError::ConfigLoadError);
            },
        };
        let metadata = match parse_metadata(d) {
            Ok(m) => m,
            Err(e) => {
                return Err(e);
            },
        };
        let sha = match revision_from_output(output) {
            Ok(sha) => sha,
            Err(e) => {
                return Err(e);
            },
        };
        let snapshot = ConfigSnapshot { metadata, sha, last_updated: now };
        let copy = snapshot.clone();
        self.entry = Some(snapshot);
        Ok(copy)
    }
}

/// After a refresh commits a snapshot stamped `now`, every lookup at a time
/// `t` within the freshness window answers that identical snapshot.
pub proof fn lemma_fresh_after_refresh(snap: SnapshotView, now: u64, t: u64)
    requires
        snap.last_updated == now,
        now <= t < now + FRESHNESS_WINDOW_MS,
    ensures
        spec_lookup(Some(snap), t) == Some(snap),
{
}

/// Once the freshness window has elapsed since the held snapshot was taken,
/// a lookup answers nothing, so the next call performs a refresh.
pub proof fn lemma_stale_lookup_misses(c: Option<SnapshotView>, t: u64)
    requires
        c matches Some(s) ==> t >= s.last_updated + FRESHNESS_WINDOW_MS,
    ensures
        spec_lookup(c, t) is None,
{
}

} // verus!
