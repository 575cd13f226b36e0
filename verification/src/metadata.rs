//! Derivation of the linked-role metadata pushed to the identity provider.

use vstd::prelude::*;

verus! {

/// One aggregate watch-statistics row from the analytics provider.
#[derive(Clone, Copy, Debug, PartialEq, Eq, Structural)]
pub struct WatchStat {
    pub total_plays: u64,
    pub total_time_seconds: u64,
}

/// The derived metadata displayed on the linked role.
#[derive(Clone, Copy, Debug, PartialEq, Eq, Structural)]
pub struct Metadata {
    pub total_watches: u64,
    pub hours_watched: u64,
}

/// The full payload of a metadata push.
#[derive(Clone, Debug)]
pub struct MetadataUpdate {
    pub platform_name: String,
    pub metadata: Metadata,
}

/// Metadata derived from a statistics response: the first row's play count
/// and its watch time in whole hours (seconds divided by 3600, truncated).
/// No rows — including a failed statistics fetch, recovered as no rows —
/// derives all zeroes.
pub open spec fn spec_derived_metadata(stats: Seq<WatchStat>) -> Metadata {
    if stats.len() == 0 {
        Metadata { total_watches: 0u64, hours_watched: 0u64 }
    } else {
        Metadata {
            total_watches: stats[0].total_plays,
            hours_watched: (stats[0].total_time_seconds / 3600) as u64,
        }
    }
}

impl Metadata {
    /// The zeroed metadata pushed when no statistics are available.
    pub fn zero() -> (m: Metadata)
        ensures
            m.total_watches == 0,
            m.hours_watched == 0,
            m == spec_derived_metadata(Seq::<WatchStat>::empty()),
    {
        Metadata { total_watches: 0, hours_watched: 0 }
    }
}

/// Derive the pushed metadata from the analytics provider's response.
pub fn derive_metadata(stats: &Vec<WatchStat>) -> (m: Metadata)
    ensures
        m == spec_derived_metadata(stats@),
{
    if stats.len() == 0 {
        Metadata { total_watches: 0, hours_watched: 0 }
    } else {
        Metadata {
            total_watches: stats[0].total_plays,
            hours_watched: stats[0].total_time_seconds / 3600,
        }
    }
}

} // verus!
