//! The availability poller's decisions. The poller itself is a loop of
//! outside work (fetch the catalog, display status, sleep); the decisions the
//! loop takes on each tick are the functions here.

use vstd::prelude::*;

use crate::catalog::{launchable, lookup_instance_type, lookup_model};
use crate::types::{Catalog, CatalogModel};

verus! {

/// What one poll tick decides: launch now, or keep polling.
#[derive(Clone, Copy, PartialEq, Eq, Structural, Debug)]
pub enum PollDecision {
    /// Capacity was observed: launch once, then the poller terminates.
    LaunchNow,
    /// No capacity (or no such type): display status, sleep, poll again.
    KeepPolling,
}

/// The decision a tick takes on a freshly fetched catalog: launch exactly
/// when the requested type is launchable.
pub open spec fn decision_model(catalog: CatalogModel, gpu: Seq<char>) -> PollDecision {
    if launchable(catalog, gpu) {
        PollDecision::LaunchNow
    } else {
        PollDecision::KeepPolling
    }
}

/// Decide one poll tick from the catalog that the tick fetched.
pub fn poll_decision(catalog: &Catalog, gpu: &String) -> (d: PollDecision)
    ensures
        d == decision_model(catalog.deep_view(), gpu@),
        d == PollDecision::LaunchNow <==> launchable(catalog.deep_view(), gpu@),
{
    match lookup_instance_type(catalog, gpu) {
        Some(i) => {
            if catalog[i].1.regions_with_capacity_available.len() > 0 {
                PollDecision::LaunchNow
            } else {
                PollDecision::KeepPolling
            }
        },
        None => PollDecision::KeepPolling,
    }
}

/// A catalog entry with an empty region list is never launchable, so a tick
/// that observes it keeps polling.
pub proof fn lemma_empty_regions_keep_polling(catalog: CatalogModel, gpu: Seq<char>)
    requires
        match lookup_model(catalog, gpu) {
            Some(avail) => avail.regions.len() == 0,
            None => true,
        },
    ensures
        !launchable(catalog, gpu),
        decision_model(catalog, gpu) == PollDecision::KeepPolling,
{
}

/// Seconds to sleep until the next tick: the configured interval less the
/// time this tick took, clamped at zero (a slow tick never sleeps a negative
/// duration and never panics; the next tick starts immediately).
pub fn next_check_in(interval_secs: u64, elapsed_secs: u64) -> (r: u64)
    ensures
        elapsed_secs < interval_secs ==> r == interval_secs - elapsed_secs,
        elapsed_secs >= interval_secs ==> r == 0,
{
    interval_secs.saturating_sub(elapsed_secs)
}

} // verus!
