//! The update broadcaster: on a fixed period the driver performs one
//! dashboard fetch and hands the outcome in; a success is published as-is,
//! any failure is dropped in silence. The tick decision is verified here,
//! and the emission-rate law over a whole window of ticks with it.

use vstd::prelude::*;
use crate::proxy::{DashboardData, ProxyError};

verus! {

/// The fixed period, in seconds, between two broadcaster ticks.
pub const UPDATE_PERIOD_SECS: u64 = 5;

/// Whether one tick's fetch outcome is published.
pub open spec fn spec_tick_emits(fetch: Result<DashboardData, ProxyError>) -> bool {
    fetch is Ok
}

/// One broadcaster tick: a fetched snapshot is published unchanged; a
/// failed fetch publishes nothing — no error surfaces and nothing retries
/// before the next tick.
pub fn publish_tick(fetch: Result<DashboardData, ProxyError>) -> (r: Option<DashboardData>)
    ensures
        r is Some <==> spec_tick_emits(fetch),
        fetch matches Ok(d) ==> r == Some(d),
{
    match fetch {
        Ok(d) => Some(d),
        Err(_) => None,
    }
}

/// How many updates a window of tick outcomes publishes.
pub open spec fn spec_emission_count(window: Seq<Result<DashboardData, ProxyError>>) -> nat
    decreases window.len(),
{
    if window.len() == 0 {
        0
    } else {
        spec_emission_count(window.drop_last()) + if spec_tick_emits(window.last()) {
            1nat
        } else {
            0nat
        }
    }
}

/// The broadcaster emits at most one update per tick: exactly one per tick
/// over a window whose fetches all succeed, and none over a window whose
/// fetches all fail.
pub proof fn lemma_emission_rate(window: Seq<Result<DashboardData, ProxyError>>)
    ensures
        spec_emission_count(window) <= window.len(),
        (forall|i: int| 0 <= i < window.len() ==> window[i] is Ok) ==> spec_emission_count(window)
            == window.len(),
        (forall|i: int| 0 <= i < window.len() ==> window[i] is Err) ==> spec_emission_count(window)
            == 0,
    decreases window.len(),
{
    if window.len() > 0 {
        lemma_emission_rate(window.drop_last());
        assert forall|i: int| 0 <= i < window.drop_last().len() implies window.drop_last()[i]
            == window[i] by {}
    }
}

} // verus!
