//! Threat-intelligence feed bookkeeping: which feeds are due for a refresh.

use vstd::prelude::*;

verus! {

/// One feed and when it was last synchronised.
#[derive(Debug, Clone, PartialEq, Eq)]
pub struct FeedSpec {
    /// The feed's name; also its cache directory's name.
    pub name: String,
    pub url: String,
    /// Unix time (seconds) of the last successful sync, if any.
    pub last_synced: Option<u64>,
}

/// The record of every known feed.
#[derive(Debug, Clone, PartialEq, Eq)]
pub struct SyncManifest {
    pub feeds: Vec<FeedSpec>,
}

/// A feed is stale at `now` when it was never synced, or when its last sync
/// lies more than `threshold_secs` before `now` (a sync stamped in the
/// future is not stale).
pub open spec fn is_stale(f: FeedSpec, threshold_secs: u64, now: u64) -> bool {
    match f.last_synced {
        None => true,
        Some(t) => t < now && now - t > threshold_secs,
    }
}

/// The stale feeds among `feeds`, in order.
pub open spec fn stale_among(feeds: Seq<FeedSpec>, threshold_secs: u64, now: u64) -> Seq<FeedSpec> {
    feeds.filter(|f: FeedSpec| is_stale(f, threshold_secs, now))
}

/// The feeds a list of references points at.
pub open spec fn pointed(r: Seq<&FeedSpec>) -> Seq<FeedSpec> {
    r.map_values(|f: &FeedSpec| *f)
}

/// The feeds of `manifest` that are stale at `now` (Unix seconds), in
/// manifest order.
pub fn stale_feeds_at(manifest: &SyncManifest, threshold_secs: u64, now: u64) -> (r: Vec<&FeedSpec>)
    ensures
        pointed(r@) == stale_among(manifest.feeds@, threshold_secs, now),
{
    let mut out: Vec<&FeedSpec> = Vec::new();
    let mut i: usize = 0;
    while i < manifest.feeds.len()
        invariant
            i <= manifest.feeds@.len(),
            pointed(out@) == stale_among(manifest.feeds@.take(i as int), threshold_secs, now),
        decreases manifest.feeds.len() - i,
    {
        let f = &manifest.feeds[i];
        let stale = match f.last_synced {
            None => true,
            Some(t) => t < now && now - t > threshold_secs,
        };
        if stale {
            out.push(f);
        }
        proof {
            let prev = manifest.feeds@.take(i as int);
            assert(manifest.feeds@.take(i + 1) =~= prev.push(*f));
            prev.lemma_filter_push(*f, |g: FeedSpec| is_stale(g, threshold_secs, now));
            assert(pointed(out@) =~= stale_among(manifest.feeds@.take(i + 1), threshold_secs, now));
        }
        i = i + 1;
    }
    assert(manifest.feeds@.take(manifest.feeds@.len() as int) =~= manifest.feeds@);
    out
}

/// The current Unix time in seconds.
///
/// Reads `std::time::SystemTime::now()` and its duration since
/// `UNIX_EPOCH` (0 for a clock set before the epoch). The result depends on
/// the machine's clock, so nothing is stated of it.
#[verifier::external_body]
fn now_unix_secs() -> (r: u64) {
    match std::time::SystemTime::now().duration_since(std::time::UNIX_EPOCH) {
        Ok(d) => d.as_secs(),
        Err(_) => 0,
    }
}

/// The feeds whose last sync is older than `threshold_secs` ago, or that
/// were never synced, in manifest order. "Now" is read from the clock: the
/// result is the stale set at some instant, whichever the clock gave.
pub fn stale_feeds(manifest: &SyncManifest, threshold_secs: u64) -> (r: Vec<&FeedSpec>)
    ensures
        exists|now: u64| pointed(r@) == stale_among(manifest.feeds@, threshold_secs, now),
{
    let now = now_unix_secs();
    stale_feeds_at(manifest, threshold_secs, now)
}

/// A feed is due exactly when it was never synced or its last sync lies
/// strictly more than the threshold before now: one synced exactly the
/// threshold ago, or later, is not due, and a feed once due stays due as
/// time goes on.
pub proof fn law_staleness_by_age(f: FeedSpec, threshold_secs: u64, now: u64, later: u64)
    ensures
        f.last_synced is None ==> is_stale(f, threshold_secs, now),
        f.last_synced is Some && f.last_synced->0 <= now ==> (is_stale(f, threshold_secs, now) <==> now
            - f.last_synced->0 > threshold_secs),
        f.last_synced is Some && f.last_synced->0 >= now ==> !is_stale(f, threshold_secs, now),
        is_stale(f, threshold_secs, now) && now <= later ==> is_stale(f, threshold_secs, later),
{
}

/// The stale feeds are the manifest's feeds that are due, each once, in
/// manifest order: a due feed is listed and a feed that is not due is not.
pub proof fn law_stale_feeds_are_the_due_ones(feeds: Seq<FeedSpec>, threshold_secs: u64, now: u64, i: int)
    ensures
        0 <= i < feeds.len() && is_stale(feeds[i], threshold_secs, now) ==> stale_among(
            feeds,
            threshold_secs,
            now,
        ).contains(feeds[i]),
        forall|k: int|
            0 <= k < stale_among(feeds, threshold_secs, now).len() ==> is_stale(
                #[trigger] stale_among(feeds, threshold_secs, now)[k],
                threshold_secs,
                now,
            ),
        stale_among(feeds, threshold_secs, now).len() <= feeds.len(),
{
    let pred = |f: FeedSpec| is_stale(f, threshold_secs, now);
    feeds.lemma_filter_len(pred);
    assert forall|k: int| 0 <= k < stale_among(feeds, threshold_secs, now).len() implies is_stale(
        #[trigger] stale_among(feeds, threshold_secs, now)[k],
        threshold_secs,
        now,
    ) by {
        feeds.lemma_filter_pred(pred, k);
    }
    if 0 <= i < feeds.len() && is_stale(feeds[i], threshold_secs, now) {
        feeds.lemma_filter_contains(pred, i);
    }
}

} // verus!
