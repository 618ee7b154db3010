//! Scenarios for feed staleness.

use issen::downloader::{stale_feeds, stale_feeds_at, FeedSpec, SyncManifest};

fn feed(name: &str, last: Option<u64>) -> FeedSpec {
    FeedSpec {
        name: name.to_string(),
        url: format!("https://example.test/{name}"),
        last_synced: last,
    }
}

#[test]
fn never_synced_and_old_feeds_are_stale() {
    let m = SyncManifest {
        feeds: vec![
            feed("a", None),
            feed("b", Some(1_000)),
            feed("c", Some(9_500)),
            feed("d", Some(20_000)),
        ],
    };
    let stale: Vec<&str> = stale_feeds_at(&m, 1_000, 10_000)
        .iter()
        .map(|f| f.name.as_str())
        .collect();
    assert_eq!(stale, vec!["a", "b"]);
    // Exactly the threshold is not older than it.
    let at_edge = SyncManifest {
        feeds: vec![feed("e", Some(9_000))],
    };
    assert!(stale_feeds_at(&at_edge, 1_000, 10_000).is_empty());
}

#[test]
fn stale_feeds_reads_the_clock() {
    let m = SyncManifest {
        feeds: vec![feed("never", None), feed("ancient", Some(0)), feed("future", Some(u64::MAX))],
    };
    let stale: Vec<&str> = stale_feeds(&m, 60).iter().map(|f| f.name.as_str()).collect();
    assert_eq!(stale, vec!["never", "ancient"]);
}
