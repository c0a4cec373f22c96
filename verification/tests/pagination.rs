use bonusly::errors::ClientError;
use bonusly::paginator::{Pager, Step};
use bonusly::pulling::{fetch_page, pull_all, pull_first};

fn upstream_of(n: u64) -> Vec<u64> {
    let mut v: Vec<u64> = Vec::new();
    let mut i: u64 = 0;
    while i < n {
        v.push(i);
        i += 1;
    }
    v
}

/// Drive a pager over an in-memory upstream until `want` items came out
/// or the sequence ended; returns the items and the (skip, limit) of
/// every fetch that occurred.
fn drive(upstream: &Vec<u64>, page_size: usize, want: usize) -> (Vec<u64>, Vec<(usize, usize)>) {
    let mut pager: Pager<u64> = Pager::new(page_size).expect("positive page size");
    let mut items: Vec<u64> = Vec::new();
    let mut fetch_log: Vec<(usize, usize)> = Vec::new();
    while items.len() < want {
        match pager.next() {
            Step::Item(t) => items.push(t),
            Step::Fetch(skip, limit) => {
                fetch_log.push((skip, limit));
                let page = fetch_page(upstream, skip, limit);
                pager.supply_page(page);
            }
            Step::End => break,
            Step::Failed(_) => panic!("no failure was supplied"),
        }
    }
    (items, fetch_log)
}

#[test]
fn scenario_25_items_page_10() {
    // 25 upstream items, page size 10: the 25 items arrive over exactly
    // 3 fetches at skip 0, 10 and 20, with no 4th fetch triggered.
    let upstream = upstream_of(25);
    let (items, fetch_log) = drive(&upstream, 10, 25);
    assert_eq!(items, upstream);
    assert_eq!(fetch_log, vec![(0, 10), (10, 10), (20, 10)]);
}

#[test]
fn scenario_exactly_20_items_page_10() {
    // Exactly 20 upstream items: after 2 full pages a 3rd fetch at
    // skip=20 returns empty and the sequence ends with 20 items total.
    let upstream = upstream_of(20);
    let (items, fetch_log) = drive(&upstream, 10, usize::MAX);
    assert_eq!(items, upstream);
    assert_eq!(fetch_log, vec![(0, 10), (10, 10), (20, 10)]);
    assert_eq!(fetch_page(&upstream, 20, 10), Vec::<u64>::new());
}

#[test]
fn scenario_take_3_of_100() {
    // Taking only the first 3 items with page size 10 over 100 upstream
    // items costs exactly 1 fetch.
    let upstream = upstream_of(100);
    let (items, fetches) = pull_first(&upstream, 10, 3);
    assert_eq!(items, vec![0, 1, 2]);
    assert_eq!(fetches, 1);
}

#[test]
fn scenario_transport_failure_on_refill() {
    // The fetch at skip=10 fails with a transport timeout: the sequence
    // yields the 10 items already delivered, surfaces the failure once
    // on the next pull, then ends without any further fetch.
    let upstream = upstream_of(30);
    let mut pager: Pager<u64> = Pager::new(10).expect("positive page size");
    let mut items: Vec<u64> = Vec::new();
    let mut fetch_log: Vec<(usize, usize)> = Vec::new();
    let mut failure: Option<ClientError> = None;
    loop {
        match pager.next() {
            Step::Item(t) => items.push(t),
            Step::Fetch(skip, limit) => {
                fetch_log.push((skip, limit));
                if skip == 10 {
                    pager.supply_error(ClientError::Transport("timeout".to_string()));
                } else {
                    let page = fetch_page(&upstream, skip, limit);
                    pager.supply_page(page);
                }
            }
            Step::End => break,
            Step::Failed(e) => {
                failure = Some(e);
            }
        }
    }
    assert_eq!(items, upstream_of(10));
    assert_eq!(fetch_log, vec![(0, 10), (10, 10)]);
    assert!(matches!(failure, Some(ClientError::Transport(m)) if m == "timeout"));
}

#[test]
fn empty_collection_ends_after_one_fetch() {
    let upstream: Vec<u64> = Vec::new();
    let (items, fetches) = pull_all(&upstream, 10);
    assert_eq!(items, Vec::<u64>::new());
    assert_eq!(fetches, 1);
}

#[test]
fn full_drain_fetch_counts() {
    // Pulling to the reported end costs one fetch per non-empty page
    // plus the empty fetch that reveals the end.
    let (items, fetches) = pull_all(&upstream_of(25), 10);
    assert_eq!(items, upstream_of(25));
    assert_eq!(fetches, 4);
    let (items, fetches) = pull_all(&upstream_of(20), 10);
    assert_eq!(items, upstream_of(20));
    assert_eq!(fetches, 3);
    let (items, fetches) = pull_all(&upstream_of(1), 10);
    assert_eq!(items, vec![0]);
    assert_eq!(fetches, 2);
}

#[test]
fn partial_pull_fetch_counts() {
    // Stopping after k items costs exactly ceil(k / p) fetches.
    let upstream = upstream_of(100);
    assert_eq!(pull_first(&upstream, 10, 0).1, 0);
    assert_eq!(pull_first(&upstream, 10, 10).1, 1);
    assert_eq!(pull_first(&upstream, 10, 11).1, 2);
    assert_eq!(pull_first(&upstream, 10, 25).1, 3);
    assert_eq!(pull_first(&upstream, 10, 100).1, 10);
    assert_eq!(pull_first(&upstream, 7, 15).1, 3);
}

#[test]
fn pull_preserves_upstream_order() {
    let upstream = upstream_of(23);
    let (items, _) = pull_first(&upstream, 4, 23);
    assert_eq!(items, upstream);
}

#[test]
fn engine_carries_owned_items() {
    // The engine is generic; items need not be copyable.
    let mut pager: Pager<String> = Pager::new(2).expect("positive page size");
    let mut items: Vec<String> = Vec::new();
    loop {
        match pager.next() {
            Step::Item(t) => items.push(t),
            Step::Fetch(skip, _) => {
                if skip == 0 {
                    pager.supply_page(vec!["alpha".to_string(), "beta".to_string()]);
                } else {
                    pager.supply_page(Vec::new());
                }
            }
            Step::End => break,
            Step::Failed(_) => panic!("no failure was supplied"),
        }
    }
    assert_eq!(items, vec!["alpha".to_string(), "beta".to_string()]);
}

#[test]
fn page_size_zero_is_rejected() {
    let r: Result<Pager<u64>, ClientError> = Pager::new(0);
    assert!(
        matches!(r, Err(ClientError::Configuration(m)) if m == "page size must be at least 1")
    );
}

#[test]
fn short_pages_advance_by_received_count() {
    // A fetch may return fewer items than the limit; the next skip
    // advances by the count actually received, not by the page size.
    let upstream = upstream_of(5);
    let (items, fetch_log) = drive(&upstream, 10, usize::MAX);
    assert_eq!(items, upstream_of(5));
    assert_eq!(fetch_log, vec![(0, 10), (5, 10)]);
}
