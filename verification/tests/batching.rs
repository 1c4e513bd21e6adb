//! The queue of queryable propagations.

use std::sync::Arc;

use zenoh_net::clock::Reading;
use zenoh_net::queryable_batch::BatchConfig;
use zenoh_net::queryable_batch::PropagationType;
use zenoh_net::queryable_batch::QueryableBatchQueue;
use zenoh_net::queryable_batch::Resource;

const MS: u128 = 1_000_000;

fn resource(expr: &str) -> Arc<Resource> {
    Arc::new(Resource::new(expr.to_string()))
}

fn at(now: u128) -> Reading {
    Reading { now, reaches_back: true }
}

#[test]
fn default_configuration() {
    let config = BatchConfig::default();
    assert_eq!(config.high_load_interval, 100 * MS);
    assert_eq!(config.normal_interval, 10 * MS);
    assert_eq!(config.high_load_threshold, 50);
    assert_eq!(config.max_batch_size, 100);
    assert_eq!(config.rate_window, 1_000 * MS);
}

#[test]
fn empty_queue_is_never_due() {
    let queue = QueryableBatchQueue::with_default_config();
    assert!(!queue.should_flush());
    assert!(!queue.should_flush_at(u128::MAX, at(0)));
    assert_eq!(queue.current_flush_interval(), 10 * MS);
    assert_eq!(queue.calculate_rate(), 0);
    assert!(!queue.is_high_load());
}

#[test]
fn latest_operation_of_a_resource_is_taken() {
    let mut queue = QueryableBatchQueue::with_default_config();
    queue.enqueue_at(resource("a"), PropagationType::ForgetOnly, at(1));
    queue.enqueue_at(resource("b"), PropagationType::ForgetOnly, at(2));
    queue.enqueue_at(resource("a"), PropagationType::ForgetThenDeclare, at(3));
    let stats = queue.stats_at(at(3), at(3), at(3));
    assert_eq!((stats.pending, stats.rate, stats.total_enqueued), (2, 3, 3));
    assert_eq!((stats.high_load, stats.total_flushes), (false, 0));
    let mut entries = queue.take_pending_at(4);
    entries.sort_by_key(|e| e.resource.expr().to_string());
    assert_eq!(entries.len(), 2);
    assert_eq!(entries[0].resource.expr(), "a");
    assert_eq!(entries[0].operation, PropagationType::ForgetThenDeclare);
    assert_eq!(entries[0].enqueued_at, 3);
    assert_eq!(entries[1].resource.expr(), "b");
    assert_eq!(entries[1].operation, PropagationType::ForgetOnly);
    assert!(queue.take_pending_at(5).is_empty());
    assert_eq!(queue.stats_at(at(5), at(5), at(5)).total_flushes, 2);
}

#[test]
fn batch_is_due_after_the_interval() {
    let mut queue = QueryableBatchQueue::with_default_config();
    queue.take_pending_at(0);
    queue.enqueue_at(resource("a"), PropagationType::ForgetOnly, at(1));
    assert!(!queue.should_flush_at(10 * MS - 1, at(1)));
    assert!(queue.should_flush_at(10 * MS, at(1)));
    queue.take_pending_at(10 * MS);
    assert!(!queue.should_flush_at(100 * MS, at(1)));
}

#[test]
fn high_load_lengthens_the_interval() {
    let mut queue = QueryableBatchQueue::with_default_config();
    queue.take_pending_at(0);
    for i in 0..50u128 {
        queue.enqueue_at(resource("a"), PropagationType::ForgetOnly, at(i));
    }
    assert!(!queue.is_high_load_at(at(50)));
    queue.enqueue_at(resource("a"), PropagationType::ForgetOnly, at(50));
    assert_eq!(queue.rate_at(at(50)), 51);
    assert!(queue.is_high_load_at(at(50)));
    assert_eq!(queue.current_flush_interval_at(at(50)), 100 * MS);
    assert!(!queue.should_flush_at(99 * MS, at(50)));
    assert!(queue.should_flush_at(100 * MS, at(50)));
    assert_eq!(queue.rate_at(at(1_000 * MS + 40)), 11);
    assert_eq!(queue.current_flush_interval_at(at(1_000 * MS + 40)), 10 * MS);
}

#[test]
fn full_batch_is_due_at_once() {
    let mut config = BatchConfig::default();
    config.max_batch_size = 2;
    let mut queue = QueryableBatchQueue::new(config);
    queue.take_pending_at(0);
    queue.enqueue_at(resource("a"), PropagationType::ForgetOnly, at(0));
    queue.enqueue_at(resource("a"), PropagationType::ForgetOnly, at(0));
    assert!(!queue.should_flush_at(0, at(0)));
    queue.enqueue_at(resource("b"), PropagationType::ForgetOnly, at(0));
    assert!(queue.should_flush_at(0, at(0)));
}

#[test]
fn events_before_the_window_are_forgotten() {
    let mut config = BatchConfig::default();
    config.rate_window = 100;
    let mut queue = QueryableBatchQueue::new(config);
    queue.enqueue_at(resource("a"), PropagationType::ForgetOnly, at(10));
    queue.enqueue_at(resource("a"), PropagationType::ForgetOnly, at(110));
    assert_eq!(queue.rate_at(at(110)), 20_000_000);
    queue.enqueue_at(resource("a"), PropagationType::ForgetOnly, at(111));
    assert_eq!(queue.rate_at(at(110)), 20_000_000);
    assert_eq!(queue.rate_at(at(111)), 20_000_000);
}

/// The rate is in events per second, whatever the window.
#[test]
fn rate_is_per_second() {
    let mut config = BatchConfig::default();
    config.rate_window = 2_000 * MS;
    config.high_load_threshold = 4;
    let mut queue = QueryableBatchQueue::new(config);
    for i in 0..10u128 {
        queue.enqueue_at(resource("a"), PropagationType::ForgetOnly, at(i));
    }
    assert_eq!(queue.rate_at(at(10)), 5);
    assert_eq!(queue.calculate_rate(), 5);
    assert!(queue.is_high_load_at(at(10)));
    assert_eq!(queue.stats_at(at(10), at(10), at(10)).rate, 5);
    assert_eq!(queue.rate_at(at(2_000 * MS + 1)), 4);
    assert!(!queue.is_high_load_at(at(2_000 * MS + 1)));

    config.rate_window = 500 * MS;
    let mut queue = QueryableBatchQueue::new(config);
    queue.enqueue_at(resource("a"), PropagationType::ForgetOnly, at(1));
    assert_eq!(queue.rate_at(at(1)), 2);

    config.rate_window = 0;
    let mut queue = QueryableBatchQueue::new(config);
    queue.enqueue_at(resource("a"), PropagationType::ForgetOnly, at(7));
    queue.enqueue_at(resource("b"), PropagationType::ForgetOnly, at(7));
    assert_eq!(queue.rate_at(at(7)), 2);
    assert_eq!(queue.rate_at(at(8)), 0);
}

/// As the load falls, the interval shortens, and a batch that is due stays due.
#[test]
fn falling_load_keeps_a_batch_due() {
    let mut queue = QueryableBatchQueue::with_default_config();
    queue.take_pending_at(0);
    for i in 0..60u128 {
        queue.enqueue_at(resource("a"), PropagationType::ForgetOnly, at(i));
    }
    assert!(queue.should_flush_at(100 * MS, at(100 * MS)));
    assert!(queue.should_flush_at(100 * MS, at(1_000 * MS + 30)));
    assert!(queue.should_flush_at(3_000 * MS, at(3_000 * MS)));
}

/// A window that the clock cannot represent holds only the present.
#[test]
fn window_beyond_the_clock_is_empty() {
    let mut queue = QueryableBatchQueue::with_default_config();
    queue.enqueue_at(resource("a"), PropagationType::ForgetOnly, at(5));
    queue.enqueue_at(
        resource("a"),
        PropagationType::ForgetOnly,
        Reading { now: 7, reaches_back: false },
    );
    assert_eq!(queue.rate_at(at(7)), 1);
}

#[test]
fn queue_reads_the_clock() {
    let mut config = BatchConfig::default();
    config.normal_interval = 0;
    let mut queue = QueryableBatchQueue::new(config);
    queue.enqueue(resource("a"), PropagationType::ForgetOnly);
    queue.enqueue(resource("b"), PropagationType::ForgetThenDeclare);
    assert!(queue.should_flush());
    let stats = queue.stats();
    assert_eq!((stats.pending, stats.rate, stats.total_enqueued), (2, 2, 2));
    assert_eq!(stats.current_interval, 0);
    let entries = queue.take_pending();
    assert_eq!(entries.len(), 2);
    assert!(!queue.should_flush());
}

#[test]
fn order_of_different_resources_does_not_matter() {
    let taken = |order: [&str; 2]| {
        let mut queue = QueryableBatchQueue::with_default_config();
        for expr in order {
            queue.enqueue_at(resource(expr), PropagationType::ForgetOnly, at(1));
        }
        let mut exprs: Vec<String> =
            queue.take_pending_at(2).iter().map(|e| e.resource.expr().to_string()).collect();
        exprs.sort();
        exprs
    };
    assert_eq!(taken(["a", "b"]), taken(["b", "a"]));
}

#[test]
fn due_batch_stays_due() {
    let mut queue = QueryableBatchQueue::with_default_config();
    queue.take_pending_at(0);
    queue.enqueue_at(resource("a"), PropagationType::ForgetOnly, at(1));
    for now in [10 * MS, 11 * MS, 5_000 * MS, u128::MAX] {
        assert!(queue.should_flush_at(now, at(1)));
    }
}
