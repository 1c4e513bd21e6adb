//! Routing counters, their report and the timers that feed them.

use zenoh_net::clock::as_micros;
use zenoh_net::clock::nanos_between;
use zenoh_net::clock::Clock;
use zenoh_net::clock::Reading;
use zenoh_net::diag_sites::CtrlLockSite;
use zenoh_net::diag_sites::InvalidationSource;
use zenoh_net::diag_sites::RepropagateKind;
use zenoh_net::diag_sites::RepropagateSubsStep;
use zenoh_net::diag_sites::WTableSite;
use zenoh_net::diag_timers::ComputeDataRouteTimer;
use zenoh_net::diag_timers::CtrlLockTimer;
use zenoh_net::diag_timers::RTableTimer;
use zenoh_net::diag_timers::WTableTimer;
use zenoh_net::diagnostics::record_max;
use zenoh_net::diagnostics::CloseFacePhases;
use zenoh_net::diagnostics::FlushLine;
use zenoh_net::diagnostics::MetricLine;
use zenoh_net::diagnostics::RoutingDiag;
use zenoh_net::diagnostics::RoutingLine;
use zenoh_net::diagnostics::TimingLine;
use zenoh_net::histogram::hist_bucket_for;
use zenoh_net::histogram::hist_drain;
use zenoh_net::histogram::hist_new;
use zenoh_net::histogram::hist_rank;
use zenoh_net::histogram::hist_record;
use zenoh_net::histogram::hist_total_fits;
use zenoh_net::histogram::BucketRank;
use zenoh_net::histogram::HIST_BUCKETS;
use zenoh_net::metric_text::decimal;
use zenoh_net::metric_text::Percentiles;

#[test]
fn wait_falls_into_the_bucket_of_its_bit_length() {
    assert_eq!(HIST_BUCKETS, 25);
    assert_eq!(hist_bucket_for(0), 0);
    assert_eq!(hist_bucket_for(1), 1);
    assert_eq!(hist_bucket_for(2), 2);
    assert_eq!(hist_bucket_for(3), 2);
    assert_eq!(hist_bucket_for(4), 3);
    assert_eq!(hist_bucket_for((1 << 23) - 1), 23);
    assert_eq!(hist_bucket_for(1 << 23), 24);
    assert_eq!(hist_bucket_for(1 << 40), 24);
    assert_eq!(hist_bucket_for(u64::MAX), 24);
}

#[test]
fn drained_histogram_is_empty() {
    let mut buckets = hist_new();
    for wait in [0, 5, 6, 100] {
        hist_record(&mut buckets, wait);
    }
    assert!(hist_total_fits(&buckets));
    let (snap, total) = hist_drain(&mut buckets);
    assert_eq!(total, 4);
    assert_eq!((snap[0], snap[3], snap[7]), (1, 2, 1));
    assert_eq!(buckets, hist_new());
}

#[test]
fn rank_is_found_in_its_bucket() {
    let mut buckets = hist_new();
    for wait in [0, 5, 6, 100] {
        hist_record(&mut buckets, wait);
    }
    assert_eq!(hist_rank(&buckets, 1), Some(BucketRank { lo: 0, hi: 1, rank: 1, count: 1 }));
    assert_eq!(hist_rank(&buckets, 2), Some(BucketRank { lo: 4, hi: 8, rank: 1, count: 2 }));
    assert_eq!(hist_rank(&buckets, 3), Some(BucketRank { lo: 4, hi: 8, rank: 2, count: 2 }));
    assert_eq!(hist_rank(&buckets, 4), Some(BucketRank { lo: 64, hi: 128, rank: 1, count: 1 }));
    assert_eq!(hist_rank(&buckets, 5), None);
}

#[test]
fn histogram_total_may_not_fit() {
    let mut buckets = hist_new();
    buckets[3] = u64::MAX;
    assert!(hist_total_fits(&buckets));
    buckets[4] = 1;
    assert!(!hist_total_fits(&buckets));
}

#[test]
fn maximum_only_grows() {
    let mut slot = 5;
    record_max(&mut slot, 3);
    assert_eq!(slot, 5);
    record_max(&mut slot, 9);
    assert_eq!(slot, 9);
}

#[test]
fn fresh_counters_report_nothing() {
    let mut diag = RoutingDiag::new();
    assert!(diag.is_reportable());
    assert!(diag.report().is_empty());
}

#[test]
fn routing_line_counts_caches_and_invalidations() {
    let mut diag = RoutingDiag::new();
    diag.record_disable_all_routes(InvalidationSource::DeclareFinal);
    diag.record_disable_all_routes(InvalidationSource::PeerInit);
    diag.record_disable_all_routes(InvalidationSource::PeerInit);
    diag.record_disable_all_routes(InvalidationSource::Other);
    diag.record_compute_data_route(10);
    diag.record_compute_data_route(21);
    diag.record_route_cache_hit();
    diag.record_route_cache_hit();
    diag.record_route_cache_hit();
    diag.record_route_cache_miss();
    let lines = diag.report();
    assert_eq!(lines.len(), 1);
    let MetricLine::Routing(line) = lines[0] else {
        panic!("a routing line");
    };
    assert_eq!(
        line,
        RoutingLine {
            disable_all_routes_declare_final: 1,
            disable_all_routes_peer_init: 2,
            disable_all_routes_other: 1,
            compute_data_route_count: 2,
            compute_data_route_avg_us: 15,
            compute_data_route_max_us: 21,
            route_cache_hit: 3,
            route_cache_miss: 1,
        }
    );
    assert!(diag.report().is_empty());
}

#[test]
fn lock_line_has_averages_and_histogram() {
    let mut diag = RoutingDiag::new();
    diag.record_wtables_wait(WTableSite::RegisterExpr, 10);
    diag.record_wtables_wait(WTableSite::RegisterExpr, 20);
    diag.record_wtables_hold(WTableSite::RegisterExpr, 7);
    diag.record_wtables_hold(WTableSite::RegisterExpr, 8);
    let lines = diag.report();
    assert_eq!(lines.len(), 1);
    let MetricLine::WTables(site, line) = lines[0] else {
        panic!("a line of the write lock");
    };
    assert_eq!(site, WTableSite::RegisterExpr);
    assert_eq!((line.count, line.wait_avg_us, line.wait_max_us), (2, 15, 20));
    assert_eq!((line.hold_avg_us, line.hold_max_us), (7, 8));
    assert_eq!(line.wait_hist_total, 2);
    assert_eq!((line.wait_hist[4], line.wait_hist[5]), (1, 1));
    assert!(diag.report().is_empty());
}

#[test]
fn flushes_are_reported_without_the_lock() {
    let mut diag = RoutingDiag::new();
    diag.record_wtables_flush(WTableSite::SendClose, 4, 100);
    diag.record_wtables_flush(WTableSite::SendClose, 7, 50);
    let lines = diag.report();
    assert_eq!(lines.len(), 1);
    let MetricLine::WTablesFlush(site, line) = lines[0] else {
        panic!("a line of flushes");
    };
    assert_eq!(site.name(), "send_close");
    assert_eq!(
        line,
        FlushLine {
            count: 2,
            elapsed_avg_us: 75,
            elapsed_max_us: 100,
            declares_avg: 5,
            declares_max: 7,
        }
    );
}

#[test]
fn lines_come_in_a_fixed_order() {
    let mut diag = RoutingDiag::new();
    diag.record_rtables_wait(1);
    diag.record_rtables_hold(2);
    diag.record_new_transport_unicast(3);
    diag.record_flush_declare(4);
    diag.record_repropagate_subs_step(RepropagateSubsStep::DeclKeyAndSend, 5);
    diag.record_repropagate(RepropagateKind::Tokens, 6);
    diag.record_ctrl_lock_wait(CtrlLockSite::Other, 7);
    diag.record_ctrl_lock_wait(CtrlLockSite::NewSession, 7);
    diag.record_ctrl_lock_hold(CtrlLockSite::NewSession, 9);
    diag.record_wtables_flush(WTableSite::PeerInit, 1, 8);
    diag.record_wtables_wait(WTableSite::PeerInit, 9);
    diag.record_route_cache_hit();
    let lines = diag.report();
    assert_eq!(lines.len(), 10);
    assert!(matches!(lines[0], MetricLine::Routing(_)));
    assert!(matches!(lines[1], MetricLine::WTables(WTableSite::PeerInit, _)));
    assert!(matches!(lines[2], MetricLine::WTablesFlush(WTableSite::PeerInit, _)));
    assert!(matches!(lines[3], MetricLine::CtrlLock(CtrlLockSite::NewSession, _)));
    assert!(matches!(lines[4], MetricLine::CtrlLock(CtrlLockSite::Other, _)));
    assert!(matches!(lines[5], MetricLine::Repropagate(RepropagateKind::Tokens, _)));
    assert!(matches!(
        lines[6],
        MetricLine::RepropagateSubsStep(RepropagateSubsStep::DeclKeyAndSend, _)
    ));
    let MetricLine::FlushDeclare(line) = lines[7] else {
        panic!("a line of declarations");
    };
    assert_eq!(line, TimingLine { count: 1, avg_us: 4, max_us: 4 });
    assert!(matches!(lines[8], MetricLine::NewTransportUnicast(_)));
    let MetricLine::RTables(line) = lines[9] else {
        panic!("a line of the read lock");
    };
    assert_eq!((line.wait_avg_us, line.hold_avg_us), (1, 2));
}

/// A hold without a wait is kept for the next report, except for the read lock.
#[test]
fn hold_alone_is_not_reported() {
    let mut diag = RoutingDiag::new();
    diag.record_wtables_hold(WTableSite::PeerInit, 30);
    diag.record_rtables_hold(30);
    assert!(diag.report().is_empty());
    diag.record_wtables_wait(WTableSite::PeerInit, 1);
    diag.record_rtables_wait(1);
    let lines = diag.report();
    let MetricLine::WTables(_, wtables) = lines[0] else {
        panic!("a line of the write lock");
    };
    assert_eq!(wtables.hold_max_us, 30);
    let MetricLine::RTables(rtables) = lines[1] else {
        panic!("a line of the read lock");
    };
    assert_eq!(rtables.hold_max_us, 0);
}

#[test]
fn unreportable_counters_are_noticed() {
    let mut diag = RoutingDiag::new();
    diag.ctrl_lock[2].wait_hist[0] = u64::MAX;
    diag.ctrl_lock[2].wait_hist[1] = 1;
    assert!(diag.is_reportable());
    diag.ctrl_lock[2].count = 1;
    assert!(!diag.is_reportable());
}

#[test]
fn sites_have_names() {
    assert_eq!(WTableSite::at(0).name(), "peer_init");
    assert_eq!(WTableSite::at(4).name(), "send_close");
    assert_eq!(CtrlLockSite::at(5).name(), "other");
    assert_eq!(RepropagateKind::at(4).name(), "disable_all_routes");
    assert_eq!(RepropagateSubsStep::at(0).name(), "contains_check");
    assert_eq!(WTableSite::InterestFinal.index(), 3);
}

#[test]
fn timers_count_waits_and_holds() {
    let mut diag = RoutingDiag::new();
    let mut timer = WTableTimer::new_at(&mut diag, WTableSite::PeerInit, 1_000, 11_999);
    assert_eq!(diag.wtables[0].wait_total_us, 10);
    timer.release_at(&mut diag, 31_999);
    assert_eq!(diag.wtables[0].hold_total_us, 20);
    timer.release_at(&mut diag, 99_999_999);
    assert_eq!(diag.wtables[0].hold_total_us, 20);

    let mut timer = CtrlLockTimer::new_at(&mut diag, CtrlLockSite::SendClose, 5_000, 1_000);
    assert_eq!((diag.ctrl_lock[4].count, diag.ctrl_lock[4].wait_total_us), (1, 0));
    timer.release_at(&mut diag, 4_000);
    timer.release_at(&mut diag, 9_000);
    assert_eq!(diag.ctrl_lock[4].hold_total_us, 3);

    ComputeDataRouteTimer::start_at(0).finish_at(&mut diag, 7_500);
    assert_eq!(diag.compute_data_route.total_us, 7);

    RTableTimer::start_at(0).finish_at(&mut diag, 7_500);
    assert_eq!(diag.rtables.hold_total_us, 0);
    let mut timer = RTableTimer::start_at(0);
    timer.acquire_at(&mut diag, 2_000);
    timer.finish_at(&mut diag, 7_500);
    assert_eq!((diag.rtables.wait_total_us, diag.rtables.hold_total_us), (2, 5));
}

#[test]
fn timers_read_the_clock() {
    let clock = Clock::new();
    let mut diag = RoutingDiag::new();
    let before = clock.now();
    let mut timer = WTableTimer::new(&mut diag, &clock, WTableSite::PeerInit, before);
    assert!(timer.acquired_at >= before);
    timer.release(&mut diag, &clock);
    let mut timer = CtrlLockTimer::new(&mut diag, &clock, CtrlLockSite::Other, before);
    timer.release(&mut diag, &clock);
    ComputeDataRouteTimer::start(&clock).finish(&mut diag, &clock);
    let mut timer = RTableTimer::start(&clock);
    timer.acquired(&mut diag, &clock);
    timer.finish(&mut diag, &clock);
    assert_eq!(diag.report().len(), 4);
}

#[test]
fn clock_looks_back() {
    let at = Reading { now: 50, reaches_back: true };
    assert_eq!(at.minus(20), 30);
    assert_eq!(at.minus(70), 0);
    let at = Reading { now: 50, reaches_back: false };
    assert_eq!(at.minus(20), 30);
    assert_eq!(at.minus(70), 50);
    assert_eq!(nanos_between(3, 10), 7);
    assert_eq!(nanos_between(10, 3), 0);
    assert_eq!(as_micros(1_999), 1);
    assert_eq!(as_micros(((1u128 << 64) + 5) * 1_000), 5);
    let clock = Clock::new();
    let first = clock.read(0);
    assert!(first.reaches_back);
    let mut later = clock.now();
    while later < first.now + 5_000 {
        assert!(later >= first.now);
        later = clock.now();
    }
}

#[test]
fn phases_add_up() {
    let mut phases = CloseFacePhases::default();
    assert_eq!(phases.total_us(), 0);
    phases.terminate_us = 1;
    phases.finalize_pending_queries_us = 20;
    phases.ctrl_lock_acquire_us = 300;
    phases.finalize_pending_interests_us = 4_000;
    phases.wtables_acquire_us = 50_000;
    phases.close_face_body_us = 600_000;
    phases.send_declares_us = 7_000_000;
    assert_eq!(phases.total_us(), 7_654_321);
}

#[test]
fn numbers_are_written_in_decimal() {
    for n in [0u128, 7, 10, 98, 1_000_203, u64::MAX as u128, u128::MAX] {
        assert_eq!(decimal(n), n.to_string());
    }
}

#[test]
fn lines_have_texts() {
    let p = Percentiles { p50: 1, p90: 2, p99: 3, p999: 4 };
    let mut diag = RoutingDiag::new();
    diag.record_route_cache_hit();
    diag.record_wtables_wait(WTableSite::DeclareFinal, 9);
    diag.record_wtables_hold(WTableSite::DeclareFinal, 5);
    diag.record_wtables_flush(WTableSite::DeclareFinal, 6, 7);
    diag.record_ctrl_lock_wait(CtrlLockSite::SendInterest, 9);
    diag.record_repropagate(RepropagateKind::Queryables, 8);
    diag.record_repropagate_subs_step(RepropagateSubsStep::ShouldNotifyCompute, 8);
    diag.record_flush_declare(11);
    diag.record_new_transport_unicast(12);
    diag.record_rtables_wait(13);
    let texts: Vec<String> = diag.report().iter().map(|line| line.text(42, 1000, &p)).collect();
    assert_eq!(
        texts,
        vec![
            "metric name=routing_diag pid=42 elapsed_ms=1000 \
             disable_all_routes_declare_final=0 disable_all_routes_peer_init=0 \
             disable_all_routes_other=0 compute_data_route_count=0 \
             compute_data_route_avg_us=0 compute_data_route_max_us=0 \
             route_cache_hit=1 route_cache_miss=0",
            "metric name=wtables_diag pid=42 elapsed_ms=1000 site=declare_final count=1 \
             acquire_wait_avg_us=9 acquire_wait_max_us=9 \
             acquire_wait_p50_us=1 acquire_wait_p90_us=2 \
             acquire_wait_p99_us=3 acquire_wait_p999_us=4 hold_avg_us=5 hold_max_us=5",
            "metric name=wtables_flush_diag pid=42 elapsed_ms=1000 site=declare_final count=1 \
             elapsed_avg_us=7 elapsed_max_us=7 declares_avg=6 declares_max=6",
            "metric name=ctrl_lock_diag pid=42 elapsed_ms=1000 site=send_interest count=1 \
             acquire_wait_avg_us=9 acquire_wait_max_us=9 \
             acquire_wait_p50_us=1 acquire_wait_p90_us=2 \
             acquire_wait_p99_us=3 acquire_wait_p999_us=4 hold_avg_us=0 hold_max_us=0",
            "metric name=repropagate_diag pid=42 elapsed_ms=1000 \
             kind=queryables count=1 avg_us=8 max_us=8",
            "metric name=repropagate_subs_step_diag pid=42 elapsed_ms=1000 \
             step=should_notify_compute count=1 avg_us=8 max_us=8",
            "metric name=flush_declare_diag pid=42 elapsed_ms=1000 count=1 avg_us=11 max_us=11",
            "metric name=new_transport_unicast_diag pid=42 elapsed_ms=1000 \
             count=1 avg_us=12 max_us=12",
            "metric name=rtables_diag pid=42 elapsed_ms=1000 count=1 \
             wait_avg_us=13 wait_max_us=13 wait_p50_us=1 wait_p90_us=2 \
             wait_p99_us=3 wait_p999_us=4 hold_avg_us=0 hold_max_us=0",
        ]
    );
}

#[test]
fn phases_have_a_text() {
    let mut phases = CloseFacePhases::default();
    phases.terminate_us = 1;
    phases.send_declares_us = 20;
    assert_eq!(
        phases.text(3),
        "metric name=close_diag face_id=3 terminate_us=1 finalize_pending_queries_us=0 \
         ctrl_lock_acquire_us=0 finalize_pending_interests_us=0 wtables_acquire_us=0 \
         close_face_body_us=0 send_declares_us=20 total_us=21"
    );
}

#[test]
fn order_of_recording_does_not_matter() {
    let mut one = RoutingDiag::new();
    let mut other = RoutingDiag::new();
    for us in [3, 900, 41] {
        one.record_flush_declare(us);
        one.record_wtables_flush(WTableSite::PeerInit, us / 2, us);
        one.record_rtables_wait(us);
    }
    for us in [41, 3, 900] {
        other.record_flush_declare(us);
        other.record_wtables_flush(WTableSite::PeerInit, us / 2, us);
        other.record_rtables_wait(us);
    }
    assert_eq!(one.flush_declare, other.flush_declare);
    assert_eq!(one.wtables_flush[0], other.wtables_flush[0]);
    assert_eq!(one.rtables.wait_hist, other.rtables.wait_hist);
    assert_eq!(one.flush_declare.max_us, 900);
    assert_eq!(one.flush_declare.total_us, 944);
}

/// Counters wrap.
#[test]
fn counters_wrap() {
    let mut diag = RoutingDiag::new();
    diag.route_cache_hit = u64::MAX;
    diag.record_route_cache_hit();
    assert_eq!(diag.route_cache_hit, 0);
    diag.flush_declare.total_us = u64::MAX;
    diag.record_flush_declare(3);
    assert_eq!(diag.flush_declare.total_us, 2);
}
