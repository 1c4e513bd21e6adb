//! Runtime counters that attribute routing performance issues.
//!
//! Counters only grow, wrapping like relaxed atomics, until a report drains them. A report is the
//! list of metric lines to print for one period.

use vstd::prelude::*;

use crate::diag_sites::CtrlLockSite;
use crate::diag_sites::InvalidationSource;
use crate::diag_sites::RepropagateKind;
use crate::diag_sites::RepropagateSubsStep;
use crate::diag_sites::WTableSite;
use crate::diag_sites::CL_SITE_COUNT;
use crate::diag_sites::RPS_STEP_COUNT;
use crate::diag_sites::RP_KIND_COUNT;
use crate::diag_sites::WT_SITE_COUNT;
use crate::histogram::hist_drain;
#[allow(unused_imports)]
use crate::histogram::bucket_of;
#[allow(unused_imports)]
use crate::histogram::bucket_range_holds_wait;
#[allow(unused_imports)]
use crate::histogram::bucket_within_all;
#[allow(unused_imports)]
use crate::histogram::counted_all;
#[allow(unused_imports)]
use crate::histogram::hist_empty;
use crate::histogram::hist_new;
use crate::histogram::hist_record;
#[allow(unused_imports)]
use crate::histogram::hist_recorded;
#[allow(unused_imports)]
use crate::histogram::recording_adds_one;
use crate::histogram::HIST_BUCKETS;

verus! {

/// The larger of two values.
pub open spec fn max_us(a: u64, b: u64) -> u64 {
    if a < b {
        b
    } else {
        a
    }
}

/// Raises a maximum to `new_value`, if that is larger.
pub fn record_max(slot: &mut u64, new_value: u64)
    ensures
        *final(slot) == max_us(*old(slot), new_value),
{
    if new_value > *slot {
        *slot = new_value;
    }
}

/// Number, total and maximum of the durations of some operation.
#[derive(Clone, Copy, PartialEq, Eq, Structural, Debug)]
pub struct Timing {
    pub count: u64,
    pub total_us: u64,
    pub max_us: u64,
}

impl Timing {
    pub open spec fn zero() -> Timing {
        Timing { count: 0, total_us: 0, max_us: 0 }
    }

    /// One more operation of `elapsed_us` microseconds.
    pub open spec fn recorded(self, elapsed_us: u64) -> Timing {
        Timing {
            count: self.count.wrapping_add(1),
            total_us: self.total_us.wrapping_add(elapsed_us),
            max_us: max_us(self.max_us, elapsed_us),
        }
    }

    /// What a report leaves: nothing, if there was something to report.
    pub open spec fn drained(self) -> Timing {
        if self.count == 0 {
            self
        } else {
            Timing::zero()
        }
    }

    /// The average duration.
    pub open spec fn avg_us(self) -> u64 {
        if self.count == 0 {
            0
        } else {
            self.total_us / self.count
        }
    }

    pub(crate) fn new() -> (t: Self)
        ensures
            t == Timing::zero(),
    {
        Timing { count: 0, total_us: 0, max_us: 0 }
    }

    fn record(&mut self, elapsed_us: u64)
        ensures
            *final(self) == old(self).recorded(elapsed_us),
    {
        self.count = self.count.wrapping_add(1);
        self.total_us = self.total_us.wrapping_add(elapsed_us);
        record_max(&mut self.max_us, elapsed_us);
    }

    /// The reported figures.
    pub open spec fn figures(self) -> TimingLine {
        TimingLine { count: self.count, avg_us: self.avg_us(), max_us: self.max_us }
    }

    /// Empties the counters and returns their figures, if there was an operation.
    pub(crate) fn drain(&mut self) -> (line: Option<TimingLine>)
        ensures
            *final(self) == old(self).drained(),
            line == if old(self).count == 0 {
                None
            } else {
                Some(old(self).figures())
            },
    {
        if self.count == 0 {
            return None;
        }
        let line = TimingLine {
            count: self.count,
            avg_us: self.total_us / self.count,
            max_us: self.max_us,
        };
        *self = Timing::new();
        Some(line)
    }
}

/// Acquisitions of a lock: how long each was waited for and how long the lock was held.
#[derive(Clone, Copy, Debug)]
pub struct LockCounters {
    pub count: u64,
    pub wait_total_us: u64,
    pub wait_max_us: u64,
    pub wait_hist: [u64; HIST_BUCKETS],
    pub hold_total_us: u64,
    pub hold_max_us: u64,
}

impl LockCounters {
    /// One more acquisition, waited for during `wait_us` microseconds.
    pub open spec fn waited(self, wait_us: u64, after: LockCounters) -> bool {
        &&& after.count == self.count.wrapping_add(1)
        &&& after.wait_total_us == self.wait_total_us.wrapping_add(wait_us)
        &&& after.wait_max_us == max_us(self.wait_max_us, wait_us)
        &&& after.wait_hist@ == hist_recorded(self.wait_hist@, wait_us)
        &&& after.hold_total_us == self.hold_total_us
        &&& after.hold_max_us == self.hold_max_us
    }

    /// One release, after the lock was held during `hold_us` microseconds.
    pub open spec fn held(self, hold_us: u64) -> LockCounters {
        LockCounters {
            hold_total_us: self.hold_total_us.wrapping_add(hold_us),
            hold_max_us: max_us(self.hold_max_us, hold_us),
            ..self
        }
    }

    /// No acquisition at all.
    pub open spec fn is_zero(self) -> bool {
        &&& self.count == 0
        &&& self.wait_total_us == 0
        &&& self.wait_max_us == 0
        &&& hist_empty(self.wait_hist@)
        &&& self.hold_total_us == 0
        &&& self.hold_max_us == 0
    }

    /// What a report leaves: nothing, if there was an acquisition to report.
    pub open spec fn drained(self, after: LockCounters) -> bool {
        if self.count == 0 {
            after == self
        } else {
            after.is_zero()
        }
    }

    /// The number of waits in the histogram can be reported.
    pub open spec fn hist_fits(self) -> bool {
        counted_all(self.wait_hist@) <= u64::MAX
    }

    /// The reported figures.
    pub open spec fn figures(self) -> LockLine {
        LockLine {
            count: self.count,
            wait_avg_us: self.wait_total_us / self.count,
            wait_max_us: self.wait_max_us,
            wait_hist: self.wait_hist,
            wait_hist_total: counted_all(self.wait_hist@) as u64,
            hold_avg_us: self.hold_total_us / self.count,
            hold_max_us: self.hold_max_us,
        }
    }

    pub(crate) fn new() -> (c: Self)
        ensures
            c.is_zero(),
    {
        LockCounters {
            count: 0,
            wait_total_us: 0,
            wait_max_us: 0,
            wait_hist: hist_new(),
            hold_total_us: 0,
            hold_max_us: 0,
        }
    }

    fn record_wait(&mut self, wait_us: u64)
        ensures
            old(self).waited(wait_us, *final(self)),
    {
        self.count = self.count.wrapping_add(1);
        self.wait_total_us = self.wait_total_us.wrapping_add(wait_us);
        record_max(&mut self.wait_max_us, wait_us);
        hist_record(&mut self.wait_hist, wait_us);
    }

    fn record_hold(&mut self, hold_us: u64)
        ensures
            *final(self) == old(self).held(hold_us),
    {
        self.hold_total_us = self.hold_total_us.wrapping_add(hold_us);
        record_max(&mut self.hold_max_us, hold_us);
    }

    /// Empties the counters and returns their figures, if there was an acquisition.
    pub(crate) fn drain(&mut self) -> (line: Option<LockLine>)
        requires
            old(self).count != 0 ==> old(self).hist_fits(),
        ensures
            old(self).drained(*final(self)),
            line == if old(self).count == 0 {
                None
            } else {
                Some(old(self).figures())
            },
    {
        if self.count == 0 {
            return None;
        }
        let (hist, total) = hist_drain(&mut self.wait_hist);
        let line = LockLine {
            count: self.count,
            wait_avg_us: self.wait_total_us / self.count,
            wait_max_us: self.wait_max_us,
            wait_hist: hist,
            wait_hist_total: total,
            hold_avg_us: self.hold_total_us / self.count,
            hold_max_us: self.hold_max_us,
        };
        self.count = 0;
        self.wait_total_us = 0;
        self.wait_max_us = 0;
        self.hold_total_us = 0;
        self.hold_max_us = 0;
        Some(line)
    }
}

/// Flushes of deferred declarations after a lock was released.
#[derive(Clone, Copy, PartialEq, Eq, Structural, Debug)]
pub struct FlushCounters {
    pub count: u64,
    pub total_us: u64,
    pub max_us: u64,
    pub declares_total: u64,
    pub declares_max: u64,
}

impl FlushCounters {
    pub open spec fn zero() -> FlushCounters {
        FlushCounters { count: 0, total_us: 0, max_us: 0, declares_total: 0, declares_max: 0 }
    }

    /// One more flush, of `declares` declarations in `elapsed_us` microseconds.
    pub open spec fn recorded(self, declares: u64, elapsed_us: u64) -> FlushCounters {
        FlushCounters {
            count: self.count.wrapping_add(1),
            total_us: self.total_us.wrapping_add(elapsed_us),
            max_us: max_us(self.max_us, elapsed_us),
            declares_total: self.declares_total.wrapping_add(declares),
            declares_max: max_us(self.declares_max, declares),
        }
    }

    /// What a report leaves: nothing, if there was a flush to report.
    pub open spec fn drained(self) -> FlushCounters {
        if self.count == 0 {
            self
        } else {
            FlushCounters::zero()
        }
    }

    /// The reported figures.
    pub open spec fn figures(self) -> FlushLine {
        FlushLine {
            count: self.count,
            elapsed_avg_us: self.total_us / self.count,
            elapsed_max_us: self.max_us,
            declares_avg: self.declares_total / self.count,
            declares_max: self.declares_max,
        }
    }

    pub(crate) fn new() -> (c: Self)
        ensures
            c == FlushCounters::zero(),
    {
        FlushCounters { count: 0, total_us: 0, max_us: 0, declares_total: 0, declares_max: 0 }
    }

    fn record(&mut self, declares: u64, elapsed_us: u64)
        ensures
            *final(self) == old(self).recorded(declares, elapsed_us),
    {
        self.count = self.count.wrapping_add(1);
        self.total_us = self.total_us.wrapping_add(elapsed_us);
        record_max(&mut self.max_us, elapsed_us);
        self.declares_total = self.declares_total.wrapping_add(declares);
        record_max(&mut self.declares_max, declares);
    }

    /// Empties the counters and returns their figures, if there was a flush.
    pub(crate) fn drain(&mut self) -> (line: Option<FlushLine>)
        ensures
            *final(self) == old(self).drained(),
            line == if old(self).count == 0 {
                None
            } else {
                Some(old(self).figures())
            },
    {
        if self.count == 0 {
            return None;
        }
        let line = FlushLine {
            count: self.count,
            elapsed_avg_us: self.total_us / self.count,
            elapsed_max_us: self.max_us,
            declares_avg: self.declares_total / self.count,
            declares_max: self.declares_max,
        };
        *self = FlushCounters::new();
        Some(line)
    }
}

/// Figures of an operation.
#[derive(Clone, Copy, PartialEq, Eq, Structural, Debug)]
pub struct TimingLine {
    pub count: u64,
    pub avg_us: u64,
    pub max_us: u64,
}

/// Figures of a lock. The percentiles of the wait are those of the histogram.
#[derive(Clone, Copy, Debug)]
pub struct LockLine {
    pub count: u64,
    pub wait_avg_us: u64,
    pub wait_max_us: u64,
    pub wait_hist: [u64; HIST_BUCKETS],
    pub wait_hist_total: u64,
    pub hold_avg_us: u64,
    pub hold_max_us: u64,
}

/// Figures of the flushes at a site.
#[derive(Clone, Copy, PartialEq, Eq, Structural, Debug)]
pub struct FlushLine {
    pub count: u64,
    pub elapsed_avg_us: u64,
    pub elapsed_max_us: u64,
    pub declares_avg: u64,
    pub declares_max: u64,
}

/// Figures of the route caches.
#[derive(Clone, Copy, PartialEq, Eq, Structural, Debug)]
pub struct RoutingLine {
    pub disable_all_routes_declare_final: u64,
    pub disable_all_routes_peer_init: u64,
    pub disable_all_routes_other: u64,
    pub compute_data_route_count: u64,
    pub compute_data_route_avg_us: u64,
    pub compute_data_route_max_us: u64,
    pub route_cache_hit: u64,
    pub route_cache_miss: u64,
}

/// A line of a report.
#[derive(Clone, Copy, Debug)]
pub enum MetricLine {
    Routing(RoutingLine),
    WTables(WTableSite, LockLine),
    WTablesFlush(WTableSite, FlushLine),
    CtrlLock(CtrlLockSite, LockLine),
    Repropagate(RepropagateKind, TimingLine),
    RepropagateSubsStep(RepropagateSubsStep, TimingLine),
    FlushDeclare(TimingLine),
    NewTransportUnicast(TimingLine),
    RTables(LockLine),
}

/// All routing counters.
#[derive(Clone, Copy, Debug)]
pub struct RoutingDiag {
    pub disable_all_routes_declare_final: u64,
    pub disable_all_routes_peer_init: u64,
    pub disable_all_routes_other: u64,
    pub compute_data_route: Timing,
    pub route_cache_hit: u64,
    pub route_cache_miss: u64,
    pub wtables: [LockCounters; WT_SITE_COUNT],
    pub wtables_flush: [FlushCounters; WT_SITE_COUNT],
    pub ctrl_lock: [LockCounters; CL_SITE_COUNT],
    pub repropagate: [Timing; RP_KIND_COUNT],
    pub repropagate_subs_step: [Timing; RPS_STEP_COUNT],
    pub flush_declare: Timing,
    pub new_transport_unicast: Timing,
    pub rtables: LockCounters,
}

impl RoutingDiag {
    /// Nothing recorded.
    pub open spec fn is_zero(self) -> bool {
        &&& self.disable_all_routes_declare_final == 0
        &&& self.disable_all_routes_peer_init == 0
        &&& self.disable_all_routes_other == 0
        &&& self.compute_data_route == Timing::zero()
        &&& self.route_cache_hit == 0
        &&& self.route_cache_miss == 0
        &&& forall|i: int| 0 <= i < WT_SITE_COUNT ==> (#[trigger] self.wtables@[i]).is_zero()
        &&& forall|i: int|
            0 <= i < WT_SITE_COUNT ==> #[trigger] self.wtables_flush@[i] == FlushCounters::zero()
        &&& forall|i: int| 0 <= i < CL_SITE_COUNT ==> (#[trigger] self.ctrl_lock@[i]).is_zero()
        &&& forall|i: int|
            0 <= i < RP_KIND_COUNT ==> #[trigger] self.repropagate@[i] == Timing::zero()
        &&& forall|i: int|
            0 <= i < RPS_STEP_COUNT ==> #[trigger] self.repropagate_subs_step@[i] == Timing::zero()
        &&& self.flush_declare == Timing::zero()
        &&& self.new_transport_unicast == Timing::zero()
        &&& self.rtables.is_zero()
    }

    /// Counters of a process that has recorded nothing.
    pub fn new() -> (diag: Self)
        ensures
            diag.is_zero(),
    {
        let lock = LockCounters::new();
        let flush = FlushCounters::new();
        let timing = Timing::new();
        RoutingDiag {
            disable_all_routes_declare_final: 0,
            disable_all_routes_peer_init: 0,
            disable_all_routes_other: 0,
            compute_data_route: timing,
            route_cache_hit: 0,
            route_cache_miss: 0,
            wtables: [lock; WT_SITE_COUNT],
            wtables_flush: [flush; WT_SITE_COUNT],
            ctrl_lock: [lock; CL_SITE_COUNT],
            repropagate: [timing; RP_KIND_COUNT],
            repropagate_subs_step: [timing; RPS_STEP_COUNT],
            flush_declare: timing,
            new_transport_unicast: timing,
            rtables: lock,
        }
    }

    /// Counts an invalidation of all routes.
    pub fn record_disable_all_routes(&mut self, source: InvalidationSource)
        ensures
            *final(self) == match source {
                InvalidationSource::DeclareFinal => RoutingDiag {
                    disable_all_routes_declare_final: old(
                        self,
                    ).disable_all_routes_declare_final.wrapping_add(1),
                    ..*old(self)
                },
                InvalidationSource::PeerInit => RoutingDiag {
                    disable_all_routes_peer_init: old(
                        self,
                    ).disable_all_routes_peer_init.wrapping_add(1),
                    ..*old(self)
                },
                InvalidationSource::Other => RoutingDiag {
                    disable_all_routes_other: old(self).disable_all_routes_other.wrapping_add(1),
                    ..*old(self)
                },
            },
    {
        match source {
            InvalidationSource::DeclareFinal => {
                self.disable_all_routes_declare_final =
                self.disable_all_routes_declare_final.wrapping_add(1);
            },
            InvalidationSource::PeerInit => {
                self.disable_all_routes_peer_init =
                self.disable_all_routes_peer_init.wrapping_add(1);
            },
            InvalidationSource::Other => {
                self.disable_all_routes_other = self.disable_all_routes_other.wrapping_add(1);
            },
        }
    }

    /// Times a computation of a data route.
    pub fn record_compute_data_route(&mut self, elapsed_us: u64)
        ensures
            *final(self) == (RoutingDiag {
                compute_data_route: old(self).compute_data_route.recorded(elapsed_us),
                ..*old(self)
            }),
    {
        self.compute_data_route.record(elapsed_us);
    }

    /// Counts a hit of a route cache.
    pub fn record_route_cache_hit(&mut self)
        ensures
            *final(self) == (RoutingDiag {
                route_cache_hit: old(self).route_cache_hit.wrapping_add(1),
                ..*old(self)
            }),
    {
        self.route_cache_hit = self.route_cache_hit.wrapping_add(1);
    }

    /// Counts a miss of a route cache.
    pub fn record_route_cache_miss(&mut self)
        ensures
            *final(self) == (RoutingDiag {
                route_cache_miss: old(self).route_cache_miss.wrapping_add(1),
                ..*old(self)
            }),
    {
        self.route_cache_miss = self.route_cache_miss.wrapping_add(1);
    }

    /// Times a repeated propagation.
    pub fn record_repropagate(&mut self, kind: RepropagateKind, elapsed_us: u64)
        ensures
            *final(self) == (RoutingDiag { repropagate: final(self).repropagate, ..*old(self) }),
            final(self).repropagate@ == old(self).repropagate@.update(
                kind.ordinal(),
                old(self).repropagate@[kind.ordinal()].recorded(elapsed_us),
            ),
    {
        let i: usize = kind.index();
        let mut timing = self.repropagate[i];
        timing.record(elapsed_us);
        self.repropagate[i] = timing;
    }

    /// Times a step of propagating subscribers again.
    pub fn record_repropagate_subs_step(&mut self, step: RepropagateSubsStep, elapsed_us: u64)
        ensures
            *final(self) == (RoutingDiag {
                repropagate_subs_step: final(self).repropagate_subs_step,
                ..*old(self)
            }),
            final(self).repropagate_subs_step@ == old(self).repropagate_subs_step@.update(
                step.ordinal(),
                old(self).repropagate_subs_step@[step.ordinal()].recorded(elapsed_us),
            ),
    {
        let i: usize = step.index();
        let mut timing = self.repropagate_subs_step[i];
        timing.record(elapsed_us);
        self.repropagate_subs_step[i] = timing;
    }

    /// Times the sending of one deferred declaration.
    pub fn record_flush_declare(&mut self, elapsed_us: u64)
        ensures
            *final(self) == (RoutingDiag {
                flush_declare: old(self).flush_declare.recorded(elapsed_us),
                ..*old(self)
            }),
    {
        self.flush_declare.record(elapsed_us);
    }

    /// Times the set-up of a unicast transport, as its caller sees it.
    pub fn record_new_transport_unicast(&mut self, elapsed_us: u64)
        ensures
            *final(self) == (RoutingDiag {
                new_transport_unicast: old(self).new_transport_unicast.recorded(elapsed_us),
                ..*old(self)
            }),
    {
        self.new_transport_unicast.record(elapsed_us);
    }

    /// Times the flush of the declarations that were deferred until the lock was released.
    pub fn record_wtables_flush(&mut self, site: WTableSite, declares: u64, elapsed_us: u64)
        ensures
            *final(self) == (RoutingDiag { wtables_flush: final(self).wtables_flush, ..*old(self) }),
            final(self).wtables_flush@ == old(self).wtables_flush@.update(
                site.ordinal(),
                old(self).wtables_flush@[site.ordinal()].recorded(declares, elapsed_us),
            ),
    {
        let i: usize = site.index();
        let mut flush = self.wtables_flush[i];
        flush.record(declares, elapsed_us);
        self.wtables_flush[i] = flush;
    }

    /// Counts an acquisition of the write lock on the tables.
    pub fn record_wtables_wait(&mut self, site: WTableSite, wait_us: u64)
        ensures
            *final(self) == (RoutingDiag { wtables: final(self).wtables, ..*old(self) }),
            final(self).wtables@ == old(self).wtables@.update(
                site.ordinal(),
                final(self).wtables@[site.ordinal()],
            ),
            old(self).wtables@[site.ordinal()].waited(
                wait_us,
                final(self).wtables@[site.ordinal()],
            ),
    {
        let i: usize = site.index();
        let mut lock = self.wtables[i];
        lock.record_wait(wait_us);
        self.wtables[i] = lock;
    }

    /// Counts a release of the write lock on the tables.
    pub fn record_wtables_hold(&mut self, site: WTableSite, hold_us: u64)
        ensures
            *final(self) == (RoutingDiag { wtables: final(self).wtables, ..*old(self) }),
            final(self).wtables@ == old(self).wtables@.update(
                site.ordinal(),
                old(self).wtables@[site.ordinal()].held(hold_us),
            ),
    {
        let i: usize = site.index();
        let mut lock = self.wtables[i];
        lock.record_hold(hold_us);
        self.wtables[i] = lock;
    }

    /// Counts an acquisition of the control lock.
    pub fn record_ctrl_lock_wait(&mut self, site: CtrlLockSite, wait_us: u64)
        ensures
            *final(self) == (RoutingDiag { ctrl_lock: final(self).ctrl_lock, ..*old(self) }),
            final(self).ctrl_lock@ == old(self).ctrl_lock@.update(
                site.ordinal(),
                final(self).ctrl_lock@[site.ordinal()],
            ),
            old(self).ctrl_lock@[site.ordinal()].waited(
                wait_us,
                final(self).ctrl_lock@[site.ordinal()],
            ),
    {
        let i: usize = site.index();
        let mut lock = self.ctrl_lock[i];
        lock.record_wait(wait_us);
        self.ctrl_lock[i] = lock;
    }

    /// Counts a release of the control lock.
    pub fn record_ctrl_lock_hold(&mut self, site: CtrlLockSite, hold_us: u64)
        ensures
            *final(self) == (RoutingDiag { ctrl_lock: final(self).ctrl_lock, ..*old(self) }),
            final(self).ctrl_lock@ == old(self).ctrl_lock@.update(
                site.ordinal(),
                old(self).ctrl_lock@[site.ordinal()].held(hold_us),
            ),
    {
        let i: usize = site.index();
        let mut lock = self.ctrl_lock[i];
        lock.record_hold(hold_us);
        self.ctrl_lock[i] = lock;
    }

    /// Counts an acquisition of the read lock on the tables.
    pub fn record_rtables_wait(&mut self, wait_us: u64)
        ensures
            *final(self) == (RoutingDiag { rtables: final(self).rtables, ..*old(self) }),
            old(self).rtables.waited(wait_us, final(self).rtables),
    {
        self.rtables.record_wait(wait_us);
    }

    /// Counts the end of an operation that held the read lock on the tables.
    pub fn record_rtables_hold(&mut self, hold_us: u64)
        ensures
            *final(self) == (RoutingDiag {
                rtables: old(self).rtables.held(hold_us),
                ..*old(self)
            }),
    {
        self.rtables.record_hold(hold_us);
    }
}

/// Durations of the phases of closing a face.
#[derive(Clone, Copy, PartialEq, Eq, Structural, Debug)]
pub struct CloseFacePhases {
    pub terminate_us: u64,
    pub finalize_pending_queries_us: u64,
    pub ctrl_lock_acquire_us: u64,
    pub finalize_pending_interests_us: u64,
    pub wtables_acquire_us: u64,
    pub close_face_body_us: u64,
    pub send_declares_us: u64,
}

impl Default for CloseFacePhases {
    fn default() -> (phases: Self)
        ensures
            phases == (CloseFacePhases {
                terminate_us: 0,
                finalize_pending_queries_us: 0,
                ctrl_lock_acquire_us: 0,
                finalize_pending_interests_us: 0,
                wtables_acquire_us: 0,
                close_face_body_us: 0,
                send_declares_us: 0,
            }),
    {
        CloseFacePhases {
            terminate_us: 0,
            finalize_pending_queries_us: 0,
            ctrl_lock_acquire_us: 0,
            finalize_pending_interests_us: 0,
            wtables_acquire_us: 0,
            close_face_body_us: 0,
            send_declares_us: 0,
        }
    }
}

impl CloseFacePhases {
    /// The sum of all phases.
    pub open spec fn sum_us(self) -> int {
        self.terminate_us + self.finalize_pending_queries_us + self.ctrl_lock_acquire_us
            + self.finalize_pending_interests_us + self.wtables_acquire_us
            + self.close_face_body_us + self.send_declares_us
    }

    /// The duration of closing the face.
    pub fn total_us(&self) -> (total: u64)
        requires
            self.sum_us() <= u64::MAX,
        ensures
            total == self.sum_us(),
    {
        self.terminate_us + self.finalize_pending_queries_us + self.ctrl_lock_acquire_us
            + self.finalize_pending_interests_us + self.wtables_acquire_us
            + self.close_face_body_us + self.send_declares_us
    }
}

/// The counters after operations of the given durations.
pub open spec fn timed(durations: Seq<u64>) -> Timing
    decreases durations.len(),
{
    if durations.len() == 0 {
        Timing::zero()
    } else {
        timed(durations.drop_last()).recorded(durations.last())
    }
}

/// The sum of the given durations.
pub open spec fn sum_us(durations: Seq<u64>) -> nat
    decreases durations.len(),
{
    if durations.len() == 0 {
        0
    } else {
        sum_us(durations.drop_last()) + durations.last() as nat
    }
}

/// As long as the number and the sum of the durations can be expressed, a report gives their exact
/// number, maximum and average, and the average is no longer than the maximum.
pub proof fn timing_reports_durations(durations: Seq<u64>)
    requires
        durations.len() <= u64::MAX,
        sum_us(durations) <= u64::MAX,
    ensures
        timed(durations).count == durations.len(),
        timed(durations).total_us == sum_us(durations),
        forall|i: int|
            0 <= i < durations.len() ==> #[trigger] durations[i] <= timed(durations).max_us,
        durations.len() > 0 ==> durations.contains(timed(durations).max_us),
        durations.len() > 0 ==> timed(durations).avg_us() == sum_us(durations) / durations.len(),
        timed(durations).avg_us() <= timed(durations).max_us,
{
    durations_within_max(durations);
    let t = timed(durations);
    if durations.len() > 0 {
        assert(t.total_us / t.count <= t.max_us) by (nonlinear_arith)
            requires
                t.count > 0,
                t.total_us <= t.count * t.max_us,
        ;
    }
}

proof fn durations_within_max(durations: Seq<u64>)
    requires
        durations.len() <= u64::MAX,
        sum_us(durations) <= u64::MAX,
    ensures
        timed(durations).count == durations.len(),
        timed(durations).total_us == sum_us(durations),
        forall|i: int|
            0 <= i < durations.len() ==> #[trigger] durations[i] <= timed(durations).max_us,
        durations.len() > 0 ==> durations.contains(timed(durations).max_us),
        timed(durations).total_us <= timed(durations).count * timed(durations).max_us,
    decreases durations.len(),
{
    if durations.len() > 0 {
        let rest = durations.drop_last();
        let last = durations.last();
        durations_within_max(rest);
        let before = timed(rest);
        let after = timed(durations);
        assert(after.total_us <= after.count * after.max_us) by (nonlinear_arith)
            requires
                before.total_us <= before.count * before.max_us,
                before.max_us <= after.max_us,
                last <= after.max_us,
                after.total_us == before.total_us + last,
                after.count == before.count + 1,
        ;
        assert forall|i: int| 0 <= i < durations.len() implies #[trigger] durations[i]
            <= after.max_us by {
            if i < rest.len() {
                assert(rest[i] == durations[i]);
            }
        }
        if before.max_us < last || rest.len() == 0 {
            assert(durations[durations.len() - 1] == after.max_us);
        } else {
            let i = choose|i: int| 0 <= i < rest.len() && rest[i] == before.max_us;
            assert(durations[i] == after.max_us);
        }
    }
}

/// The order in which two durations are recorded does not matter.
pub proof fn timing_commutes(t: Timing, a: u64, b: u64)
    ensures
        t.recorded(a).recorded(b) == t.recorded(b).recorded(a),
{
}

/// The order in which two flushes are recorded does not matter.
pub proof fn flushes_commute(c: FlushCounters, n: u64, a: u64, m: u64, b: u64)
    ensures
        c.recorded(n, a).recorded(m, b) == c.recorded(m, b).recorded(n, a),
{
}

/// The histogram of a lock counts every acquisition, so that the percentiles of a report are those
/// of all waits.
pub proof fn waits_are_all_in_histogram(before: LockCounters, wait_us: u64, after: LockCounters)
    requires
        counted_all(before.wait_hist@) == before.count,
        before.count < u64::MAX,
        before.waited(wait_us, after),
    ensures
        counted_all(after.wait_hist@) == after.count,
        after.hist_fits(),
{
    bucket_range_holds_wait(wait_us);
    bucket_within_all(before.wait_hist@, bucket_of(wait_us));
    recording_adds_one(before.wait_hist@, wait_us);
}

pub(crate) proof fn quotient_bounds(total: nat, count: nat)
    requires
        count > 0,
    ensures
        total / count * count <= total < (total / count + 1) * count,
{
    assert(total / count * count <= total < (total / count + 1) * count) by (nonlinear_arith)
        requires
            count > 0,
    ;
}

/// The line of an operation has its count and maximum, and the average of the durations.
pub proof fn timing_line_has_the_average(t: Timing)
    requires
        t.count > 0,
    ensures
        t.figures().count == t.count,
        t.figures().max_us == t.max_us,
        t.figures().avg_us * t.count <= t.total_us < (t.figures().avg_us + 1) * t.count,
{
    quotient_bounds(t.total_us as nat, t.count as nat);
}

/// The line of a lock has its count, the maxima and the averages of the waits and of the holds, and
/// the histogram of the waits with their number.
pub proof fn lock_line_has_the_averages(c: LockCounters)
    requires
        c.count > 0,
        c.hist_fits(),
    ensures
        c.figures().count == c.count,
        c.figures().wait_max_us == c.wait_max_us,
        c.figures().hold_max_us == c.hold_max_us,
        c.figures().wait_hist == c.wait_hist,
        c.figures().wait_hist_total == counted_all(c.wait_hist@),
        c.figures().wait_avg_us * c.count <= c.wait_total_us < (c.figures().wait_avg_us + 1)
            * c.count,
        c.figures().hold_avg_us * c.count <= c.hold_total_us < (c.figures().hold_avg_us + 1)
            * c.count,
{
    quotient_bounds(c.wait_total_us as nat, c.count as nat);
    quotient_bounds(c.hold_total_us as nat, c.count as nat);
}

/// The line of the flushes at a site has their count, and the maxima and averages of their durations
/// and of the declarations in them.
pub proof fn flush_line_has_the_averages(c: FlushCounters)
    requires
        c.count > 0,
    ensures
        c.figures().count == c.count,
        c.figures().elapsed_max_us == c.max_us,
        c.figures().declares_max == c.declares_max,
        c.figures().elapsed_avg_us * c.count <= c.total_us < (c.figures().elapsed_avg_us + 1)
            * c.count,
        c.figures().declares_avg * c.count <= c.declares_total < (c.figures().declares_avg + 1)
            * c.count,
{
    quotient_bounds(c.total_us as nat, c.count as nat);
    quotient_bounds(c.declares_total as nat, c.count as nat);
}

/// The waits of a lock are counted as the durations of an operation are, apart from the holds, and
/// the holds apart from the waits.
pub proof fn waits_and_holds_are_counted_apart(
    before: LockCounters,
    wait_us: u64,
    after: LockCounters,
    hold_us: u64,
)
    requires
        before.waited(wait_us, after),
    ensures
        (Timing { count: after.count, total_us: after.wait_total_us, max_us: after.wait_max_us })
            == (Timing {
            count: before.count,
            total_us: before.wait_total_us,
            max_us: before.wait_max_us,
        }).recorded(wait_us),
        after.hold_total_us == before.hold_total_us,
        after.hold_max_us == before.hold_max_us,
        before.held(hold_us).count == before.count,
        before.held(hold_us).wait_total_us == before.wait_total_us,
        before.held(hold_us).wait_max_us == before.wait_max_us,
        before.held(hold_us).wait_hist == before.wait_hist,
        before.held(hold_us).hold_total_us == before.hold_total_us.wrapping_add(hold_us),
        before.held(hold_us).hold_max_us >= hold_us,
        before.held(hold_us).hold_max_us >= before.hold_max_us,
        before.held(hold_us).hold_max_us == hold_us || before.held(hold_us).hold_max_us
            == before.hold_max_us,
{
}

/// The durations of flushes, and the declarations in them, are each counted as the durations of an
/// operation are.
pub proof fn flushes_count_durations_and_declarations(
    c: FlushCounters,
    declares: u64,
    elapsed_us: u64,
)
    ensures
        ({
            let after = c.recorded(declares, elapsed_us);
            &&& (Timing { count: after.count, total_us: after.total_us, max_us: after.max_us })
                == (Timing { count: c.count, total_us: c.total_us, max_us: c.max_us }).recorded(
                elapsed_us,
            )
            &&& (Timing {
                count: after.count,
                total_us: after.declares_total,
                max_us: after.declares_max,
            }) == (Timing { count: c.count, total_us: c.declares_total, max_us: c.declares_max })
                .recorded(declares)
        }),
{
}

/// Each phase of closing a face adds its own duration to that of the whole.
pub proof fn every_phase_adds_to_the_total(p: CloseFacePhases)
    ensures
        p.sum_us() - (CloseFacePhases { terminate_us: 0, ..p }).sum_us() == p.terminate_us,
        p.sum_us() - (CloseFacePhases { finalize_pending_queries_us: 0, ..p }).sum_us()
            == p.finalize_pending_queries_us,
        p.sum_us() - (CloseFacePhases { ctrl_lock_acquire_us: 0, ..p }).sum_us()
            == p.ctrl_lock_acquire_us,
        p.sum_us() - (CloseFacePhases { finalize_pending_interests_us: 0, ..p }).sum_us()
            == p.finalize_pending_interests_us,
        p.sum_us() - (CloseFacePhases { wtables_acquire_us: 0, ..p }).sum_us()
            == p.wtables_acquire_us,
        p.sum_us() - (CloseFacePhases { close_face_body_us: 0, ..p }).sum_us()
            == p.close_face_body_us,
        p.sum_us() - (CloseFacePhases { send_declares_us: 0, ..p }).sum_us() == p.send_declares_us,
        p.sum_us() >= 0,
        p.sum_us() == 0 ==> p.terminate_us == 0 && p.finalize_pending_queries_us == 0
            && p.ctrl_lock_acquire_us == 0 && p.finalize_pending_interests_us == 0
            && p.wtables_acquire_us == 0 && p.close_face_body_us == 0 && p.send_declares_us == 0,
{
}

} // verus!
