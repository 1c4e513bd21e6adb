//! The periodic report of the routing counters.

use vstd::prelude::*;

use crate::diag_sites::CtrlLockSite;
use crate::diag_sites::RepropagateKind;
use crate::diag_sites::RepropagateSubsStep;
use crate::diag_sites::WTableSite;
use crate::diag_sites::CL_SITE_COUNT;
use crate::diag_sites::RPS_STEP_COUNT;
use crate::diag_sites::RP_KIND_COUNT;
use crate::diag_sites::WT_SITE_COUNT;
#[allow(unused_imports)]
use crate::diagnostics::quotient_bounds;
use crate::diagnostics::FlushCounters;
use crate::diagnostics::LockCounters;
use crate::diagnostics::MetricLine;
use crate::diagnostics::RoutingDiag;
use crate::diagnostics::RoutingLine;
use crate::diagnostics::Timing;
#[allow(unused_imports)]
use crate::histogram::empty_counts_nothing;
use crate::histogram::hist_total_fits;
#[allow(unused_imports)]
use crate::histogram::HIST_BUCKETS;

verus! {

/// A line that is reported only if there is something to report.
pub open spec fn line_if(reported: bool, line: MetricLine) -> Seq<MetricLine> {
    if reported {
        seq![line]
    } else {
        Seq::empty()
    }
}

/// The figures of the route caches.
pub open spec fn routing_figures(d: RoutingDiag) -> RoutingLine {
    RoutingLine {
        disable_all_routes_declare_final: d.disable_all_routes_declare_final,
        disable_all_routes_peer_init: d.disable_all_routes_peer_init,
        disable_all_routes_other: d.disable_all_routes_other,
        compute_data_route_count: d.compute_data_route.count,
        compute_data_route_avg_us: d.compute_data_route.avg_us(),
        compute_data_route_max_us: d.compute_data_route.max_us,
        route_cache_hit: d.route_cache_hit,
        route_cache_miss: d.route_cache_miss,
    }
}

/// The route caches have something to report.
pub open spec fn routing_active(d: RoutingDiag) -> bool {
    ||| d.disable_all_routes_declare_final != 0
    ||| d.disable_all_routes_peer_init != 0
    ||| d.disable_all_routes_other != 0
    ||| d.compute_data_route.count != 0
    ||| d.route_cache_hit != 0
    ||| d.route_cache_miss != 0
}

/// The lines of the first `n` sites of the write lock: the lock, then the flushes, which are
/// reported even where the lock was not taken.
pub open spec fn wtables_lines(
    locks: Seq<LockCounters>,
    flushes: Seq<FlushCounters>,
    n: nat,
) -> Seq<MetricLine>
    decreases n,
{
    if n == 0 {
        Seq::empty()
    } else {
        let i = n - 1;
        wtables_lines(locks, flushes, i as nat) + line_if(
            locks[i].count != 0,
            MetricLine::WTables(WTableSite::nth(i), locks[i].figures()),
        ) + line_if(
            flushes[i].count != 0,
            MetricLine::WTablesFlush(WTableSite::nth(i), flushes[i].figures()),
        )
    }
}

/// The lines of the first `n` sites of the control lock.
pub open spec fn ctrl_lock_lines(locks: Seq<LockCounters>, n: nat) -> Seq<MetricLine>
    decreases n,
{
    if n == 0 {
        Seq::empty()
    } else {
        let i = n - 1;
        ctrl_lock_lines(locks, i as nat) + line_if(
            locks[i].count != 0,
            MetricLine::CtrlLock(CtrlLockSite::nth(i), locks[i].figures()),
        )
    }
}

/// The lines of the first `n` kinds of repeated propagation.
pub open spec fn repropagate_lines(timings: Seq<Timing>, n: nat) -> Seq<MetricLine>
    decreases n,
{
    if n == 0 {
        Seq::empty()
    } else {
        let i = n - 1;
        repropagate_lines(timings, i as nat) + line_if(
            timings[i].count != 0,
            MetricLine::Repropagate(RepropagateKind::nth(i), timings[i].figures()),
        )
    }
}

/// The lines of the first `n` steps of propagating subscribers again.
pub open spec fn subs_step_lines(timings: Seq<Timing>, n: nat) -> Seq<MetricLine>
    decreases n,
{
    if n == 0 {
        Seq::empty()
    } else {
        let i = n - 1;
        subs_step_lines(timings, i as nat) + line_if(
            timings[i].count != 0,
            MetricLine::RepropagateSubsStep(
                RepropagateSubsStep::nth(i),
                timings[i].figures(),
            ),
        )
    }
}

/// The report on the counters `d`.
pub open spec fn report_lines(d: RoutingDiag) -> Seq<MetricLine> {
    line_if(routing_active(d), MetricLine::Routing(routing_figures(d))) + wtables_lines(
        d.wtables@,
        d.wtables_flush@,
        WT_SITE_COUNT as nat,
    ) + ctrl_lock_lines(d.ctrl_lock@, CL_SITE_COUNT as nat) + repropagate_lines(
        d.repropagate@,
        RP_KIND_COUNT as nat,
    ) + subs_step_lines(d.repropagate_subs_step@, RPS_STEP_COUNT as nat) + line_if(
        d.flush_declare.count != 0,
        MetricLine::FlushDeclare(d.flush_declare.figures()),
    ) + line_if(
        d.new_transport_unicast.count != 0,
        MetricLine::NewTransportUnicast(d.new_transport_unicast.figures()),
    ) + line_if(d.rtables.count != 0, MetricLine::RTables(d.rtables.figures()))
}

/// What a report on `before` leaves. The counters of the route caches and of the read lock are
/// emptied in any case; the others only where there was something to report.
pub open spec fn left_by_report(before: RoutingDiag, after: RoutingDiag) -> bool {
    &&& after.disable_all_routes_declare_final == 0
    &&& after.disable_all_routes_peer_init == 0
    &&& after.disable_all_routes_other == 0
    &&& after.compute_data_route == Timing::zero()
    &&& after.route_cache_hit == 0
    &&& after.route_cache_miss == 0
    &&& forall|i: int|
        0 <= i < WT_SITE_COUNT ==> before.wtables@[i].drained(#[trigger] after.wtables@[i])
    &&& forall|i: int|
        0 <= i < WT_SITE_COUNT ==> #[trigger] after.wtables_flush@[i]
            == before.wtables_flush@[i].drained()
    &&& forall|i: int|
        0 <= i < CL_SITE_COUNT ==> before.ctrl_lock@[i].drained(#[trigger] after.ctrl_lock@[i])
    &&& forall|i: int|
        0 <= i < RP_KIND_COUNT ==> #[trigger] after.repropagate@[i]
            == before.repropagate@[i].drained()
    &&& forall|i: int|
        0 <= i < RPS_STEP_COUNT ==> #[trigger] after.repropagate_subs_step@[i]
            == before.repropagate_subs_step@[i].drained()
    &&& after.flush_declare == before.flush_declare.drained()
    &&& after.new_transport_unicast == before.new_transport_unicast.drained()
    &&& after.rtables.is_zero()
}

/// The waits of every lock that a report drains can be counted.
pub open spec fn reportable(d: RoutingDiag) -> bool {
    &&& forall|i: int|
        0 <= i < WT_SITE_COUNT && (#[trigger] d.wtables@[i]).count != 0
            ==> d.wtables@[i].hist_fits()
    &&& forall|i: int|
        0 <= i < CL_SITE_COUNT && (#[trigger] d.ctrl_lock@[i]).count != 0
            ==> d.ctrl_lock@[i].hist_fits()
    &&& d.rtables.hist_fits()
}

impl RoutingDiag {
    /// Whether the waits of every lock that a report drains can be counted.
    pub fn is_reportable(&self) -> (res: bool)
        ensures
            res == reportable(*self),
    {
        let mut i: usize = 0;
        while i < WT_SITE_COUNT
            invariant
                i <= WT_SITE_COUNT,
                forall|j: int|
                    0 <= j < i && (#[trigger] self.wtables@[j]).count != 0
                        ==> self.wtables@[j].hist_fits(),
            decreases WT_SITE_COUNT - i,
        {
            let lock: LockCounters = self.wtables[i];
            if lock.count != 0 && !hist_total_fits(&lock.wait_hist) {
                assert(!self.wtables@[i as int].hist_fits());
                return false;
            }
            i = i + 1;
        }
        i = 0;
        while i < CL_SITE_COUNT
            invariant
                i <= CL_SITE_COUNT,
                forall|j: int|
                    0 <= j < i && (#[trigger] self.ctrl_lock@[j]).count != 0
                        ==> self.ctrl_lock@[j].hist_fits(),
            decreases CL_SITE_COUNT - i,
        {
            let lock: LockCounters = self.ctrl_lock[i];
            if lock.count != 0 && !hist_total_fits(&lock.wait_hist) {
                assert(!self.ctrl_lock@[i as int].hist_fits());
                return false;
            }
            i = i + 1;
        }
        hist_total_fits(&self.rtables.wait_hist)
    }

    fn report_routing(&mut self, lines: &mut Vec<MetricLine>)
        ensures
            *final(self) == (RoutingDiag {
                disable_all_routes_declare_final: 0,
                disable_all_routes_peer_init: 0,
                disable_all_routes_other: 0,
                compute_data_route: Timing::zero(),
                route_cache_hit: 0,
                route_cache_miss: 0,
                ..*old(self)
            }),
            final(lines)@ == old(lines)@ + line_if(
                routing_active(*old(self)),
                MetricLine::Routing(routing_figures(*old(self))),
            ),
    {
        let active: bool = self.disable_all_routes_declare_final != 0
            || self.disable_all_routes_peer_init != 0 || self.disable_all_routes_other != 0
            || self.compute_data_route.count != 0 || self.route_cache_hit != 0
            || self.route_cache_miss != 0;
        if active {
            let avg_us: u64 = if self.compute_data_route.count > 0 {
                self.compute_data_route.total_us / self.compute_data_route.count
            } else {
                0
            };
            lines.push(
                MetricLine::Routing(
                    RoutingLine {
                        disable_all_routes_declare_final: self.disable_all_routes_declare_final,
                        disable_all_routes_peer_init: self.disable_all_routes_peer_init,
                        disable_all_routes_other: self.disable_all_routes_other,
                        compute_data_route_count: self.compute_data_route.count,
                        compute_data_route_avg_us: avg_us,
                        compute_data_route_max_us: self.compute_data_route.max_us,
                        route_cache_hit: self.route_cache_hit,
                        route_cache_miss: self.route_cache_miss,
                    },
                ),
            );
        }
        self.disable_all_routes_declare_final = 0;
        self.disable_all_routes_peer_init = 0;
        self.disable_all_routes_other = 0;
        self.compute_data_route = Timing::new();
        self.route_cache_hit = 0;
        self.route_cache_miss = 0;
    }

    fn report_wtables(&mut self, lines: &mut Vec<MetricLine>)
        requires
            forall|i: int|
                0 <= i < WT_SITE_COUNT && (#[trigger] old(self).wtables@[i]).count != 0 ==> old(
                    self,
                ).wtables@[i].hist_fits(),
        ensures
            *final(self) == (RoutingDiag {
                wtables: final(self).wtables,
                wtables_flush: final(self).wtables_flush,
                ..*old(self)
            }),
            forall|i: int|
                0 <= i < WT_SITE_COUNT ==> old(self).wtables@[i].drained(
                    #[trigger] final(self).wtables@[i],
                ),
            forall|i: int|
                0 <= i < WT_SITE_COUNT ==> #[trigger] final(self).wtables_flush@[i] == old(
                    self,
                ).wtables_flush@[i].drained(),
            final(lines)@ == old(lines)@ + wtables_lines(
                old(self).wtables@,
                old(self).wtables_flush@,
                WT_SITE_COUNT as nat,
            ),
    {
        let ghost before = *self;
        let ghost printed = lines@;
        let mut i: usize = 0;
        assert(printed + wtables_lines(before.wtables@, before.wtables_flush@, 0) =~= printed);
        while i < WT_SITE_COUNT
            invariant
                i <= WT_SITE_COUNT,
                forall|j: int|
                    0 <= j < WT_SITE_COUNT && (#[trigger] before.wtables@[j]).count != 0
                        ==> before.wtables@[j].hist_fits(),
                *self == (RoutingDiag {
                    wtables: self.wtables,
                    wtables_flush: self.wtables_flush,
                    ..before
                }),
                forall|j: int|
                    0 <= j < i ==> before.wtables@[j].drained(#[trigger] self.wtables@[j]),
                forall|j: int|
                    0 <= j < i ==> #[trigger] self.wtables_flush@[j]
                        == before.wtables_flush@[j].drained(),
                forall|j: int|
                    i <= j < WT_SITE_COUNT ==> #[trigger] self.wtables@[j] == before.wtables@[j],
                forall|j: int|
                    i <= j < WT_SITE_COUNT ==> #[trigger] self.wtables_flush@[j]
                        == before.wtables_flush@[j],
                lines@ == printed + wtables_lines(before.wtables@, before.wtables_flush@, i as nat),
            decreases WT_SITE_COUNT - i,
        {
            let mut lock: LockCounters = self.wtables[i];
            assert(lock == before.wtables@[i as int]);
            if let Some(line) = lock.drain() {
                lines.push(MetricLine::WTables(WTableSite::at(i), line));
            }
            self.wtables[i] = lock;
            let mut flush = self.wtables_flush[i];
            assert(flush == before.wtables_flush@[i as int]);
            if let Some(line) = flush.drain() {
                lines.push(MetricLine::WTablesFlush(WTableSite::at(i), line));
            }
            self.wtables_flush[i] = flush;
            i = i + 1;
            assert(lines@ =~= printed + wtables_lines(before.wtables@, before.wtables_flush@, i as nat));
        }
    }

    fn report_ctrl_lock(&mut self, lines: &mut Vec<MetricLine>)
        requires
            forall|i: int|
                0 <= i < CL_SITE_COUNT && (#[trigger] old(self).ctrl_lock@[i]).count != 0 ==> old(
                    self,
                ).ctrl_lock@[i].hist_fits(),
        ensures
            *final(self) == (RoutingDiag { ctrl_lock: final(self).ctrl_lock, ..*old(self) }),
            forall|i: int|
                0 <= i < CL_SITE_COUNT ==> old(self).ctrl_lock@[i].drained(
                    #[trigger] final(self).ctrl_lock@[i],
                ),
            final(lines)@ == old(lines)@ + ctrl_lock_lines(
                old(self).ctrl_lock@,
                CL_SITE_COUNT as nat,
            ),
    {
        let ghost before = *self;
        let ghost printed = lines@;
        let mut i: usize = 0;
        assert(printed + ctrl_lock_lines(before.ctrl_lock@, 0) =~= printed);
        while i < CL_SITE_COUNT
            invariant
                i <= CL_SITE_COUNT,
                forall|j: int|
                    0 <= j < CL_SITE_COUNT && (#[trigger] before.ctrl_lock@[j]).count != 0
                        ==> before.ctrl_lock@[j].hist_fits(),
                *self == (RoutingDiag { ctrl_lock: self.ctrl_lock, ..before }),
                forall|j: int|
                    0 <= j < i ==> before.ctrl_lock@[j].drained(#[trigger] self.ctrl_lock@[j]),
                forall|j: int|
                    i <= j < CL_SITE_COUNT ==> #[trigger] self.ctrl_lock@[j]
                        == before.ctrl_lock@[j],
                lines@ == printed + ctrl_lock_lines(before.ctrl_lock@, i as nat),
            decreases CL_SITE_COUNT - i,
        {
            let mut lock: LockCounters = self.ctrl_lock[i];
            assert(lock == before.ctrl_lock@[i as int]);
            if let Some(line) = lock.drain() {
                lines.push(MetricLine::CtrlLock(CtrlLockSite::at(i), line));
            }
            self.ctrl_lock[i] = lock;
            i = i + 1;
            assert(lines@ =~= printed + ctrl_lock_lines(before.ctrl_lock@, i as nat));
        }
    }

    fn report_repropagate(&mut self, lines: &mut Vec<MetricLine>)
        ensures
            *final(self) == (RoutingDiag { repropagate: final(self).repropagate, ..*old(self) }),
            forall|i: int|
                0 <= i < RP_KIND_COUNT ==> #[trigger] final(self).repropagate@[i] == old(
                    self,
                ).repropagate@[i].drained(),
            final(lines)@ == old(lines)@ + repropagate_lines(
                old(self).repropagate@,
                RP_KIND_COUNT as nat,
            ),
    {
        let ghost before = *self;
        let ghost printed = lines@;
        let mut i: usize = 0;
        assert(printed + repropagate_lines(before.repropagate@, 0) =~= printed);
        while i < RP_KIND_COUNT
            invariant
                i <= RP_KIND_COUNT,
                *self == (RoutingDiag { repropagate: self.repropagate, ..before }),
                forall|j: int|
                    0 <= j < i ==> #[trigger] self.repropagate@[j]
                        == before.repropagate@[j].drained(),
                forall|j: int|
                    i <= j < RP_KIND_COUNT ==> #[trigger] self.repropagate@[j]
                        == before.repropagate@[j],
                lines@ == printed + repropagate_lines(before.repropagate@, i as nat),
            decreases RP_KIND_COUNT - i,
        {
            let mut timing: Timing = self.repropagate[i];
            assert(timing == before.repropagate@[i as int]);
            if let Some(line) = timing.drain() {
                lines.push(MetricLine::Repropagate(RepropagateKind::at(i), line));
            }
            self.repropagate[i] = timing;
            i = i + 1;
            assert(lines@ =~= printed + repropagate_lines(before.repropagate@, i as nat));
        }
    }

    fn report_subs_step(&mut self, lines: &mut Vec<MetricLine>)
        ensures
            *final(self) == (RoutingDiag {
                repropagate_subs_step: final(self).repropagate_subs_step,
                ..*old(self)
            }),
            forall|i: int|
                0 <= i < RPS_STEP_COUNT ==> #[trigger] final(self).repropagate_subs_step@[i] == old(
                    self,
                ).repropagate_subs_step@[i].drained(),
            final(lines)@ == old(lines)@ + subs_step_lines(
                old(self).repropagate_subs_step@,
                RPS_STEP_COUNT as nat,
            ),
    {
        let ghost before = *self;
        let ghost printed = lines@;
        let mut i: usize = 0;
        assert(printed + subs_step_lines(before.repropagate_subs_step@, 0) =~= printed);
        while i < RPS_STEP_COUNT
            invariant
                i <= RPS_STEP_COUNT,
                *self == (RoutingDiag {
                    repropagate_subs_step: self.repropagate_subs_step,
                    ..before
                }),
                forall|j: int|
                    0 <= j < i ==> #[trigger] self.repropagate_subs_step@[j]
                        == before.repropagate_subs_step@[j].drained(),
                forall|j: int|
                    i <= j < RPS_STEP_COUNT ==> #[trigger] self.repropagate_subs_step@[j]
                        == before.repropagate_subs_step@[j],
                lines@ == printed + subs_step_lines(before.repropagate_subs_step@, i as nat),
            decreases RPS_STEP_COUNT - i,
        {
            let mut timing: Timing = self.repropagate_subs_step[i];
            assert(timing == before.repropagate_subs_step@[i as int]);
            if let Some(line) = timing.drain() {
                lines.push(MetricLine::RepropagateSubsStep(RepropagateSubsStep::at(i), line));
            }
            self.repropagate_subs_step[i] = timing;
            i = i + 1;
            assert(lines@ =~= printed + subs_step_lines(before.repropagate_subs_step@, i as nat));
        }
    }

    fn report_rtables(&mut self, lines: &mut Vec<MetricLine>)
        requires
            old(self).rtables.hist_fits(),
        ensures
            *final(self) == (RoutingDiag { rtables: final(self).rtables, ..*old(self) }),
            final(self).rtables.is_zero(),
            final(lines)@ == old(lines)@ + line_if(
                old(self).rtables.count != 0,
                MetricLine::RTables(old(self).rtables.figures()),
            ),
    {
        let mut lock: LockCounters = self.rtables;
        if let Some(line) = lock.drain() {
            lines.push(MetricLine::RTables(line));
        }
        self.rtables = LockCounters::new();
    }

    /// Drains the counters for one period and returns the lines to print.
    pub fn report(&mut self) -> (lines: Vec<MetricLine>)
        requires
            reportable(*old(self)),
        ensures
            lines@ == report_lines(*old(self)),
            left_by_report(*old(self), *final(self)),
    {
        let ghost before = *self;
        let mut lines: Vec<MetricLine> = Vec::new();
        self.report_routing(&mut lines);
        self.report_wtables(&mut lines);
        self.report_ctrl_lock(&mut lines);
        self.report_repropagate(&mut lines);
        self.report_subs_step(&mut lines);
        if let Some(line) = self.flush_declare.drain() {
            lines.push(MetricLine::FlushDeclare(line));
        }
        if let Some(line) = self.new_transport_unicast.drain() {
            lines.push(MetricLine::NewTransportUnicast(line));
        }
        self.report_rtables(&mut lines);
        assert(lines@ =~= report_lines(before));
        lines
    }
}

/// Something was counted for a line.
pub open spec fn line_active(line: MetricLine) -> bool {
    match line {
        MetricLine::Routing(r) => {
            ||| r.disable_all_routes_declare_final != 0
            ||| r.disable_all_routes_peer_init != 0
            ||| r.disable_all_routes_other != 0
            ||| r.compute_data_route_count != 0
            ||| r.route_cache_hit != 0
            ||| r.route_cache_miss != 0
        },
        MetricLine::WTables(_, l) => l.count != 0,
        MetricLine::WTablesFlush(_, l) => l.count != 0,
        MetricLine::CtrlLock(_, l) => l.count != 0,
        MetricLine::Repropagate(_, l) => l.count != 0,
        MetricLine::RepropagateSubsStep(_, l) => l.count != 0,
        MetricLine::FlushDeclare(l) => l.count != 0,
        MetricLine::NewTransportUnicast(l) => l.count != 0,
        MetricLine::RTables(l) => l.count != 0,
    }
}

proof fn site_lines_are_active(d: RoutingDiag, n: nat)
    requires
        n <= CL_SITE_COUNT,
    ensures
        n <= WT_SITE_COUNT ==> wtables_lines(d.wtables@, d.wtables_flush@, n).all(
            |line| line_active(line),
        ),
        ctrl_lock_lines(d.ctrl_lock@, n).all(|line| line_active(line)),
        n <= RP_KIND_COUNT ==> repropagate_lines(d.repropagate@, n).all(|line| line_active(line)),
        n <= RPS_STEP_COUNT ==> subs_step_lines(d.repropagate_subs_step@, n).all(
            |line| line_active(line),
        ),
    decreases n,
{
    if n > 0 {
        site_lines_are_active(d, (n - 1) as nat);
    }
}

/// A report has no line for what did not happen.
pub proof fn reported_lines_are_active(d: RoutingDiag)
    ensures
        report_lines(d).all(|line| line_active(line)),
{
    site_lines_are_active(d, WT_SITE_COUNT as nat);
    site_lines_are_active(d, CL_SITE_COUNT as nat);
    site_lines_are_active(d, RP_KIND_COUNT as nat);
    site_lines_are_active(d, RPS_STEP_COUNT as nat);
}

proof fn quiet_sites_report_nothing(d: RoutingDiag, n: nat)
    requires
        n <= CL_SITE_COUNT,
        nothing_counted(d),
    ensures
        n <= WT_SITE_COUNT ==> wtables_lines(d.wtables@, d.wtables_flush@, n).len() == 0,
        ctrl_lock_lines(d.ctrl_lock@, n).len() == 0,
        n <= RP_KIND_COUNT ==> repropagate_lines(d.repropagate@, n).len() == 0,
        n <= RPS_STEP_COUNT ==> subs_step_lines(d.repropagate_subs_step@, n).len() == 0,
    decreases n,
{
    if n > 0 {
        quiet_sites_report_nothing(d, (n - 1) as nat);
    }
}

/// No counter that makes a line has counted anything.
pub open spec fn nothing_counted(d: RoutingDiag) -> bool {
    &&& !routing_active(d)
    &&& forall|i: int| 0 <= i < WT_SITE_COUNT ==> (#[trigger] d.wtables@[i]).count == 0
    &&& forall|i: int| 0 <= i < WT_SITE_COUNT ==> (#[trigger] d.wtables_flush@[i]).count == 0
    &&& forall|i: int| 0 <= i < CL_SITE_COUNT ==> (#[trigger] d.ctrl_lock@[i]).count == 0
    &&& forall|i: int| 0 <= i < RP_KIND_COUNT ==> (#[trigger] d.repropagate@[i]).count == 0
    &&& forall|i: int|
        0 <= i < RPS_STEP_COUNT ==> (#[trigger] d.repropagate_subs_step@[i]).count == 0
    &&& d.flush_declare.count == 0
    &&& d.new_transport_unicast.count == 0
    &&& d.rtables.count == 0
}

/// A process that has recorded nothing reports nothing.
pub proof fn quiet_process_reports_nothing(d: RoutingDiag)
    requires
        nothing_counted(d),
    ensures
        report_lines(d) == Seq::<MetricLine>::empty(),
{
    quiet_sites_report_nothing(d, WT_SITE_COUNT as nat);
    quiet_sites_report_nothing(d, CL_SITE_COUNT as nat);
    quiet_sites_report_nothing(d, RP_KIND_COUNT as nat);
    quiet_sites_report_nothing(d, RPS_STEP_COUNT as nat);
    assert(report_lines(d) =~= Seq::<MetricLine>::empty());
}

/// Every event is reported once: what a report leaves is reportable, and a second report without
/// new events is empty.
pub proof fn report_counts_events_once(before: RoutingDiag, after: RoutingDiag)
    requires
        left_by_report(before, after),
    ensures
        reportable(after),
        report_lines(after) == Seq::<MetricLine>::empty(),
{
    assert(nothing_counted(after));
    quiet_process_reports_nothing(after);
    empty_counts_nothing(after.rtables.wait_hist@, HIST_BUCKETS as nat);
}

proof fn wtables_lines_hold(
    locks: Seq<LockCounters>,
    flushes: Seq<FlushCounters>,
    n: nat,
    i: int,
)
    requires
        0 <= i < n,
    ensures
        locks[i].count != 0 ==> wtables_lines(locks, flushes, n).contains(
            MetricLine::WTables(WTableSite::nth(i), locks[i].figures()),
        ),
        flushes[i].count != 0 ==> wtables_lines(locks, flushes, n).contains(
            MetricLine::WTablesFlush(WTableSite::nth(i), flushes[i].figures()),
        ),
    decreases n,
{
    let lines = wtables_lines(locks, flushes, n);
    let rest = wtables_lines(locks, flushes, (n - 1) as nat);
    let lock = MetricLine::WTables(WTableSite::nth(i), locks[i].figures());
    let flush = MetricLine::WTablesFlush(WTableSite::nth(i), flushes[i].figures());
    if i < n - 1 {
        wtables_lines_hold(locks, flushes, (n - 1) as nat, i);
        kept_in_front(rest, lines, lock);
        kept_in_front(rest, lines, flush);
    } else {
        if locks[i].count != 0 {
            assert(lines[rest.len() as int] == lock);
        }
        if flushes[i].count != 0 {
            assert(lines[lines.len() - 1] == flush);
        }
    }
}

proof fn kept_in_front(front: Seq<MetricLine>, lines: Seq<MetricLine>, line: MetricLine)
    requires
        front.is_prefix_of(lines),
    ensures
        front.contains(line) ==> lines.contains(line),
{
    if front.contains(line) {
        let i = choose|i: int| 0 <= i < front.len() && front[i] == line;
        assert(lines[i] == front[i]);
    }
}

proof fn ctrl_lock_lines_hold(locks: Seq<LockCounters>, n: nat, i: int)
    requires
        0 <= i < n,
        locks[i].count != 0,
    ensures
        ctrl_lock_lines(locks, n).contains(
            MetricLine::CtrlLock(CtrlLockSite::nth(i), locks[i].figures()),
        ),
    decreases n,
{
    let lines = ctrl_lock_lines(locks, n);
    let rest = ctrl_lock_lines(locks, (n - 1) as nat);
    let line = MetricLine::CtrlLock(CtrlLockSite::nth(i), locks[i].figures());
    if i < n - 1 {
        ctrl_lock_lines_hold(locks, (n - 1) as nat, i);
        kept_in_front(rest, lines, line);
    } else {
        assert(lines[rest.len() as int] == line);
    }
}

proof fn repropagate_lines_hold(timings: Seq<Timing>, n: nat, i: int)
    requires
        0 <= i < n,
        timings[i].count != 0,
    ensures
        repropagate_lines(timings, n).contains(
            MetricLine::Repropagate(RepropagateKind::nth(i), timings[i].figures()),
        ),
    decreases n,
{
    let lines = repropagate_lines(timings, n);
    let rest = repropagate_lines(timings, (n - 1) as nat);
    let line = MetricLine::Repropagate(RepropagateKind::nth(i), timings[i].figures());
    if i < n - 1 {
        repropagate_lines_hold(timings, (n - 1) as nat, i);
        kept_in_front(rest, lines, line);
    } else {
        assert(lines[rest.len() as int] == line);
    }
}

proof fn subs_step_lines_hold(timings: Seq<Timing>, n: nat, i: int)
    requires
        0 <= i < n,
        timings[i].count != 0,
    ensures
        subs_step_lines(timings, n).contains(
            MetricLine::RepropagateSubsStep(RepropagateSubsStep::nth(i), timings[i].figures()),
        ),
    decreases n,
{
    let lines = subs_step_lines(timings, n);
    let rest = subs_step_lines(timings, (n - 1) as nat);
    let line = MetricLine::RepropagateSubsStep(RepropagateSubsStep::nth(i), timings[i].figures());
    if i < n - 1 {
        subs_step_lines_hold(timings, (n - 1) as nat, i);
        kept_in_front(rest, lines, line);
    } else {
        assert(lines[rest.len() as int] == line);
    }
}

proof fn kept_in_sum(front: Seq<MetricLine>, back: Seq<MetricLine>, line: MetricLine)
    ensures
        front.contains(line) ==> (front + back).contains(line),
        back.contains(line) ==> (front + back).contains(line),
{
    if front.contains(line) {
        let i = choose|i: int| 0 <= i < front.len() && front[i] == line;
        assert((front + back)[i] == line);
    }
    if back.contains(line) {
        let i = choose|i: int| 0 <= i < back.len() && back[i] == line;
        assert((front + back)[front.len() + i] == line);
    }
}

/// The lines of each part of a report are in the report.
proof fn parts_are_reported(d: RoutingDiag, line: MetricLine)
    ensures
        line_if(routing_active(d), MetricLine::Routing(routing_figures(d))).contains(line)
            ==> report_lines(d).contains(line),
        wtables_lines(d.wtables@, d.wtables_flush@, WT_SITE_COUNT as nat).contains(line)
            ==> report_lines(d).contains(line),
        ctrl_lock_lines(d.ctrl_lock@, CL_SITE_COUNT as nat).contains(line) ==> report_lines(
            d,
        ).contains(line),
        repropagate_lines(d.repropagate@, RP_KIND_COUNT as nat).contains(line) ==> report_lines(
            d,
        ).contains(line),
        subs_step_lines(d.repropagate_subs_step@, RPS_STEP_COUNT as nat).contains(line)
            ==> report_lines(d).contains(line),
        line_if(
            d.flush_declare.count != 0,
            MetricLine::FlushDeclare(d.flush_declare.figures()),
        ).contains(line) ==> report_lines(d).contains(line),
        line_if(
            d.new_transport_unicast.count != 0,
            MetricLine::NewTransportUnicast(d.new_transport_unicast.figures()),
        ).contains(line) ==> report_lines(d).contains(line),
        line_if(d.rtables.count != 0, MetricLine::RTables(d.rtables.figures())).contains(line)
            ==> report_lines(d).contains(line),
{
    let s0 = line_if(routing_active(d), MetricLine::Routing(routing_figures(d)));
    let p1 = wtables_lines(d.wtables@, d.wtables_flush@, WT_SITE_COUNT as nat);
    let p2 = ctrl_lock_lines(d.ctrl_lock@, CL_SITE_COUNT as nat);
    let p3 = repropagate_lines(d.repropagate@, RP_KIND_COUNT as nat);
    let p4 = subs_step_lines(d.repropagate_subs_step@, RPS_STEP_COUNT as nat);
    let p5 = line_if(
        d.flush_declare.count != 0,
        MetricLine::FlushDeclare(d.flush_declare.figures()),
    );
    let p6 = line_if(
        d.new_transport_unicast.count != 0,
        MetricLine::NewTransportUnicast(d.new_transport_unicast.figures()),
    );
    let p7 = line_if(d.rtables.count != 0, MetricLine::RTables(d.rtables.figures()));
    kept_in_sum(s0, p1, line);
    kept_in_sum(s0 + p1, p2, line);
    kept_in_sum(s0 + p1 + p2, p3, line);
    kept_in_sum(s0 + p1 + p2 + p3, p4, line);
    kept_in_sum(s0 + p1 + p2 + p3 + p4, p5, line);
    kept_in_sum(s0 + p1 + p2 + p3 + p4 + p5, p6, line);
    kept_in_sum(s0 + p1 + p2 + p3 + p4 + p5 + p6, p7, line);
}

proof fn counted_line_is_there(counted: bool, line: MetricLine)
    ensures
        counted ==> line_if(counted, line).contains(line),
{
    if counted {
        assert(line_if(counted, line)[0] == line);
    }
}

/// Everything that was counted is reported: a report has the line of every site, kind and step
/// with a count, and that of the route caches, with the figures of its counters.
pub proof fn everything_counted_is_reported(d: RoutingDiag, i: int)
    ensures
        routing_active(d) ==> report_lines(d).contains(MetricLine::Routing(routing_figures(d))),
        0 <= i < 5 && d.wtables@[i].count != 0 ==> report_lines(d).contains(
            MetricLine::WTables(WTableSite::nth(i), d.wtables@[i].figures()),
        ),
        0 <= i < 5 && d.wtables_flush@[i].count != 0 ==> report_lines(d).contains(
            MetricLine::WTablesFlush(WTableSite::nth(i), d.wtables_flush@[i].figures()),
        ),
        0 <= i < 6 && d.ctrl_lock@[i].count != 0 ==> report_lines(d).contains(
            MetricLine::CtrlLock(CtrlLockSite::nth(i), d.ctrl_lock@[i].figures()),
        ),
        0 <= i < 5 && d.repropagate@[i].count != 0 ==> report_lines(d).contains(
            MetricLine::Repropagate(RepropagateKind::nth(i), d.repropagate@[i].figures()),
        ),
        0 <= i < 4 && d.repropagate_subs_step@[i].count != 0 ==> report_lines(d).contains(
            MetricLine::RepropagateSubsStep(
                RepropagateSubsStep::nth(i),
                d.repropagate_subs_step@[i].figures(),
            ),
        ),
        d.flush_declare.count != 0 ==> report_lines(d).contains(
            MetricLine::FlushDeclare(d.flush_declare.figures()),
        ),
        d.new_transport_unicast.count != 0 ==> report_lines(d).contains(
            MetricLine::NewTransportUnicast(d.new_transport_unicast.figures()),
        ),
        d.rtables.count != 0 ==> report_lines(d).contains(
            MetricLine::RTables(d.rtables.figures()),
        ),
{
    let routing = MetricLine::Routing(routing_figures(d));
    counted_line_is_there(routing_active(d), routing);
    parts_are_reported(d, routing);
    if 0 <= i < WT_SITE_COUNT {
        wtables_lines_hold(d.wtables@, d.wtables_flush@, WT_SITE_COUNT as nat, i);
        parts_are_reported(d, MetricLine::WTables(WTableSite::nth(i), d.wtables@[i].figures()));
        parts_are_reported(
            d,
            MetricLine::WTablesFlush(WTableSite::nth(i), d.wtables_flush@[i].figures()),
        );
    }
    if 0 <= i < CL_SITE_COUNT && d.ctrl_lock@[i].count != 0 {
        ctrl_lock_lines_hold(d.ctrl_lock@, CL_SITE_COUNT as nat, i);
        parts_are_reported(
            d,
            MetricLine::CtrlLock(CtrlLockSite::nth(i), d.ctrl_lock@[i].figures()),
        );
    }
    if 0 <= i < RP_KIND_COUNT && d.repropagate@[i].count != 0 {
        repropagate_lines_hold(d.repropagate@, RP_KIND_COUNT as nat, i);
        parts_are_reported(
            d,
            MetricLine::Repropagate(RepropagateKind::nth(i), d.repropagate@[i].figures()),
        );
    }
    if 0 <= i < RPS_STEP_COUNT && d.repropagate_subs_step@[i].count != 0 {
        subs_step_lines_hold(d.repropagate_subs_step@, RPS_STEP_COUNT as nat, i);
        parts_are_reported(
            d,
            MetricLine::RepropagateSubsStep(
                RepropagateSubsStep::nth(i),
                d.repropagate_subs_step@[i].figures(),
            ),
        );
    }
    let flush_declare = MetricLine::FlushDeclare(d.flush_declare.figures());
    counted_line_is_there(d.flush_declare.count != 0, flush_declare);
    parts_are_reported(d, flush_declare);
    let transport = MetricLine::NewTransportUnicast(d.new_transport_unicast.figures());
    counted_line_is_there(d.new_transport_unicast.count != 0, transport);
    parts_are_reported(d, transport);
    let rtables = MetricLine::RTables(d.rtables.figures());
    counted_line_is_there(d.rtables.count != 0, rtables);
    parts_are_reported(d, rtables);
}

/// The line of the route caches has their counts as they are and the average of the computations,
/// and there is one if and only if a count in it is not zero.
pub proof fn routing_line_has_all_counts(d: RoutingDiag)
    ensures
        ({
            let line = routing_figures(d);
            &&& line.disable_all_routes_declare_final == d.disable_all_routes_declare_final
            &&& line.disable_all_routes_peer_init == d.disable_all_routes_peer_init
            &&& line.disable_all_routes_other == d.disable_all_routes_other
            &&& line.compute_data_route_count == d.compute_data_route.count
            &&& line.compute_data_route_max_us == d.compute_data_route.max_us
            &&& line.route_cache_hit == d.route_cache_hit
            &&& line.route_cache_miss == d.route_cache_miss
            &&& d.compute_data_route.count > 0 ==> line.compute_data_route_avg_us
                * d.compute_data_route.count <= d.compute_data_route.total_us
                < (line.compute_data_route_avg_us + 1) * d.compute_data_route.count
            &&& d.compute_data_route.count == 0 ==> line.compute_data_route_avg_us == 0
            &&& !routing_active(d) ==> line.route_cache_hit == 0 && line.route_cache_miss == 0
                && line.compute_data_route_count == 0 && line.disable_all_routes_declare_final == 0
                && line.disable_all_routes_peer_init == 0 && line.disable_all_routes_other == 0
            &&& routing_active(d) ==> line.route_cache_hit != 0 || line.route_cache_miss != 0
                || line.compute_data_route_count != 0 || line.disable_all_routes_declare_final != 0
                || line.disable_all_routes_peer_init != 0 || line.disable_all_routes_other != 0
        }),
{
    if d.compute_data_route.count > 0 {
        quotient_bounds(d.compute_data_route.total_us as nat, d.compute_data_route.count as nat);
    }
}

/// What is reported starts again from nothing, and what is not reported is kept for the next report,
/// but for the read lock and the route caches, which always start again.
pub proof fn report_resets_what_it_reports(before: RoutingDiag, after: RoutingDiag, i: int, b: int)
    requires
        left_by_report(before, after),
        0 <= b < HIST_BUCKETS,
    ensures
        0 <= i < 5 && before.wtables@[i].count != 0 ==> {
            &&& after.wtables@[i].count == 0
            &&& after.wtables@[i].wait_total_us == 0
            &&& after.wtables@[i].wait_max_us == 0
            &&& after.wtables@[i].hold_total_us == 0
            &&& after.wtables@[i].hold_max_us == 0
            &&& after.wtables@[i].wait_hist@[b] == 0
        },
        0 <= i < 5 && before.wtables@[i].count == 0 ==> after.wtables@[i] == before.wtables@[i],
        0 <= i < 6 && before.ctrl_lock@[i].count != 0 ==> {
            &&& after.ctrl_lock@[i].count == 0
            &&& after.ctrl_lock@[i].wait_total_us == 0
            &&& after.ctrl_lock@[i].wait_max_us == 0
            &&& after.ctrl_lock@[i].hold_total_us == 0
            &&& after.ctrl_lock@[i].hold_max_us == 0
            &&& after.ctrl_lock@[i].wait_hist@[b] == 0
        },
        0 <= i < 6 && before.ctrl_lock@[i].count == 0 ==> after.ctrl_lock@[i]
            == before.ctrl_lock@[i],
        0 <= i < 5 && before.wtables_flush@[i].count != 0 ==> {
            &&& after.wtables_flush@[i].count == 0
            &&& after.wtables_flush@[i].total_us == 0
            &&& after.wtables_flush@[i].max_us == 0
            &&& after.wtables_flush@[i].declares_total == 0
            &&& after.wtables_flush@[i].declares_max == 0
        },
        0 <= i < 5 && before.repropagate@[i].count != 0 ==> after.repropagate@[i].count == 0
            && after.repropagate@[i].total_us == 0 && after.repropagate@[i].max_us == 0,
        0 <= i < 4 && before.repropagate_subs_step@[i].count != 0
            ==> after.repropagate_subs_step@[i].count == 0
            && after.repropagate_subs_step@[i].total_us == 0
            && after.repropagate_subs_step@[i].max_us == 0,
        before.flush_declare.count != 0 ==> after.flush_declare.count == 0
            && after.flush_declare.total_us == 0 && after.flush_declare.max_us == 0,
        before.new_transport_unicast.count != 0 ==> after.new_transport_unicast.count == 0
            && after.new_transport_unicast.total_us == 0 && after.new_transport_unicast.max_us == 0,
        after.rtables.count == 0 && after.rtables.wait_total_us == 0 && after.rtables.wait_max_us
            == 0 && after.rtables.hold_total_us == 0 && after.rtables.hold_max_us == 0
            && after.rtables.wait_hist@[b] == 0,
        0 <= i < 5 && before.wtables_flush@[i].count == 0 ==> after.wtables_flush@[i]
            == before.wtables_flush@[i],
        0 <= i < 5 && before.repropagate@[i].count == 0 ==> after.repropagate@[i]
            == before.repropagate@[i],
        0 <= i < 4 && before.repropagate_subs_step@[i].count == 0
            ==> after.repropagate_subs_step@[i] == before.repropagate_subs_step@[i],
        before.flush_declare.count == 0 ==> after.flush_declare == before.flush_declare,
        before.new_transport_unicast.count == 0 ==> after.new_transport_unicast
            == before.new_transport_unicast,
        after.compute_data_route.count == 0 && after.compute_data_route.total_us == 0
            && after.compute_data_route.max_us == 0,
        after.disable_all_routes_declare_final == 0 && after.disable_all_routes_peer_init == 0
            && after.disable_all_routes_other == 0,
        after.route_cache_hit == 0 && after.route_cache_miss == 0,
{
}

/// A report that directly follows another has nothing to report, and neither has that of a process
/// that recorded nothing.
pub proof fn second_report_is_empty(before: RoutingDiag, after: RoutingDiag)
    ensures
        left_by_report(before, after) ==> report_lines(after).len() == 0,
        before.is_zero() ==> report_lines(before).len() == 0,
{
    if left_by_report(before, after) && report_lines(after).len() > 0 {
        only_what_was_counted_is_reported(after, 0);
        nothing_is_counted(after, report_lines(after)[0]);
    }
    if before.is_zero() && report_lines(before).len() > 0 {
        only_what_was_counted_is_reported(before, 0);
        nothing_is_counted(before, report_lines(before)[0]);
    }
}

proof fn nothing_is_counted(d: RoutingDiag, line: MetricLine)
    requires
        !routing_active(d),
        forall|i: int| 0 <= i < WT_SITE_COUNT ==> (#[trigger] d.wtables@[i]).count == 0,
        forall|i: int| 0 <= i < WT_SITE_COUNT ==> (#[trigger] d.wtables_flush@[i]).count == 0,
        forall|i: int| 0 <= i < CL_SITE_COUNT ==> (#[trigger] d.ctrl_lock@[i]).count == 0,
        forall|i: int| 0 <= i < RP_KIND_COUNT ==> (#[trigger] d.repropagate@[i]).count == 0,
        forall|i: int|
            0 <= i < RPS_STEP_COUNT ==> (#[trigger] d.repropagate_subs_step@[i]).count == 0,
        d.flush_declare.count == 0,
        d.new_transport_unicast.count == 0,
        d.rtables.count == 0,
    ensures
        !line_is_counted(d, line),
{
}

/// The line is that of something that was counted, and has the figures of its counters.
pub open spec fn line_is_counted(d: RoutingDiag, line: MetricLine) -> bool {
    match line {
        MetricLine::Routing(figures) => routing_active(d) && figures == routing_figures(d),
        MetricLine::WTables(site, figures) => {
            &&& d.wtables@[site.ordinal()].count != 0
            &&& figures == d.wtables@[site.ordinal()].figures()
        },
        MetricLine::WTablesFlush(site, figures) => {
            &&& d.wtables_flush@[site.ordinal()].count != 0
            &&& figures == d.wtables_flush@[site.ordinal()].figures()
        },
        MetricLine::CtrlLock(site, figures) => {
            &&& d.ctrl_lock@[site.ordinal()].count != 0
            &&& figures == d.ctrl_lock@[site.ordinal()].figures()
        },
        MetricLine::Repropagate(kind, figures) => {
            &&& d.repropagate@[kind.ordinal()].count != 0
            &&& figures == d.repropagate@[kind.ordinal()].figures()
        },
        MetricLine::RepropagateSubsStep(step, figures) => {
            &&& d.repropagate_subs_step@[step.ordinal()].count != 0
            &&& figures == d.repropagate_subs_step@[step.ordinal()].figures()
        },
        MetricLine::FlushDeclare(figures) => d.flush_declare.count != 0 && figures
            == d.flush_declare.figures(),
        MetricLine::NewTransportUnicast(figures) => d.new_transport_unicast.count != 0 && figures
            == d.new_transport_unicast.figures(),
        MetricLine::RTables(figures) => d.rtables.count != 0 && figures == d.rtables.figures(),
    }
}

proof fn all_counted(d: RoutingDiag, n: nat)
    ensures
        n <= WT_SITE_COUNT ==> forall|j: int|
            0 <= j < wtables_lines(d.wtables@, d.wtables_flush@, n).len() ==> line_is_counted(
                d,
                #[trigger] wtables_lines(d.wtables@, d.wtables_flush@, n)[j],
            ),
        n <= CL_SITE_COUNT ==> forall|j: int|
            0 <= j < ctrl_lock_lines(d.ctrl_lock@, n).len() ==> line_is_counted(
                d,
                #[trigger] ctrl_lock_lines(d.ctrl_lock@, n)[j],
            ),
        n <= RP_KIND_COUNT ==> forall|j: int|
            0 <= j < repropagate_lines(d.repropagate@, n).len() ==> line_is_counted(
                d,
                #[trigger] repropagate_lines(d.repropagate@, n)[j],
            ),
        n <= RPS_STEP_COUNT ==> forall|j: int|
            0 <= j < subs_step_lines(d.repropagate_subs_step@, n).len() ==> line_is_counted(
                d,
                #[trigger] subs_step_lines(d.repropagate_subs_step@, n)[j],
            ),
    decreases n,
{
    if n > 0 {
        let i = n - 1;
        all_counted(d, i as nat);
        if n <= WT_SITE_COUNT {
            assert(WTableSite::nth(i).ordinal() == i);
            let rest = wtables_lines(d.wtables@, d.wtables_flush@, i as nat);
            let lock = line_if(
                d.wtables@[i].count != 0,
                MetricLine::WTables(WTableSite::nth(i), d.wtables@[i].figures()),
            );
            let flush = line_if(
                d.wtables_flush@[i].count != 0,
                MetricLine::WTablesFlush(WTableSite::nth(i), d.wtables_flush@[i].figures()),
            );
            sum_is_counted(d, rest, lock);
            sum_is_counted(d, rest + lock, flush);
        }
        if n <= CL_SITE_COUNT {
            assert(CtrlLockSite::nth(i).ordinal() == i);
            let lock = line_if(
                d.ctrl_lock@[i].count != 0,
                MetricLine::CtrlLock(CtrlLockSite::nth(i), d.ctrl_lock@[i].figures()),
            );
            sum_is_counted(d, ctrl_lock_lines(d.ctrl_lock@, i as nat), lock);
        }
        if n <= RP_KIND_COUNT {
            assert(RepropagateKind::nth(i).ordinal() == i);
            let timing = line_if(
                d.repropagate@[i].count != 0,
                MetricLine::Repropagate(RepropagateKind::nth(i), d.repropagate@[i].figures()),
            );
            sum_is_counted(d, repropagate_lines(d.repropagate@, i as nat), timing);
        }
        if n <= RPS_STEP_COUNT {
            assert(RepropagateSubsStep::nth(i).ordinal() == i);
            let timing = line_if(
                d.repropagate_subs_step@[i].count != 0,
                MetricLine::RepropagateSubsStep(
                    RepropagateSubsStep::nth(i),
                    d.repropagate_subs_step@[i].figures(),
                ),
            );
            sum_is_counted(d, subs_step_lines(d.repropagate_subs_step@, i as nat), timing);
        }
    }
}

proof fn sum_is_counted(d: RoutingDiag, front: Seq<MetricLine>, back: Seq<MetricLine>)
    requires
        forall|j: int| 0 <= j < front.len() ==> line_is_counted(d, #[trigger] front[j]),
        forall|j: int| 0 <= j < back.len() ==> line_is_counted(d, #[trigger] back[j]),
    ensures
        forall|j: int|
            0 <= j < (front + back).len() ==> line_is_counted(d, #[trigger] (front + back)[j]),
{
    assert forall|j: int| 0 <= j < (front + back).len() implies line_is_counted(
        d,
        #[trigger] (front + back)[j],
    ) by {
        if j < front.len() {
            assert((front + back)[j] == front[j]);
        } else {
            assert((front + back)[j] == back[j - front.len()]);
        }
    }
}

/// Only what was counted is reported: every line of a report is that of a site, kind or step with a
/// count, or of the route caches, and has the figures of its counters.
pub proof fn only_what_was_counted_is_reported(d: RoutingDiag, j: int)
    requires
        0 <= j < report_lines(d).len(),
    ensures
        line_is_counted(d, report_lines(d)[j]),
{
    let s0 = line_if(routing_active(d), MetricLine::Routing(routing_figures(d)));
    let p1 = wtables_lines(d.wtables@, d.wtables_flush@, WT_SITE_COUNT as nat);
    let p2 = ctrl_lock_lines(d.ctrl_lock@, CL_SITE_COUNT as nat);
    let p3 = repropagate_lines(d.repropagate@, RP_KIND_COUNT as nat);
    let p4 = subs_step_lines(d.repropagate_subs_step@, RPS_STEP_COUNT as nat);
    let p5 = line_if(
        d.flush_declare.count != 0,
        MetricLine::FlushDeclare(d.flush_declare.figures()),
    );
    let p6 = line_if(
        d.new_transport_unicast.count != 0,
        MetricLine::NewTransportUnicast(d.new_transport_unicast.figures()),
    );
    let p7 = line_if(d.rtables.count != 0, MetricLine::RTables(d.rtables.figures()));
    all_counted(d, WT_SITE_COUNT as nat);
    all_counted(d, CL_SITE_COUNT as nat);
    all_counted(d, RP_KIND_COUNT as nat);
    all_counted(d, RPS_STEP_COUNT as nat);
    sum_is_counted(d, s0, p1);
    sum_is_counted(d, s0 + p1, p2);
    sum_is_counted(d, s0 + p1 + p2, p3);
    sum_is_counted(d, s0 + p1 + p2 + p3, p4);
    sum_is_counted(d, s0 + p1 + p2 + p3 + p4, p5);
    sum_is_counted(d, s0 + p1 + p2 + p3 + p4 + p5, p6);
    sum_is_counted(d, s0 + p1 + p2 + p3 + p4 + p5 + p6, p7);
}

} // verus!
