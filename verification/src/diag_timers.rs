//! Timers that feed the routing counters.
//!
//! Every operation that reads the clock has a counterpart that takes the reading as an argument
//! and says exactly what becomes of it.

use vstd::prelude::*;

use crate::clock::as_micros;
#[allow(unused_imports)]
use crate::clock::micros_of;
use crate::clock::nanos_between;
#[allow(unused_imports)]
use crate::clock::span_between;
use crate::clock::Clock;
use crate::diag_sites::CtrlLockSite;
use crate::diag_sites::WTableSite;
use crate::diagnostics::RoutingDiag;

verus! {

/// The microseconds from `earlier` to `later`.
pub open spec fn us_between(earlier: u128, later: u128) -> u64 {
    micros_of(span_between(earlier, later))
}

fn elapsed_us(earlier: u128, later: u128) -> (us: u64)
    ensures
        us == us_between(earlier, later),
{
    as_micros(nanos_between(earlier, later))
}

/// What the acquisition of the write lock changes: the counters of its site.
pub open spec fn wtables_acquired(
    before: RoutingDiag,
    site: WTableSite,
    wait_us: u64,
    after: RoutingDiag,
) -> bool {
    &&& after == (RoutingDiag { wtables: after.wtables, ..before })
    &&& after.wtables@ == before.wtables@.update(site.ordinal(), after.wtables@[site.ordinal()])
    &&& before.wtables@[site.ordinal()].waited(wait_us, after.wtables@[site.ordinal()])
}

/// What the release of the write lock changes: the counters of its site.
pub open spec fn wtables_released(
    before: RoutingDiag,
    site: WTableSite,
    hold_us: u64,
    after: RoutingDiag,
) -> bool {
    &&& after == (RoutingDiag { wtables: after.wtables, ..before })
    &&& after.wtables@ == before.wtables@.update(
        site.ordinal(),
        before.wtables@[site.ordinal()].held(hold_us),
    )
}

/// What the acquisition of the control lock changes: the counters of its site.
pub open spec fn ctrl_lock_acquired(
    before: RoutingDiag,
    site: CtrlLockSite,
    wait_us: u64,
    after: RoutingDiag,
) -> bool {
    &&& after == (RoutingDiag { ctrl_lock: after.ctrl_lock, ..before })
    &&& after.ctrl_lock@ == before.ctrl_lock@.update(
        site.ordinal(),
        after.ctrl_lock@[site.ordinal()],
    )
    &&& before.ctrl_lock@[site.ordinal()].waited(wait_us, after.ctrl_lock@[site.ordinal()])
}

/// What the release of the control lock changes: the counters of its site.
pub open spec fn ctrl_lock_released(
    before: RoutingDiag,
    site: CtrlLockSite,
    hold_us: u64,
    after: RoutingDiag,
) -> bool {
    &&& after == (RoutingDiag { ctrl_lock: after.ctrl_lock, ..before })
    &&& after.ctrl_lock@ == before.ctrl_lock@.update(
        site.ordinal(),
        before.ctrl_lock@[site.ordinal()].held(hold_us),
    )
}

/// Times the wait for the write lock on the tables and how long it is held.
#[derive(Clone, Copy, PartialEq, Eq, Structural, Debug)]
pub struct WTableTimer {
    pub site: WTableSite,
    pub acquired_at: u128,
    pub released: bool,
}

/// A release at `now` is counted, unless one was counted before.
pub open spec fn wtable_release(
    timer: WTableTimer,
    diag: RoutingDiag,
    now: u128,
    timer_after: WTableTimer,
    diag_after: RoutingDiag,
) -> bool {
    &&& timer_after == (WTableTimer { released: true, ..timer })
    &&& if timer.released {
        diag_after == diag
    } else {
        wtables_released(diag, timer.site, us_between(timer.acquired_at, now), diag_after)
    }
}

impl WTableTimer {
    /// Made after the lock was acquired at `now`; `pre_acquire` is the time before that.
    pub fn new_at(
        diag: &mut RoutingDiag,
        site: WTableSite,
        pre_acquire: u128,
        now: u128,
    ) -> (timer: WTableTimer)
        ensures
            timer == (WTableTimer { site, acquired_at: now, released: false }),
            wtables_acquired(*old(diag), site, us_between(pre_acquire, now), *final(diag)),
    {
        diag.record_wtables_wait(site, elapsed_us(pre_acquire, now));
        WTableTimer { site, acquired_at: now, released: false }
    }

    /// Made after the lock was acquired; `pre_acquire` is the time before that.
    pub fn new(
        diag: &mut RoutingDiag,
        clock: &Clock,
        site: WTableSite,
        pre_acquire: u128,
    ) -> (timer: WTableTimer)
        ensures
            timer == (WTableTimer { site, acquired_at: timer.acquired_at, released: false }),
            clock.reads(timer.acquired_at),
            wtables_acquired(
                *old(diag),
                site,
                us_between(pre_acquire, timer.acquired_at),
                *final(diag),
            ),
    {
        let now: u128 = clock.now();
        WTableTimer::new_at(diag, site, pre_acquire, now)
    }

    /// Counts the release of the lock at `now`, unless it was counted before.
    pub fn release_at(&mut self, diag: &mut RoutingDiag, now: u128)
        ensures
            wtable_release(*old(self), *old(diag), now, *final(self), *final(diag)),
    {
        if self.released {
            return;
        }
        diag.record_wtables_hold(self.site, elapsed_us(self.acquired_at, now));
        self.released = true;
    }

    /// Counts the release of the lock, unless it was counted before.
    pub fn release(&mut self, diag: &mut RoutingDiag, clock: &Clock)
        ensures
            exists|now: u128| #[trigger]
                wtable_release(*old(self), *old(diag), now, *final(self), *final(diag))
                    && clock.reads(now),
    {
        let now: u128 = clock.now();
        self.release_at(diag, now);
    }
}

/// Times the wait for the control lock and how long it is held.
#[derive(Clone, Copy, PartialEq, Eq, Structural, Debug)]
pub struct CtrlLockTimer {
    pub site: CtrlLockSite,
    pub acquired_at: u128,
    pub released: bool,
}

/// A release at `now` is counted, unless one was counted before.
pub open spec fn ctrl_lock_release(
    timer: CtrlLockTimer,
    diag: RoutingDiag,
    now: u128,
    timer_after: CtrlLockTimer,
    diag_after: RoutingDiag,
) -> bool {
    &&& timer_after == (CtrlLockTimer { released: true, ..timer })
    &&& if timer.released {
        diag_after == diag
    } else {
        ctrl_lock_released(diag, timer.site, us_between(timer.acquired_at, now), diag_after)
    }
}

impl CtrlLockTimer {
    /// Made after the lock was acquired at `now`; `pre_acquire` is the time before that.
    pub fn new_at(
        diag: &mut RoutingDiag,
        site: CtrlLockSite,
        pre_acquire: u128,
        now: u128,
    ) -> (timer: CtrlLockTimer)
        ensures
            timer == (CtrlLockTimer { site, acquired_at: now, released: false }),
            ctrl_lock_acquired(*old(diag), site, us_between(pre_acquire, now), *final(diag)),
    {
        diag.record_ctrl_lock_wait(site, elapsed_us(pre_acquire, now));
        CtrlLockTimer { site, acquired_at: now, released: false }
    }

    /// Made after the lock was acquired; `pre_acquire` is the time before that.
    pub fn new(
        diag: &mut RoutingDiag,
        clock: &Clock,
        site: CtrlLockSite,
        pre_acquire: u128,
    ) -> (timer: CtrlLockTimer)
        ensures
            timer == (CtrlLockTimer { site, acquired_at: timer.acquired_at, released: false }),
            clock.reads(timer.acquired_at),
            ctrl_lock_acquired(
                *old(diag),
                site,
                us_between(pre_acquire, timer.acquired_at),
                *final(diag),
            ),
    {
        let now: u128 = clock.now();
        CtrlLockTimer::new_at(diag, site, pre_acquire, now)
    }

    /// Counts the release of the lock at `now`, unless it was counted before.
    pub fn release_at(&mut self, diag: &mut RoutingDiag, now: u128)
        ensures
            ctrl_lock_release(*old(self), *old(diag), now, *final(self), *final(diag)),
    {
        if self.released {
            return;
        }
        diag.record_ctrl_lock_hold(self.site, elapsed_us(self.acquired_at, now));
        self.released = true;
    }

    /// Counts the release of the lock, unless it was counted before.
    pub fn release(&mut self, diag: &mut RoutingDiag, clock: &Clock)
        ensures
            exists|now: u128| #[trigger]
                ctrl_lock_release(*old(self), *old(diag), now, *final(self), *final(diag))
                    && clock.reads(now),
    {
        let now: u128 = clock.now();
        self.release_at(diag, now);
    }
}

/// Times the computation of a data route.
#[derive(Clone, Copy, PartialEq, Eq, Structural, Debug)]
pub struct ComputeDataRouteTimer {
    pub start: u128,
}

impl ComputeDataRouteTimer {
    /// Starts the timer at `now`.
    pub fn start_at(now: u128) -> (timer: ComputeDataRouteTimer)
        ensures
            timer.start == now,
    {
        ComputeDataRouteTimer { start: now }
    }

    /// Starts the timer. Its start is the time of the call.
    pub fn start(clock: &Clock) -> (timer: ComputeDataRouteTimer)
        ensures
            clock.reads(timer.start),
    {
        let now: u128 = clock.now();
        ComputeDataRouteTimer::start_at(now)
    }

    /// Counts the computation, which ended at `now`.
    pub fn finish_at(self, diag: &mut RoutingDiag, now: u128)
        ensures
            *final(diag) == (RoutingDiag {
                compute_data_route: old(diag).compute_data_route.recorded(
                    us_between(self.start, now),
                ),
                ..*old(diag)
            }),
    {
        diag.record_compute_data_route(elapsed_us(self.start, now));
    }

    /// Counts the computation.
    pub fn finish(self, diag: &mut RoutingDiag, clock: &Clock)
        ensures
            exists|now: u128| #[trigger]
                clock.reads(now) && *final(diag) == (RoutingDiag {
                    compute_data_route: old(diag).compute_data_route.recorded(
                        us_between(self.start, now),
                    ),
                    ..*old(diag)
                }),
    {
        let now: u128 = clock.now();
        self.finish_at(diag, now);
    }
}

/// Times the wait for the read lock on the tables and what follows. The second time runs until the
/// end of the operation, past the release of the lock.
#[derive(Clone, Copy, PartialEq, Eq, Structural, Debug)]
pub struct RTableTimer {
    pub start: u128,
    pub acquired_at: Option<u128>,
}

impl RTableTimer {
    /// Starts the timer at `now`, before the lock is acquired.
    pub fn start_at(now: u128) -> (timer: RTableTimer)
        ensures
            timer == (RTableTimer { start: now, acquired_at: None }),
    {
        RTableTimer { start: now, acquired_at: None }
    }

    /// Starts the timer, before the lock is acquired.
    pub fn start(clock: &Clock) -> (timer: RTableTimer)
        ensures
            timer.acquired_at is None,
            clock.reads(timer.start),
    {
        let now: u128 = clock.now();
        RTableTimer::start_at(now)
    }

    /// Counts the acquisition of the lock at `now`.
    pub fn acquire_at(&mut self, diag: &mut RoutingDiag, now: u128)
        ensures
            *final(self) == (RTableTimer { acquired_at: Some(now), ..*old(self) }),
            *final(diag) == (RoutingDiag { rtables: final(diag).rtables, ..*old(diag) }),
            old(diag).rtables.waited(us_between(old(self).start, now), final(diag).rtables),
    {
        diag.record_rtables_wait(elapsed_us(self.start, now));
        self.acquired_at = Some(now);
    }

    /// Counts the acquisition of the lock.
    pub fn acquired(&mut self, diag: &mut RoutingDiag, clock: &Clock)
        ensures
            final(self).start == old(self).start,
            final(self).acquired_at is Some,
            clock.reads(final(self).acquired_at->0),
            *final(diag) == (RoutingDiag { rtables: final(diag).rtables, ..*old(diag) }),
            old(diag).rtables.waited(
                us_between(old(self).start, final(self).acquired_at->0),
                final(diag).rtables,
            ),
    {
        let now: u128 = clock.now();
        self.acquire_at(diag, now);
    }

    /// Counts the end of the operation at `now`, if the lock was acquired.
    pub fn finish_at(self, diag: &mut RoutingDiag, now: u128)
        ensures
            *final(diag) == match self.acquired_at {
                Some(at) => RoutingDiag {
                    rtables: old(diag).rtables.held(us_between(at, now)),
                    ..*old(diag)
                },
                None => *old(diag),
            },
    {
        if let Some(at) = self.acquired_at {
            diag.record_rtables_hold(elapsed_us(at, now));
        }
    }

    /// Counts the end of the operation, if the lock was acquired.
    pub fn finish(self, diag: &mut RoutingDiag, clock: &Clock)
        ensures
            match self.acquired_at {
                Some(at) => exists|now: u128| #[trigger]
                    clock.reads(now) && *final(diag) == (RoutingDiag {
                        rtables: old(diag).rtables.held(us_between(at, now)),
                        ..*old(diag)
                    }),
                None => *final(diag) == *old(diag),
            },
    {
        if self.acquired_at.is_none() {
            return;
        }
        let now: u128 = clock.now();
        self.finish_at(diag, now);
    }
}

/// A release of the write lock is counted once: a second one changes nothing.
pub proof fn second_wtable_release_is_ignored(
    timer: WTableTimer,
    diag: RoutingDiag,
    now: u128,
    timer_after: WTableTimer,
    diag_after: RoutingDiag,
    later: u128,
    timer_last: WTableTimer,
    diag_last: RoutingDiag,
)
    requires
        wtable_release(timer, diag, now, timer_after, diag_after),
        wtable_release(timer_after, diag_after, later, timer_last, diag_last),
    ensures
        timer_last == timer_after,
        diag_last == diag_after,
{
}

/// A release of the control lock is counted once: a second one changes nothing.
pub proof fn second_ctrl_lock_release_is_ignored(
    timer: CtrlLockTimer,
    diag: RoutingDiag,
    now: u128,
    timer_after: CtrlLockTimer,
    diag_after: RoutingDiag,
    later: u128,
    timer_last: CtrlLockTimer,
    diag_last: RoutingDiag,
)
    requires
        ctrl_lock_release(timer, diag, now, timer_after, diag_after),
        ctrl_lock_release(timer_after, diag_after, later, timer_last, diag_last),
    ensures
        timer_last == timer_after,
        diag_last == diag_after,
{
}

/// The time between two points is at most a microsecond longer than what is counted, as long as it
/// can be expressed.
pub proof fn counted_time_is_elapsed_time(earlier: u128, later: u128)
    requires
        earlier <= later,
        (later - earlier) / 1_000 <= u64::MAX,
    ensures
        earlier + us_between(earlier, later) * 1_000 <= later,
        later < earlier + (us_between(earlier, later) + 1) * 1_000,
{
}

/// Acquisition and release count at the site where the lock is taken and nowhere else, the wait
/// apart from the hold.
pub proof fn lock_is_counted_at_its_site(
    before: RoutingDiag,
    site: WTableSite,
    wait_us: u64,
    acquired: RoutingDiag,
    hold_us: u64,
    released: RoutingDiag,
    other: int,
)
    requires
        wtables_acquired(before, site, wait_us, acquired),
        wtables_released(acquired, site, hold_us, released),
        0 <= other < 5,
        other != site.ordinal(),
    ensures
        released.wtables@[other] == before.wtables@[other],
        released.wtables@[site.ordinal()].count == before.wtables@[site.ordinal()].count.wrapping_add(
            1,
        ),
        released.wtables@[site.ordinal()].wait_total_us
            == before.wtables@[site.ordinal()].wait_total_us.wrapping_add(wait_us),
        released.wtables@[site.ordinal()].hold_total_us
            == before.wtables@[site.ordinal()].hold_total_us.wrapping_add(hold_us),
        released.ctrl_lock == before.ctrl_lock,
        released.rtables == before.rtables,
{
}

/// The same holds of the control lock.
pub proof fn ctrl_lock_is_counted_at_its_site(
    before: RoutingDiag,
    site: CtrlLockSite,
    wait_us: u64,
    acquired: RoutingDiag,
    hold_us: u64,
    released: RoutingDiag,
    other: int,
)
    requires
        ctrl_lock_acquired(before, site, wait_us, acquired),
        ctrl_lock_released(acquired, site, hold_us, released),
        0 <= other < 6,
        other != site.ordinal(),
    ensures
        released.ctrl_lock@[other] == before.ctrl_lock@[other],
        released.ctrl_lock@[site.ordinal()].count
            == before.ctrl_lock@[site.ordinal()].count.wrapping_add(1),
        released.ctrl_lock@[site.ordinal()].wait_total_us
            == before.ctrl_lock@[site.ordinal()].wait_total_us.wrapping_add(wait_us),
        released.ctrl_lock@[site.ordinal()].hold_total_us
            == before.ctrl_lock@[site.ordinal()].hold_total_us.wrapping_add(hold_us),
        released.wtables == before.wtables,
        released.rtables == before.rtables,
{
}

/// A lock is counted as held from its acquisition to its first release.
pub proof fn hold_lasts_until_the_release(
    timer: WTableTimer,
    diag: RoutingDiag,
    now: u128,
    timer_after: WTableTimer,
    diag_after: RoutingDiag,
)
    requires
        !timer.released,
        timer.acquired_at <= now,
        wtable_release(timer, diag, now, timer_after, diag_after),
    ensures
        timer_after.released,
        diag_after.wtables@[timer.site.ordinal()] == diag.wtables@[timer.site.ordinal()].held(
            micros_of((now - timer.acquired_at) as u128),
        ),
{
}

/// A control lock is counted as held from its acquisition to its first release.
pub proof fn ctrl_lock_hold_lasts_until_the_release(
    timer: CtrlLockTimer,
    diag: RoutingDiag,
    now: u128,
    timer_after: CtrlLockTimer,
    diag_after: RoutingDiag,
)
    requires
        !timer.released,
        timer.acquired_at <= now,
        ctrl_lock_release(timer, diag, now, timer_after, diag_after),
    ensures
        timer_after.released,
        diag_after.ctrl_lock@[timer.site.ordinal()] == diag.ctrl_lock@[timer.site.ordinal()].held(
            micros_of((now - timer.acquired_at) as u128),
        ),
{
}

} // verus!
