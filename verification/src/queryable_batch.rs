//! Batching of queryable propagations.
//!
//! The queue keeps the latest pending operation of each resource and says when the batch is due:
//! when it is full, or when the flush interval has passed. The interval is longer under high load.
//!
//! Every operation that reads the clock has a counterpart that takes the reading as an argument
//! and says exactly what becomes of it. Times are nanoseconds since the queue was made.

use std::sync::Arc;

use vstd::prelude::*;

use crate::clock::nanos_between;
#[allow(unused_imports)]
use crate::clock::span_between;
use crate::clock::Clock;
use crate::clock::Reading;
use crate::clock::MAX_SPAN;
use crate::clock::NANOS_PER_MILLI;
use crate::clock::NANOS_PER_SEC;

verus! {

/// A resource, known by its key expression.
#[derive(Clone, Debug)]
pub struct Resource {
    pub expr: String,
}

impl Resource {
    /// The resource of a key expression.
    pub fn new(expr: String) -> (resource: Resource)
        ensures
            resource.expr@ == expr@,
    {
        Resource { expr }
    }

    /// The key expression.
    pub fn expr(&self) -> (expr: &str)
        ensures
            expr@ == self.expr@,
    {
        self.expr.as_str()
    }
}

/// Type of propagation operation.
#[derive(Debug, Clone, Copy, PartialEq, Eq, Structural)]
pub enum PropagationType {
    /// Remove then insert (double propagate for undeclare with remaining queryables).
    ForgetThenDeclare,
    /// Only forget (undeclare with no remaining queryables).
    ForgetOnly,
}

/// Entry in the batch queue.
#[derive(Clone, Debug)]
pub struct BatchEntry {
    pub resource: Arc<Resource>,
    pub operation: PropagationType,
    pub enqueued_at: u128,
}

impl BatchEntry {
    /// The key expression that the entry is pending for.
    pub open spec fn key(self) -> Seq<char> {
        self.resource.expr@
    }
}

/// Adaptive batching configuration. Spans of time are in nanoseconds.
#[derive(Debug, Clone, Copy, PartialEq, Eq, Structural)]
pub struct BatchConfig {
    /// High-load flush interval (during startup storms).
    pub high_load_interval: u128,
    /// Normal flush interval (during steady state).
    pub normal_interval: u128,
    /// Threshold to switch to high-load mode (events per second).
    pub high_load_threshold: usize,
    /// Maximum batch size before forced flush.
    pub max_batch_size: usize,
    /// Time window for calculating event rate.
    pub rate_window: u128,
}

impl BatchConfig {
    /// The spans can be expressed as durations.
    pub open spec fn wf(self) -> bool {
        &&& self.high_load_interval <= MAX_SPAN
        &&& self.normal_interval <= MAX_SPAN
        &&& self.rate_window <= MAX_SPAN
    }

    /// High load: 100 ms. Normal: 10 ms. More than 50 events in one second are high load. At most
    /// 100 resources wait.
    pub open spec fn standard() -> BatchConfig {
        BatchConfig {
            high_load_interval: 100_000_000,
            normal_interval: 10_000_000,
            high_load_threshold: 50,
            max_batch_size: 100,
            rate_window: 1_000_000_000,
        }
    }
}

impl Default for BatchConfig {
    fn default() -> (config: Self)
        ensures
            config == BatchConfig::standard(),
            config.wf(),
    {
        BatchConfig {
            high_load_interval: 100 * NANOS_PER_MILLI,
            normal_interval: 10 * NANOS_PER_MILLI,
            high_load_threshold: 50,
            max_batch_size: 100,
            rate_window: NANOS_PER_SEC,
        }
    }
}

/// Batch queue statistics.
#[derive(Debug, Clone, Copy, PartialEq, Eq, Structural)]
pub struct BatchStats {
    pub pending: usize,
    /// Events per second.
    pub rate: usize,
    pub high_load: bool,
    pub total_enqueued: usize,
    pub total_flushes: usize,
    pub current_interval: u128,
}

/// The abstract queue.
pub struct BatchModel {
    /// The pending operation of each key expression.
    pub pending: Map<Seq<char>, BatchEntry>,
    pub config: BatchConfig,
    /// The clock that all times of the queue are read from.
    pub clock: Clock,
    /// When the last batch was taken, or the queue was made.
    pub last_flush: u128,
    /// When the events of the rate window happened.
    pub recent_events: Seq<u128>,
    pub total_enqueued: usize,
    pub total_flushes: usize,
}

/// The events that happened at `cutoff` or later.
pub open spec fn since(events: Seq<u128>, cutoff: u128) -> Seq<u128> {
    events.filter(|t: u128| t >= cutoff)
}

/// The events per second, rounded down, of `count` events in a window of `window` nanoseconds. In a
/// window without extent it is their number.
pub open spec fn per_second(count: nat, window: u128) -> nat {
    if window == 0 {
        count
    } else {
        count * (NANOS_PER_SEC as nat) / (window as nat)
    }
}

/// A number, as far as it can be expressed.
pub open spec fn capped(n: nat) -> usize {
    if n <= usize::MAX {
        n as usize
    } else {
        usize::MAX
    }
}

impl BatchModel {
    /// The number of events in the window that ends at the reading.
    pub open spec fn events_in_window(self, at: Reading) -> nat {
        since(self.recent_events, at.before(self.config.rate_window)).len()
    }

    /// The events per second in the window that ends at the reading.
    pub open spec fn rate(self, at: Reading) -> nat {
        per_second(self.events_in_window(at), self.config.rate_window)
    }

    /// More events per second than the threshold.
    pub open spec fn high_load(self, at: Reading) -> bool {
        self.rate(at) > self.config.high_load_threshold
    }

    /// The flush interval under the load at the reading.
    pub open spec fn interval(self, at: Reading) -> u128 {
        if self.high_load(at) {
            self.config.high_load_interval
        } else {
            self.config.normal_interval
        }
    }

    /// The batch is due at `now`, under the load at the reading `load`: there is something pending,
    /// and there is too much of it or the flush interval has passed.
    pub open spec fn flush_due(self, now: u128, load: Reading) -> bool {
        &&& self.pending.len() > 0
        &&& {
            ||| self.pending.len() >= self.config.max_batch_size
            ||| span_between(self.last_flush, now) >= self.interval(load)
        }
    }

    /// The queue after an operation was enqueued.
    pub open spec fn enqueued(
        self,
        resource: Arc<Resource>,
        operation: PropagationType,
        at: Reading,
    ) -> BatchModel {
        BatchModel {
            pending: self.pending.insert(
                resource.expr@,
                BatchEntry { resource, operation, enqueued_at: at.now },
            ),
            recent_events: since(
                self.recent_events.push(at.now),
                at.before(self.config.rate_window),
            ),
            total_enqueued: (self.total_enqueued + 1) as usize,
            ..self
        }
    }

    /// The queue after the batch was taken.
    pub open spec fn flushed(self, now: u128) -> BatchModel {
        BatchModel {
            pending: Map::empty(),
            last_flush: now,
            total_flushes: (self.total_flushes + 1) as usize,
            ..self
        }
    }

    /// The statistics, where the rate, the load and the interval are read one after the other.
    pub open spec fn stats(self, rate: Reading, load: Reading, interval: Reading) -> BatchStats {
        BatchStats {
            pending: self.pending.len() as usize,
            rate: capped(self.rate(rate)),
            high_load: self.high_load(load),
            total_enqueued: self.total_enqueued,
            total_flushes: self.total_flushes,
            current_interval: self.interval(interval),
        }
    }
}

/// The entries of a batch are those of the map, each once, in any order.
pub open spec fn lists(entries: Seq<BatchEntry>, pending: Map<Seq<char>, BatchEntry>) -> bool {
    &&& entries.len() == pending.len()
    &&& forall|i: int|
        0 <= i < entries.len() ==> pending.contains_pair(
            (#[trigger] entries[i]).key(),
            entries[i],
        )
    &&& forall|k: Seq<char>| #[trigger]
        pending.contains_key(k) ==> exists|i: int|
            0 <= i < entries.len() && (#[trigger] entries[i]).key() == k
}

/// No two entries are for the same key expression.
spec fn distinct(entries: Seq<BatchEntry>) -> bool {
    forall|i: int, j: int|
        0 <= i < j < entries.len() ==> (#[trigger] entries[i]).key() != (
        #[trigger] entries[j]).key()
}

/// The entries by key expression.
spec fn by_key(entries: Seq<BatchEntry>) -> Map<Seq<char>, BatchEntry>
    decreases entries.len(),
{
    if entries.len() == 0 {
        Map::empty()
    } else {
        by_key(entries.drop_last()).insert(entries.last().key(), entries.last())
    }
}

proof fn by_key_holds(entries: Seq<BatchEntry>)
    requires
        distinct(entries),
    ensures
        lists(entries, by_key(entries)),
        by_key(entries).dom().finite(),
    decreases entries.len(),
{
    if entries.len() > 0 {
        let rest = entries.drop_last();
        let last = entries.last();
        by_key_holds(rest);
        let map = by_key(entries);
        assert(!by_key(rest).contains_key(last.key())) by {
            if by_key(rest).contains_key(last.key()) {
                let i = choose|i: int| 0 <= i < rest.len() && (#[trigger] rest[i]).key() == last.key();
                assert(entries[i].key() != entries[entries.len() - 1].key());
            }
        }
        assert forall|i: int| 0 <= i < entries.len() implies map.contains_pair(
            (#[trigger] entries[i]).key(),
            entries[i],
        ) by {
            if i < rest.len() {
                assert(rest[i] == entries[i]);
                assert(by_key(rest).contains_pair(rest[i].key(), rest[i]));
            }
        }
        assert forall|k: Seq<char>| #[trigger] map.contains_key(k) implies exists|i: int|
            0 <= i < entries.len() && (#[trigger] entries[i]).key() == k by {
            if k == last.key() {
                assert(entries[entries.len() - 1].key() == k);
            } else {
                assert(by_key(rest).contains_key(k));
                let i = choose|i: int| 0 <= i < rest.len() && (#[trigger] rest[i]).key() == k;
                assert(entries[i].key() == k);
            }
        }
    }
}

proof fn by_key_after_update(entries: Seq<BatchEntry>, i: int, entry: BatchEntry)
    requires
        distinct(entries),
        0 <= i < entries.len(),
        entries[i].key() == entry.key(),
    ensures
        distinct(entries.update(i, entry)),
        by_key(entries.update(i, entry)) == by_key(entries).insert(entry.key(), entry),
{
    let after = entries.update(i, entry);
    assert(distinct(after));
    by_key_holds(entries);
    by_key_holds(after);
    let map = by_key(entries).insert(entry.key(), entry);
    assert forall|k: Seq<char>| by_key(after).contains_key(k) <==> map.contains_key(k) by {
        if by_key(after).contains_key(k) {
            let j = choose|j: int| 0 <= j < after.len() && (#[trigger] after[j]).key() == k;
            assert(by_key(entries).contains_pair(entries[j].key(), entries[j]));
        }
        if map.contains_key(k) {
            if k == entry.key() {
                assert(by_key(after).contains_pair(after[i].key(), after[i]));
            } else {
                let j = choose|j: int| 0 <= j < entries.len() && (#[trigger] entries[j]).key() == k;
                assert(by_key(after).contains_pair(after[j].key(), after[j]));
            }
        }
    }
    assert forall|k: Seq<char>| by_key(after).contains_key(k) implies by_key(after)[k]
        == map[k] by {
        let j = choose|j: int| 0 <= j < after.len() && (#[trigger] after[j]).key() == k;
        assert(by_key(after).contains_pair(after[j].key(), after[j]));
        if j != i {
            assert(by_key(entries).contains_pair(entries[j].key(), entries[j]));
            assert(entries[j].key() != entries[i].key());
        }
    }
    assert(by_key(after) =~= map);
}

/// Queryable propagation batch queue.
pub struct QueryableBatchQueue {
    /// Pending operations, one for each resource expression.
    pending: Vec<BatchEntry>,
    config: BatchConfig,
    clock: Clock,
    last_flush: u128,
    /// Event timestamps for rate calculation.
    recent_events: Vec<u128>,
    total_enqueued: usize,
    total_flushes: usize,
}

impl View for QueryableBatchQueue {
    type V = BatchModel;

    closed spec fn view(&self) -> BatchModel {
        BatchModel {
            pending: by_key(self.pending@),
            config: self.config,
            clock: self.clock,
            last_flush: self.last_flush,
            recent_events: self.recent_events@,
            total_enqueued: self.total_enqueued,
            total_flushes: self.total_flushes,
        }
    }
}

impl QueryableBatchQueue {
    /// One entry is pending for each resource, and the spans can be expressed.
    pub closed spec fn wf(&self) -> bool {
        &&& distinct(self.pending@)
        &&& self.config.wf()
    }

    /// An empty queue, made now.
    pub fn new(config: BatchConfig) -> (queue: Self)
        requires
            config.wf(),
        ensures
            queue.wf(),
            queue@.pending == Map::<Seq<char>, BatchEntry>::empty(),
            queue@.config == config,
            queue@.recent_events == Seq::<u128>::empty(),
            queue@.total_enqueued == 0,
            queue@.total_flushes == 0,
            queue@.clock.begun(),
            queue@.clock.reads(queue@.last_flush),
    {
        let clock = Clock::new();
        let last_flush: u128 = clock.now();
        QueryableBatchQueue {
            pending: Vec::new(),
            config,
            clock,
            last_flush,
            recent_events: Vec::new(),
            total_enqueued: 0,
            total_flushes: 0,
        }
    }

    /// An empty queue with the standard configuration, made now.
    pub fn with_default_config() -> (queue: Self)
        ensures
            queue.wf(),
            queue@.pending == Map::<Seq<char>, BatchEntry>::empty(),
            queue@.config == BatchConfig::standard(),
            queue@.recent_events == Seq::<u128>::empty(),
            queue@.total_enqueued == 0,
            queue@.total_flushes == 0,
            queue@.clock.begun(),
            queue@.clock.reads(queue@.last_flush),
    {
        QueryableBatchQueue::new(BatchConfig::default())
    }

    /// Enqueues an operation at the given time, in place of one that is pending for the resource.
    pub fn enqueue_at(
        &mut self,
        resource: Arc<Resource>,
        operation: PropagationType,
        at: Reading,
    )
        requires
            old(self).wf(),
            old(self)@.total_enqueued < usize::MAX,
        ensures
            final(self).wf(),
            final(self)@ == old(self)@.enqueued(resource, operation, at),
    {
        let ghost before = self.pending@;
        let entry = BatchEntry { resource, operation, enqueued_at: at.now };
        let mut i: usize = 0;
        while i < self.pending.len() && self.pending[i].resource.expr != entry.resource.expr
            invariant
                i <= self.pending.len(),
                forall|j: int| 0 <= j < i ==> (#[trigger] self.pending@[j]).key() != entry.key(),
            decreases self.pending.len() - i,
        {
            i = i + 1;
        }
        let ghost added = entry;
        if i < self.pending.len() {
            proof {
                by_key_after_update(before, i as int, added);
            }
            self.pending[i] = entry;
        } else {
            self.pending.push(entry);
            assert(self.pending@.drop_last() =~= before);
        }
        self.recent_events.push(at.now);
        self.total_enqueued = self.total_enqueued + 1;
        let cutoff: u128 = at.minus(self.config.rate_window);
        let recent: Vec<u128> = self.events_since(cutoff);
        self.recent_events = recent;
    }

    /// Enqueues an operation now, in place of one that is pending for the resource.
    pub fn enqueue(&mut self, resource: Arc<Resource>, operation: PropagationType)
        requires
            old(self).wf(),
            old(self)@.total_enqueued < usize::MAX,
        ensures
            final(self).wf(),
            exists|at: Reading|
                final(self)@ == #[trigger] old(self)@.enqueued(resource, operation, at) && old(
                    self,
                )@.clock.looks_back(old(self)@.config.rate_window, at),
    {
        let at = self.clock.read(self.config.rate_window);
        self.enqueue_at(resource, operation, at);
    }

    fn events_since(&self, cutoff: u128) -> (recent: Vec<u128>)
        ensures
            recent@ == since(self.recent_events@, cutoff),
    {
        let mut recent: Vec<u128> = Vec::new();
        let mut i: usize = 0;
        let ghost keeps = |t: u128| t >= cutoff;
        assert(self.recent_events@.take(0) =~= Seq::<u128>::empty());
        reveal(Seq::filter);
        while i < self.recent_events.len()
            invariant
                i <= self.recent_events.len(),
                keeps == (|t: u128| t >= cutoff),
                recent@ == self.recent_events@.take(i as int).filter(keeps),
            decreases self.recent_events.len() - i,
        {
            let ghost events = self.recent_events@;
            assert(events.take(i + 1).drop_last() =~= events.take(i as int));
            reveal(Seq::filter);
            let t: u128 = self.recent_events[i];
            if t >= cutoff {
                recent.push(t);
            }
            i = i + 1;
        }
        assert(self.recent_events@.take(i as int) =~= self.recent_events@);
        recent
    }

    fn per_second_at(&self, at: Reading) -> (rate: u128)
        ensures
            rate == self@.rate(at),
    {
        if self.recent_events.len() == 0 {
            reveal(Seq::filter);
            if self.config.rate_window != 0 {
                assert(0nat / (self.config.rate_window as nat) == 0) by (nonlinear_arith)
                    requires
                        self.config.rate_window != 0,
                ;
            }
            return 0;
        }
        let cutoff: u128 = at.minus(self.config.rate_window);
        let count: u128 = self.events_since(cutoff).len() as u128;
        if self.config.rate_window == 0 {
            count
        } else {
            count * NANOS_PER_SEC / self.config.rate_window
        }
    }

    /// The events per second in the window that ends at the reading.
    pub fn rate_at(&self, at: Reading) -> (rate: usize)
        ensures
            rate == capped(self@.rate(at)),
    {
        let rate: u128 = self.per_second_at(at);
        if rate <= usize::MAX as u128 {
            rate as usize
        } else {
            usize::MAX
        }
    }

    /// The events per second in the window that ends now.
    pub fn calculate_rate(&self) -> (rate: usize)
        requires
            self.wf(),
        ensures
            exists|at: Reading|
                rate == capped(#[trigger] self@.rate(at)) && self@.clock.looks_back(
                    self@.config.rate_window,
                    at,
                ),
    {
        let at = self.clock.read(self.config.rate_window);
        self.rate_at(at)
    }

    /// Whether the load at the reading is high.
    pub fn is_high_load_at(&self, at: Reading) -> (high: bool)
        ensures
            high == self@.high_load(at),
    {
        self.per_second_at(at) > self.config.high_load_threshold as u128
    }

    /// Whether the load is high.
    pub fn is_high_load(&self) -> (high: bool)
        requires
            self.wf(),
        ensures
            exists|at: Reading|
                high == #[trigger] self@.high_load(at) && self@.clock.looks_back(
                    self@.config.rate_window,
                    at,
                ),
    {
        let at = self.clock.read(self.config.rate_window);
        self.is_high_load_at(at)
    }

    /// Whether the batch should be flushed at `now`, under the load at the reading `load`.
    pub fn should_flush_at(&self, now: u128, load: Reading) -> (due: bool)
        requires
            self.wf(),
        ensures
            due == self@.flush_due(now, load),
    {
        proof {
            by_key_holds(self.pending@);
        }
        if self.pending.len() == 0 {
            return false;
        }
        if self.pending.len() >= self.config.max_batch_size {
            return true;
        }
        nanos_between(self.last_flush, now) >= self.current_flush_interval_at(load)
    }

    /// Whether the batch should be flushed now.
    pub fn should_flush(&self) -> (due: bool)
        requires
            self.wf(),
        ensures
            exists|now: u128, load: Reading|
                due == #[trigger] self@.flush_due(now, load) && self@.clock.reads(now)
                    && self@.clock.looks_back(self@.config.rate_window, load),
    {
        let now: u128 = self.clock.now();
        let load = self.clock.read(self.config.rate_window);
        self.should_flush_at(now, load)
    }

    /// The flush interval under the load at the reading.
    pub fn current_flush_interval_at(&self, at: Reading) -> (interval: u128)
        ensures
            interval == self@.interval(at),
    {
        if self.is_high_load_at(at) {
            self.config.high_load_interval
        } else {
            self.config.normal_interval
        }
    }

    /// The flush interval under the current load.
    pub fn current_flush_interval(&self) -> (interval: u128)
        requires
            self.wf(),
        ensures
            exists|at: Reading|
                interval == #[trigger] self@.interval(at) && self@.clock.looks_back(
                    self@.config.rate_window,
                    at,
                ),
    {
        let at = self.clock.read(self.config.rate_window);
        self.current_flush_interval_at(at)
    }

    /// Takes all pending entries at `now`, for flushing.
    pub fn take_pending_at(&mut self, now: u128) -> (entries: Vec<BatchEntry>)
        requires
            old(self).wf(),
            old(self)@.total_flushes < usize::MAX,
        ensures
            final(self).wf(),
            final(self)@ == old(self)@.flushed(now),
            lists(entries@, old(self)@.pending),
    {
        proof {
            by_key_holds(self.pending@);
        }
        self.last_flush = now;
        self.total_flushes = self.total_flushes + 1;
        let mut entries: Vec<BatchEntry> = Vec::new();
        std::mem::swap(&mut entries, &mut self.pending);
        entries
    }

    /// Takes all pending entries for flushing.
    pub fn take_pending(&mut self) -> (entries: Vec<BatchEntry>)
        requires
            old(self).wf(),
            old(self)@.total_flushes < usize::MAX,
        ensures
            final(self).wf(),
            exists|now: u128|
                final(self)@ == #[trigger] old(self)@.flushed(now) && old(self)@.clock.reads(now),
            lists(entries@, old(self)@.pending),
    {
        let now: u128 = self.clock.now();
        self.take_pending_at(now)
    }

    /// The statistics, where the rate, the load and the interval are read one after the other.
    pub fn stats_at(&self, rate: Reading, load: Reading, interval: Reading) -> (stats: BatchStats)
        requires
            self.wf(),
        ensures
            stats == self@.stats(rate, load, interval),
    {
        proof {
            by_key_holds(self.pending@);
        }
        BatchStats {
            pending: self.pending.len(),
            rate: self.rate_at(rate),
            high_load: self.is_high_load_at(load),
            total_enqueued: self.total_enqueued,
            total_flushes: self.total_flushes,
            current_interval: self.current_flush_interval_at(interval),
        }
    }

    /// The current statistics.
    pub fn stats(&self) -> (stats: BatchStats)
        requires
            self.wf(),
        ensures
            exists|rate: Reading, load: Reading, interval: Reading|
                {
                    &&& stats == #[trigger] self@.stats(rate, load, interval)
                    &&& self@.clock.looks_back(self@.config.rate_window, rate)
                    &&& self@.clock.looks_back(self@.config.rate_window, load)
                    &&& self@.clock.looks_back(self@.config.rate_window, interval)
                },
    {
        let rate = self.clock.read(self.config.rate_window);
        let load = self.clock.read(self.config.rate_window);
        let interval = self.clock.read(self.config.rate_window);
        self.stats_at(rate, load, interval)
    }
}

/// Two operations on one resource leave only the later one pending.
pub proof fn latest_operation_is_pending(
    queue: BatchModel,
    resource: Arc<Resource>,
    first: PropagationType,
    at: Reading,
    again: Arc<Resource>,
    second: PropagationType,
    later: Reading,
)
    requires
        resource.expr@ == again.expr@,
    ensures
        queue.enqueued(resource, first, at).enqueued(again, second, later).pending
            == queue.enqueued(again, second, later).pending,
{
    assert(queue.enqueued(resource, first, at).enqueued(again, second, later).pending
        =~= queue.enqueued(again, second, later).pending);
}

/// Operations on different resources are pending whatever their order.
pub proof fn different_resources_commute(
    queue: BatchModel,
    one: Arc<Resource>,
    first: PropagationType,
    at: Reading,
    other: Arc<Resource>,
    second: PropagationType,
    later: Reading,
)
    requires
        one.expr@ != other.expr@,
    ensures
        queue.enqueued(one, first, at).enqueued(other, second, later).pending == queue.enqueued(
            other,
            second,
            later,
        ).enqueued(one, first, at).pending,
{
    assert(queue.enqueued(one, first, at).enqueued(other, second, later).pending
        =~= queue.enqueued(other, second, later).enqueued(one, first, at).pending);
}

/// What was enqueued is in the next batch.
pub proof fn enqueued_operation_is_taken(
    queue: BatchModel,
    resource: Arc<Resource>,
    operation: PropagationType,
    at: Reading,
    entries: Seq<BatchEntry>,
)
    requires
        lists(entries, queue.enqueued(resource, operation, at).pending),
    ensures
        entries.contains(BatchEntry { resource, operation, enqueued_at: at.now }),
{
    let pending = queue.enqueued(resource, operation, at).pending;
    assert(pending.contains_key(resource.expr@));
    let i = choose|i: int| 0 <= i < entries.len() && (#[trigger] entries[i]).key() == resource.expr@;
    assert(pending.contains_pair(entries[i].key(), entries[i]));
}

/// A queue with nothing pending is never due, so a batch is not taken twice.
pub proof fn flushed_queue_is_not_due(queue: BatchModel, taken: u128, now: u128, load: Reading)
    ensures
        !queue.flushed(taken).flush_due(now, load),
{
}

/// A full batch is due at any time, under any load.
pub proof fn full_batch_is_due(queue: BatchModel, now: u128, load: Reading)
    requires
        queue.pending.len() > 0,
        queue.pending.len() >= queue.config.max_batch_size,
    ensures
        queue.flush_due(now, load),
{
}

proof fn since_is_within(events: Seq<u128>, cutoff: u128)
    ensures
        forall|i: int|
            0 <= i < since(events, cutoff).len() ==> #[trigger] since(events, cutoff)[i] >= cutoff,
        since(events, cutoff).len() <= events.len(),
    decreases events.len(),
{
    reveal(Seq::filter);
    if events.len() > 0 {
        since_is_within(events.drop_last(), cutoff);
    }
}

/// After an operation was enqueued, the queue remembers no event from before the window.
pub proof fn remembered_events_are_recent(
    queue: BatchModel,
    resource: Arc<Resource>,
    operation: PropagationType,
    at: Reading,
    i: int,
)
    requires
        0 <= i < queue.enqueued(resource, operation, at).recent_events.len(),
    ensures
        queue.enqueued(resource, operation, at).recent_events[i] >= at.before(
            queue.config.rate_window,
        ),
{
    since_is_within(queue.recent_events.push(at.now), at.before(queue.config.rate_window));
}

/// Forgetting the events from before one window does not change the events of a later one.
pub proof fn forgetting_keeps_later_events(events: Seq<u128>, cutoff: u128, later: u128)
    requires
        cutoff <= later,
    ensures
        since(since(events, cutoff), later) == since(events, later),
    decreases events.len(),
{
    reveal(Seq::filter);
    if events.len() > 0 {
        let rest = events.drop_last();
        let last = events.last();
        forgetting_keeps_later_events(rest, cutoff, later);
        if last >= cutoff {
            assert(since(events, cutoff).drop_last() =~= since(rest, cutoff));
        }
    }
}

proof fn per_second_is_monotone(few: nat, many: nat, window: u128)
    requires
        few <= many,
    ensures
        per_second(few, window) <= per_second(many, window),
{
    if window != 0 {
        let per = NANOS_PER_SEC as nat;
        let span = window as nat;
        assert(few * per / span <= many * per / span) by (nonlinear_arith)
            requires
                few <= many,
                span > 0,
        ;
    }
}

/// In a window of one second the rate is the number of events.
pub proof fn rate_of_one_second_is_count(queue: BatchModel, at: Reading)
    requires
        queue.config.rate_window == NANOS_PER_SEC,
    ensures
        queue.rate(at) == queue.events_in_window(at),
{
}

/// An operation is in the window at once, and does not lower the rate.
pub proof fn enqueueing_raises_the_rate(
    queue: BatchModel,
    resource: Arc<Resource>,
    operation: PropagationType,
    at: Reading,
)
    ensures
        queue.enqueued(resource, operation, at).events_in_window(at) == queue.events_in_window(at)
            + 1,
        queue.enqueued(resource, operation, at).rate(at) >= queue.rate(at),
{
    let cutoff = at.before(queue.config.rate_window);
    let events = queue.recent_events.push(at.now);
    forgetting_keeps_later_events(events, cutoff, cutoff);
    reveal(Seq::filter);
    assert(events.drop_last() =~= queue.recent_events);
    per_second_is_monotone(
        queue.events_in_window(at),
        queue.events_in_window(at) + 1,
        queue.config.rate_window,
    );
}

/// While no operation arrives, the rate only falls, from any reading that the clock can look back
/// from.
pub proof fn rate_falls_without_operations(queue: BatchModel, at: Reading, later: Reading)
    requires
        at.now <= later.now,
        at.reaches_back || queue.config.rate_window <= at.now,
    ensures
        queue.rate(later) <= queue.rate(at),
{
    let window = queue.config.rate_window;
    let events = queue.recent_events;
    forgetting_keeps_later_events(events, at.before(window), later.before(window));
    since_is_within(since(events, at.before(window)), later.before(window));
    per_second_is_monotone(queue.events_in_window(later), queue.events_in_window(at), window);
}

/// A batch that is due stays due until it is taken, while no operation arrives: time passes and the
/// load falls.
pub proof fn due_batch_stays_due(
    queue: BatchModel,
    now: u128,
    load: Reading,
    later: u128,
    later_load: Reading,
)
    requires
        queue.config.normal_interval <= queue.config.high_load_interval,
        now <= later,
        load.now <= later_load.now,
        load.reaches_back || queue.config.rate_window <= load.now,
        queue.flush_due(now, load),
    ensures
        queue.flush_due(later, later_load),
{
    rate_falls_without_operations(queue, load, later_load);
}

/// A batch that is not full is due from the moment on when its interval has passed since the last
/// one was taken, and not before, unless the interval is zero and the time lies before the last one
/// was taken. With nothing pending there is no batch.
pub proof fn batch_is_due_when_its_interval_has_passed(queue: BatchModel, now: u128, load: Reading)
    ensures
        queue.pending.len() == 0 ==> !queue.flush_due(now, load),
        queue.pending.len() < queue.config.max_batch_size && now < queue.last_flush
            + queue.interval(load) && (queue.last_flush <= now || queue.interval(load) > 0)
            ==> !queue.flush_due(now, load),
        queue.pending.len() > 0 && now >= queue.last_flush + queue.interval(load)
            ==> queue.flush_due(now, load),
{
}

/// Taking a batch starts the interval anew: nothing that is enqueued afterwards is due before the
/// interval has passed since then, unless the batch is full.
pub proof fn batch_waits_for_its_interval(
    queue: BatchModel,
    taken: u128,
    resource: Arc<Resource>,
    operation: PropagationType,
    at: Reading,
    now: u128,
    load: Reading,
)
    requires
        queue.config.max_batch_size > 1,
        now < taken + queue.config.normal_interval,
        now < taken + queue.config.high_load_interval,
        taken <= now,
    ensures
        !queue.flushed(taken).enqueued(resource, operation, at).flush_due(now, load),
{
    let after = queue.flushed(taken).enqueued(resource, operation, at);
    assert(after.pending.dom() =~= set![resource.expr@]);
    batch_is_due_when_its_interval_has_passed(after, now, load);
}

/// The interval is the longer one exactly when there are more events per second than the threshold.
pub proof fn load_decides_the_interval(queue: BatchModel, at: Reading)
    ensures
        queue.rate(at) > queue.config.high_load_threshold ==> queue.interval(at)
            == queue.config.high_load_interval,
        queue.rate(at) <= queue.config.high_load_threshold ==> queue.interval(at)
            == queue.config.normal_interval,
        queue.high_load(at) <==> queue.rate(at) >= queue.config.high_load_threshold + 1,
{
}

/// The rate times the window is the number of events, in seconds, up to less than one event per
/// second.
pub proof fn rate_times_window_is_count(queue: BatchModel, at: Reading)
    requires
        queue.config.rate_window > 0,
    ensures
        queue.rate(at) * queue.config.rate_window <= queue.events_in_window(at) * 1_000_000_000,
        queue.events_in_window(at) * 1_000_000_000 < (queue.rate(at) + 1)
            * queue.config.rate_window,
{
    let count = queue.events_in_window(at) * 1_000_000_000;
    let window = queue.config.rate_window as nat;
    assert(count / window * window <= count < (count / window + 1) * window) by (nonlinear_arith)
        requires
            window > 0,
    ;
}

/// An event is in the window if and only if it happened at its beginning or later.
pub proof fn window_counts_events_since_its_beginning(
    queue: BatchModel,
    event: u128,
    at: Reading,
)
    ensures
        (BatchModel { recent_events: queue.recent_events.push(event), ..queue }).events_in_window(
            at,
        ) == queue.events_in_window(at) + if event >= at.before(queue.config.rate_window) {
            1nat
        } else {
            0
        },
        (BatchModel { recent_events: Seq::empty(), ..queue }).events_in_window(at) == 0,
{
    reveal(Seq::filter);
    assert(queue.recent_events.push(event).drop_last() =~= queue.recent_events);
}

/// Enqueueing counts one operation, keeps what is pending for other resources, and neither puts off
/// the next flush nor changes anything else.
pub proof fn enqueueing_keeps_the_rest(
    queue: BatchModel,
    resource: Arc<Resource>,
    operation: PropagationType,
    at: Reading,
    key: Seq<char>,
)
    requires
        queue.total_enqueued < usize::MAX,
    ensures
        ({
            let after = queue.enqueued(resource, operation, at);
            &&& after.total_enqueued == queue.total_enqueued + 1
            &&& after.last_flush == queue.last_flush
            &&& after.config == queue.config
            &&& after.clock == queue.clock
            &&& after.total_flushes == queue.total_flushes
            &&& key != resource.expr@ ==> (after.pending.contains_key(key)
                <==> queue.pending.contains_key(key))
            &&& key != resource.expr@ && queue.pending.contains_key(key) ==> after.pending[key]
                == queue.pending[key]
            &&& after.pending.contains_key(resource.expr@)
            &&& after.pending[resource.expr@].operation == operation
            &&& after.pending[resource.expr@].enqueued_at == at.now
        }),
{
}

/// Taking a batch counts one flush and empties the queue, and changes neither the load nor anything
/// else.
pub proof fn taking_keeps_the_load(queue: BatchModel, now: u128, at: Reading)
    requires
        queue.total_flushes < usize::MAX,
    ensures
        ({
            let after = queue.flushed(now);
            &&& after.pending.len() == 0
            &&& after.last_flush == now
            &&& after.total_flushes == queue.total_flushes + 1
            &&& after.total_enqueued == queue.total_enqueued
            &&& after.config == queue.config
            &&& after.clock == queue.clock
            &&& after.rate(at) == queue.rate(at)
            &&& after.interval(at) == queue.interval(at)
        }),
{
}

/// A batch has every pending operation and no other, and no resource twice.
pub proof fn batch_has_each_operation_once(
    entries: Seq<BatchEntry>,
    pending: Map<Seq<char>, BatchEntry>,
    key: Seq<char>,
    i: int,
    j: int,
)
    requires
        pending.dom().finite(),
        lists(entries, pending),
    ensures
        pending.contains_key(key) ==> entries.contains(pending[key]),
        0 <= i < entries.len() ==> pending.contains_value(entries[i]),
        0 <= i < j < entries.len() ==> entries[i].key() != entries[j].key(),
{
    if pending.contains_key(key) {
        let k = choose|k: int| 0 <= k < entries.len() && (#[trigger] entries[k]).key() == key;
        assert(pending.contains_pair(entries[k].key(), entries[k]));
    }
    if 0 <= i < entries.len() {
        assert(pending.contains_pair(entries[i].key(), entries[i]));
    }
    if 0 <= i < j < entries.len() && entries[i].key() == entries[j].key() {
        let keys = entries.map_values(|e: BatchEntry| e.key());
        let short = keys.remove(j);
        assert(short.to_set() =~= pending.dom()) by {
            assert forall|k: Seq<char>| pending.dom().contains(k) implies short.to_set().contains(
                k,
            ) by {
                let n = choose|n: int| 0 <= n < entries.len() && (#[trigger] entries[n]).key() == k;
                if n < j {
                    assert(short[n] == k);
                } else if n > j {
                    assert(short[n - 1] == k);
                } else {
                    assert(short[i] == k);
                }
            }
            assert forall|k: Seq<char>| short.to_set().contains(k) implies pending.dom().contains(
                k,
            ) by {
                let n = choose|n: int| 0 <= n < short.len() && short[n] == k;
                let m = if n < j { n } else { n + 1 };
                assert(entries[m].key() == k);
                assert(pending.contains_pair(entries[m].key(), entries[m]));
            }
        }
        short.lemma_cardinality_of_set();
    }
}

/// The statistics are those of the queue at the readings.
pub proof fn stats_are_those_of_the_queue(
    queue: BatchModel,
    rate: Reading,
    load: Reading,
    interval: Reading,
)
    ensures
        ({
            let stats = queue.stats(rate, load, interval);
            &&& queue.pending.len() <= usize::MAX ==> stats.pending == queue.pending.len()
            &&& queue.rate(rate) <= usize::MAX ==> stats.rate == queue.rate(rate)
            &&& stats.rate <= queue.rate(rate)
            &&& stats.high_load == queue.high_load(load)
            &&& stats.current_interval == queue.interval(interval)
            &&& stats.total_enqueued == queue.total_enqueued
            &&& stats.total_flushes == queue.total_flushes
        }),
{
}

/// The reported rate is the rate as far as it can be expressed, and the largest number beyond that: it
/// is never more than the rate, and never falls when the rate rises.
pub proof fn reported_rate_is_capped(n: nat, more: nat)
    requires
        n <= more,
    ensures
        capped(n) <= n,
        n <= usize::MAX ==> capped(n) == n,
        n > usize::MAX ==> capped(n) == usize::MAX,
        capped(n) <= capped(more),
{
}

/// An operation is pending under the key expression of its resource.
pub proof fn operation_is_pending_under_its_key(
    queue: BatchModel,
    resource: Arc<Resource>,
    operation: PropagationType,
    at: Reading,
)
    ensures
        ({
            let pending = queue.enqueued(resource, operation, at).pending;
            &&& pending.contains_key(resource.expr@)
            &&& pending[resource.expr@].key() == resource.expr@
            &&& pending[resource.expr@].resource == resource
            &&& pending[resource.expr@].operation == operation
        }),
{
}

} // verus!
