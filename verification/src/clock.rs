//! Time, as whole nanoseconds since a fixed origin.

use std::time::Duration;
use std::time::Instant;

use vstd::prelude::*;

verus! {

/// `std::time::Instant`, a reading of the monotonic clock.
#[verifier::external_type_specification]
#[verifier::external_body]
pub struct ExInstant(Instant);

pub const NANOS_PER_SEC: u128 = 1_000_000_000;

pub const NANOS_PER_MILLI: u128 = 1_000_000;

pub const NANOS_PER_MICRO: u128 = 1_000;

/// The longest span of time, in nanoseconds: `u64::MAX` seconds and 999 999 999 nanoseconds.
pub const MAX_SPAN: u128 = 18_446_744_073_709_551_615_999_999_999;

/// Calls `Instant::now`. The result is the time of the call, of which nothing can be said.
#[verifier::external_body]
fn instant_now() -> (now: Instant)
{
    Instant::now()
}

/// Calls `Instant::elapsed` and gives the span in nanoseconds. The result depends on the time of
/// the call, so nothing is claimed of it.
#[verifier::external_body]
fn nanos_elapsed(origin: &Instant) -> (nanos: u128)
{
    origin.elapsed().as_nanos()
}

/// Calls `Instant::checked_sub` with the span of `secs` seconds and `nanos` nanoseconds and says
/// whether there is such an instant. How far back the clock reaches depends on the machine, so
/// nothing is claimed of the result.
#[verifier::external_body]
fn instant_reaches_back(origin: &Instant, secs: u64, nanos: u32) -> (reaches: bool)
    requires
        nanos < NANOS_PER_SEC,
{
    origin.checked_sub(Duration::new(secs, nanos)).is_some()
}

/// A point in time, in nanoseconds since the origin of a clock, and whether the clock can
/// represent the point that lies a given span before it.
#[derive(Clone, Copy, PartialEq, Eq, Structural, Debug)]
pub struct Reading {
    pub now: u128,
    pub reaches_back: bool,
}

impl Reading {
    /// The point that lies `span` before the reading. A span that the clock cannot represent is no
    /// span at all. Points before the origin count as the origin: nothing happened there.
    pub open spec fn before(self, span: u128) -> u128 {
        if span <= self.now {
            (self.now - span) as u128
        } else if self.reaches_back {
            0
        } else {
            self.now
        }
    }

    /// The point that lies `span` before the reading.
    pub fn minus(&self, span: u128) -> (at: u128)
        ensures
            at == self.before(span),
    {
        if span <= self.now {
            self.now - span
        } else if self.reaches_back {
            0
        } else {
            self.now
        }
    }
}

/// The span from `earlier` to `later`, or nothing if they are the other way round.
pub open spec fn span_between(earlier: u128, later: u128) -> u128 {
    if earlier <= later {
        (later - earlier) as u128
    } else {
        0
    }
}

/// The whole microseconds of a span, of which the low 64 bits are kept.
pub open spec fn micros_of(nanos: u128) -> u64 {
    (nanos / NANOS_PER_MICRO % 0x1_0000_0000_0000_0000) as u64
}

/// The span from `earlier` to `later`, or nothing if they are the other way round.
pub fn nanos_between(earlier: u128, later: u128) -> (nanos: u128)
    ensures
        nanos == span_between(earlier, later),
{
    if earlier <= later {
        later - earlier
    } else {
        0
    }
}

/// The whole microseconds of a span, of which the low 64 bits are kept.
pub fn as_micros(nanos: u128) -> (micros: u64)
    ensures
        micros == micros_of(nanos),
{
    (nanos / NANOS_PER_MICRO % 0x1_0000_0000_0000_0000) as u64
}

/// A clock that counts from the moment it was made.
pub struct Clock {
    origin: Instant,
}

impl Clock {
    /// The origin was read from the clock of the machine.
    pub closed spec fn begun(&self) -> bool {
        call_ensures(instant_now, (), self.origin)
    }

    /// This was read as the nanoseconds since the origin.
    pub closed spec fn reads(&self, now: u128) -> bool {
        call_ensures(nanos_elapsed, (&self.origin,), now)
    }

    /// The machine said whether it can represent the point that lies `missing` nanoseconds before
    /// the origin.
    pub closed spec fn reaches(&self, missing: u128, reaches: bool) -> bool {
        call_ensures(
            instant_reaches_back,
            (
                &self.origin,
                (missing / NANOS_PER_SEC) as u64,
                (missing % NANOS_PER_SEC) as u32,
            ),
            reaches,
        )
    }

    /// The reading was taken from this clock, to look back by `span`.
    pub open spec fn looks_back(&self, span: u128, at: Reading) -> bool {
        &&& self.reads(at.now)
        &&& if span <= at.now {
            at.reaches_back
        } else {
            self.reaches((span - at.now) as u128, at.reaches_back)
        }
    }

    /// A clock whose origin is now.
    pub fn new() -> (clock: Clock)
        ensures
            clock.begun(),
    {
        Clock { origin: instant_now() }
    }

    /// The nanoseconds since the origin.
    pub fn now(&self) -> (now: u128)
        ensures
            self.reads(now),
    {
        nanos_elapsed(&self.origin)
    }

    /// Reads the clock, to look back by `span`.
    pub fn read(&self, span: u128) -> (at: Reading)
        requires
            span <= MAX_SPAN,
        ensures
            self.looks_back(span, at),
    {
        let now: u128 = nanos_elapsed(&self.origin);
        if span <= now {
            Reading { now, reaches_back: true }
        } else {
            let missing: u128 = span - now;
            let secs: u64 = (missing / NANOS_PER_SEC) as u64;
            let nanos: u32 = (missing % NANOS_PER_SEC) as u32;
            Reading { now, reaches_back: instant_reaches_back(&self.origin, secs, nanos) }
        }
    }
}

/// Looking back never goes past the reading, and by a span that the clock has counted it goes
/// exactly that far.
pub proof fn looking_back_is_exact(at: Reading, span: u128)
    ensures
        at.before(span) <= at.now,
        span <= at.now ==> at.before(span) + span == at.now,
        span > at.now && at.reaches_back ==> at.before(span) == 0,
        span > at.now && !at.reaches_back ==> at.before(span) == at.now,
{
}

/// A reading is what `Instant::elapsed` gave for the origin of the clock.
proof fn reading_is_elapsed_time(clock: Clock, span: u128, at: Reading)
    requires
        clock.looks_back(span, at),
    ensures
        call_ensures(nanos_elapsed, (&clock.origin,), at.now),
{
}

/// The span between two points added to the earlier one is the later one, and there is no span
/// backwards.
pub proof fn span_leads_from_earlier_to_later(earlier: u128, later: u128)
    ensures
        earlier <= later ==> earlier + span_between(earlier, later) == later,
        earlier > later ==> span_between(earlier, later) == 0,
{
}

/// A span has its microseconds and less than one more, as long as they can be expressed.
pub proof fn micros_are_whole(nanos: u128)
    requires
        nanos / 1_000 <= u64::MAX,
    ensures
        micros_of(nanos) * 1_000 <= nanos < (micros_of(nanos) + 1) * 1_000,
{
}

} // verus!
