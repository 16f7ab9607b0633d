use vstd::prelude::*;

use crate::Milliseconds;

verus! {

/// The largest reload value of the 24-bit system timer.
pub const MAX_RELOAD: u32 = 0x00ff_ffff;

/// The reload value that makes the system timer wrap every `period` ms
/// when it counts at `sysclk_hz`, if that value is within the timer's range.
pub open spec fn reload_for(sysclk_hz: u32, period: Milliseconds) -> Option<u32> {
    let ticks = sysclk_hz * period / 1000 - 1;
    if 1 <= ticks <= MAX_RELOAD {
        Some(ticks as u32)
    } else {
        None
    }
}

/// The abstract state of the tick clock.
pub struct SystickModel {
    /// The length of a tick in ms.
    pub period: Milliseconds,
    /// The value the hardware timer is loaded with.
    pub reload: u32,
    /// The time since start, in whole ticks.
    pub currently: Milliseconds,
}

/// A clock that advances by one period each time the system timer wraps.
pub struct Systick {
    period: Milliseconds,
    reload: u32,
    currently: Milliseconds,
}

impl View for Systick {
    type V = SystickModel;

    closed spec fn view(&self) -> SystickModel {
        SystickModel { period: self.period, reload: self.reload, currently: self.currently }
    }
}

impl Systick {
    /// Configures a clock whose ticks last `period` ms on a timer counting
    /// at `sysclk_hz`; `None` when the timer cannot count such a tick.
    pub fn new(sysclk_hz: u32, period: Milliseconds) -> (r: Option<Systick>)
        ensures
            r is Some <==> reload_for(sysclk_hz, period) is Some,
            r matches Some(c) ==> c@ == (SystickModel {
                period,
                reload: reload_for(sysclk_hz, period)->0,
                currently: 0,
            }),
    {
        assert(sysclk_hz * period <= u32::MAX * u32::MAX) by (nonlinear_arith);
        let product = sysclk_hz as u64 * period as u64;
        let per_ms = product / 1000;
        if per_ms >= 2 && per_ms - 1 <= MAX_RELOAD as u64 {
            Some(Systick { period, reload: (per_ms - 1) as u32, currently: 0 })
        } else {
            None
        }
    }

    /// Records that the timer wrapped: the time advances by one period,
    /// rolling over past the largest time.
    pub fn tick(&mut self)
        ensures
            final(self)@ == (SystickModel {
                currently: old(self)@.currently.wrapping_add(old(self)@.period),
                ..old(self)@
            }),
    {
        self.currently = self.currently.wrapping_add(self.period);
    }

    /// The time since start, to the precision of a tick.
    pub fn now(&self) -> (r: Milliseconds)
        ensures
            r == self@.currently,
    {
        self.currently
    }

    /// The length of a tick.
    pub fn period(&self) -> (r: Milliseconds)
        ensures
            r == self@.period,
    {
        self.period
    }

    /// The value to load into the hardware timer.
    pub fn reload(&self) -> (r: u32)
        ensures
            r == self@.reload,
    {
        self.reload
    }
}

/// The abstract state of the fine-grained clock.
pub struct FineClockModel {
    /// The number of counts in one wrap of the hardware counter. A sample
    /// lies between 0 and it; the two ends stand for the same point.
    pub max_count: u32,
    /// The number of counts in a millisecond.
    pub counts_per_ms: u32,
    /// The last sample taken.
    pub last_read: u32,
    /// The counts elapsed since start.
    pub elapsed: u64,
}

impl FineClockModel {
    pub open spec fn wf(self) -> bool {
        &&& 0 < self.max_count
        &&& 0 < self.counts_per_ms
        &&& self.last_read <= self.max_count
    }

    /// Whether a reading reports that the counter wrapped since the last
    /// sample: the wrap flag was set, or the second sample lies below the
    /// first.
    pub open spec fn wrap_seen(first: u32, wrapped: bool, second: u32) -> bool {
        wrapped || second < first
    }

    /// The counts between the last sample and `second`.
    pub open spec fn delta(self, first: u32, wrapped: bool, second: u32) -> u64 {
        if Self::wrap_seen(first, wrapped, second) {
            ((self.max_count - self.last_read) + second) as u64
        } else {
            second.saturating_sub(self.last_read) as u64
        }
    }

    /// The clock after a reading: two samples `first` and `second` of the
    /// counter taken around a read of the wrap flag.
    pub open spec fn next(self, first: u32, wrapped: bool, second: u32) -> FineClockModel {
        FineClockModel {
            last_read: second,
            elapsed: self.elapsed.saturating_add(self.delta(first, wrapped, second)),
            ..self
        }
    }
}

/// A clock read from the hardware counter itself, with wraps detected by a
/// double read around the wrap flag.
pub struct FineClock {
    max_count: u32,
    counts_per_ms: u32,
    last_read: u32,
    elapsed: u64,
}

impl View for FineClock {
    type V = FineClockModel;

    closed spec fn view(&self) -> FineClockModel {
        FineClockModel {
            max_count: self.max_count,
            counts_per_ms: self.counts_per_ms,
            last_read: self.last_read,
            elapsed: self.elapsed,
        }
    }
}

impl FineClock {
    /// Creates a clock on a counter that wraps every `max_count` counts and
    /// counts `counts_per_ms` times a millisecond, started at sample 0.
    pub fn new(max_count: u32, counts_per_ms: u32) -> (r: FineClock)
        requires
            0 < max_count,
            0 < counts_per_ms,
        ensures
            r@ == (FineClockModel { max_count, counts_per_ms, last_read: 0, elapsed: 0 }),
            r@.wf(),
    {
        FineClock { max_count, counts_per_ms, last_read: 0, elapsed: 0 }
    }

    /// Takes a reading and returns the counts elapsed since start.
    pub fn sample(&mut self, first: u32, wrapped: bool, second: u32) -> (r: u64)
        requires
            old(self)@.wf(),
            first <= old(self)@.max_count,
            second <= old(self)@.max_count,
        ensures
            final(self)@ == old(self)@.next(first, wrapped, second),
            final(self)@.wf(),
            r == final(self)@.elapsed,
    {
        let delta: u64 = if wrapped || second < first {
            (self.max_count - self.last_read) as u64 + second as u64
        } else {
            second.saturating_sub(self.last_read) as u64
        };
        self.elapsed = self.elapsed.saturating_add(delta);
        self.last_read = second;
        self.elapsed
    }

    /// The counts elapsed since start.
    pub fn elapsed(&self) -> (r: u64)
        ensures
            r == self@.elapsed,
    {
        self.elapsed
    }

    /// The whole milliseconds elapsed since start.
    pub fn now_ms(&self) -> (r: u64)
        requires
            self@.wf(),
        ensures
            r == self@.elapsed / (self@.counts_per_ms as u64),
    {
        self.elapsed / self.counts_per_ms as u64
    }
}

/// One reading of the counter: two samples around a read of the wrap flag.
pub struct Reading {
    pub first: u32,
    pub wrapped: bool,
    pub second: u32,
}

/// Whether `r` faithfully reports that a counter wrapping every `max_count`
/// counts advanced by `k` counts from sample `last`: at most one wrap's
/// worth, the second sample is where the counter now stands, and a wrap is
/// seen exactly when the counter passed its maximum.
pub open spec fn faithful(max_count: u32, last: u32, k: int, r: Reading) -> bool {
    &&& 0 < k <= max_count
    &&& r.first < max_count
    &&& r.second < max_count
    &&& r.second == if last + k < max_count {
        last + k
    } else {
        last + k - max_count
    }
    &&& FineClockModel::wrap_seen(r.first, r.wrapped, r.second) == (last + k >= max_count)
}

/// The clock after the first `n` readings.
pub open spec fn clock_after(c: FineClockModel, readings: Seq<Reading>, n: nat) -> FineClockModel
    decreases n,
{
    if n == 0 {
        c
    } else {
        let r = readings[n - 1];
        clock_after(c, readings, (n - 1) as nat).next(r.first, r.wrapped, r.second)
    }
}

/// The sample before reading `i`.
pub open spec fn read_before(c: FineClockModel, readings: Seq<Reading>, i: int) -> u32 {
    if i == 0 {
        c.last_read
    } else {
        readings[i - 1].second
    }
}

/// A faithful reading advances the clock by exactly the counts that passed.
pub proof fn lemma_faithful_reading_counts_exactly(c: FineClockModel, k: int, r: Reading)
    requires
        c.wf(),
        faithful(c.max_count, c.last_read, k, r),
        c.elapsed + k <= u64::MAX,
    ensures
        c.next(r.first, r.wrapped, r.second).elapsed == c.elapsed + k,
        c.next(r.first, r.wrapped, r.second).last_read == r.second,
{
}

proof fn lemma_clock_after_bounded(
    c: FineClockModel,
    readings: Seq<Reading>,
    advances: Seq<int>,
    n: nat,
)
    requires
        c.wf(),
        readings.len() == advances.len(),
        n <= readings.len(),
        forall|i: int|
            0 <= i < readings.len() ==> faithful(
                c.max_count,
                #[trigger] read_before(c, readings, i),
                advances[i],
                readings[i],
            ),
        c.elapsed + readings.len() * c.max_count <= u64::MAX,
    ensures
        clock_after(c, readings, n).wf(),
        clock_after(c, readings, n).max_count == c.max_count,
        clock_after(c, readings, n).last_read == read_before(c, readings, n as int),
        clock_after(c, readings, n).elapsed <= c.elapsed + n * c.max_count,
    decreases n,
{
    if n > 0 {
        let m = (n - 1) as nat;
        lemma_clock_after_bounded(c, readings, advances, m);
        let p = clock_after(c, readings, m);
        assert(faithful(c.max_count, read_before(c, readings, m as int), advances[m as int], readings[m as int]));
        assert(m * c.max_count + c.max_count == n * c.max_count) by (nonlinear_arith)
            requires
                n == m + 1,
        ;
        assert(n * c.max_count <= readings.len() * c.max_count) by (nonlinear_arith)
            requires
                n <= readings.len(),
        ;
        lemma_faithful_reading_counts_exactly(p, advances[m as int], readings[m as int]);
    }
}

/// Readings that faithfully follow a counter across its wraps give a
/// strictly increasing count: each reading adds exactly the counts that
/// passed, never more than one wrap's worth, so no jump is larger than a
/// tick. The count is taken to stay clear of its largest value.
pub proof fn lemma_faithful_readings_increase(
    c: FineClockModel,
    readings: Seq<Reading>,
    advances: Seq<int>,
)
    requires
        c.wf(),
        readings.len() == advances.len(),
        forall|i: int|
            0 <= i < readings.len() ==> faithful(
                c.max_count,
                #[trigger] read_before(c, readings, i),
                advances[i],
                readings[i],
            ),
        c.elapsed + readings.len() * c.max_count <= u64::MAX,
    ensures
        forall|i: int|
            0 <= i < readings.len() ==> {
                let before = #[trigger] clock_after(c, readings, i as nat).elapsed;
                let after = clock_after(c, readings, (i + 1) as nat).elapsed;
                &&& after == before + advances[i]
                &&& before < after <= before + c.max_count
            },
{
    assert forall|i: int| 0 <= i < readings.len() implies {
        let before = #[trigger] clock_after(c, readings, i as nat).elapsed;
        let after = clock_after(c, readings, (i + 1) as nat).elapsed;
        &&& after == before + advances[i]
        &&& before < after <= before + c.max_count
    } by {
        lemma_clock_after_bounded(c, readings, advances, i as nat);
        let p = clock_after(c, readings, i as nat);
        assert(faithful(c.max_count, read_before(c, readings, i), advances[i], readings[i]));
        assert((i + 1) * c.max_count <= readings.len() * c.max_count) by (nonlinear_arith)
            requires
                i + 1 <= readings.len(),
        ;
        assert(i * c.max_count + c.max_count == (i + 1) * c.max_count) by (nonlinear_arith);
        lemma_faithful_reading_counts_exactly(p, advances[i], readings[i]);
        assert(clock_after(c, readings, (i + 1) as nat) == p.next(
            readings[i].first,
            readings[i].wrapped,
            readings[i].second,
        ));
    }
}

/// Whether reading `r` shows more than one wrap's worth of counts since
/// sample `last`: a wrap was seen, and the counter has also gone past `last`.
pub open spec fn past_one_wrap(last: u32, r: Reading) -> bool {
    FineClockModel::wrap_seen(r.first, r.wrapped, r.second) && r.second > last
}

/// Whether reading `r` shows that the counter moved since sample `last`:
/// it went forward, or it wrapped to a point other than where it stood.
pub open spec fn moved(max_count: u32, last: u32, r: Reading) -> bool {
    ||| r.second > last
    ||| FineClockModel::wrap_seen(r.first, r.wrapped, r.second) && !(last == max_count && r.second == 0)
}

/// What one reading does to the count, whatever it holds: the count never
/// goes back, it goes forward when the counter moved, and it jumps by at
/// most one wrap's worth unless the reading shows more than one wrap.
pub proof fn lemma_reading_moves_forward(c: FineClockModel, r: Reading)
    requires
        c.wf(),
        r.first <= c.max_count,
        r.second <= c.max_count,
        c.elapsed + 2 * c.max_count <= u64::MAX,
    ensures
        ({
            let after = c.next(r.first, r.wrapped, r.second);
            &&& after.wf()
            &&& after.last_read == r.second
            &&& c.elapsed <= after.elapsed <= c.elapsed + 2 * c.max_count
            &&& moved(c.max_count, c.last_read, r) ==> c.elapsed < after.elapsed
            &&& !past_one_wrap(c.last_read, r) ==> after.elapsed <= c.elapsed + c.max_count
        }),
{
}

proof fn lemma_clock_after_any(c: FineClockModel, readings: Seq<Reading>, n: nat)
    requires
        c.wf(),
        n <= readings.len(),
        forall|i: int|
            0 <= i < readings.len() ==> (#[trigger] readings[i]).first <= c.max_count
                && readings[i].second <= c.max_count,
        c.elapsed + readings.len() * (2 * c.max_count) <= u64::MAX,
    ensures
        clock_after(c, readings, n).wf(),
        clock_after(c, readings, n).max_count == c.max_count,
        clock_after(c, readings, n).last_read == read_before(c, readings, n as int),
        clock_after(c, readings, n).elapsed <= c.elapsed + n * (2 * c.max_count),
    decreases n,
{
    if n > 0 {
        let m = (n - 1) as nat;
        lemma_clock_after_any(c, readings, m);
        let p = clock_after(c, readings, m);
        let r = readings[m as int];
        assert(m * (2 * c.max_count) + 2 * c.max_count == n * (2 * c.max_count)) by (nonlinear_arith)
            requires
                n == m + 1,
        ;
        assert(n * (2 * c.max_count) <= readings.len() * (2 * c.max_count)) by (nonlinear_arith)
            requires
                n <= readings.len(),
        ;
        lemma_reading_moves_forward(p, r);
    }
}

/// Any sequence of readings, across any number of wraps, gives a count
/// that never goes back, goes forward at every reading where the counter
/// moved, and jumps by at most one wrap's worth (one tick) at every reading
/// that does not itself show more than one wrap. The count is taken to stay
/// clear of its largest value.
pub proof fn lemma_readings_never_go_back(c: FineClockModel, readings: Seq<Reading>)
    requires
        c.wf(),
        forall|i: int|
            0 <= i < readings.len() ==> (#[trigger] readings[i]).first <= c.max_count
                && readings[i].second <= c.max_count,
        c.elapsed + readings.len() * (2 * c.max_count) <= u64::MAX,
    ensures
        forall|i: int|
            0 <= i < readings.len() ==> {
                let before = #[trigger] clock_after(c, readings, i as nat).elapsed;
                let after = clock_after(c, readings, (i + 1) as nat).elapsed;
                let last = read_before(c, readings, i);
                &&& before <= after
                &&& moved(c.max_count, last, readings[i]) ==> before < after
                &&& !past_one_wrap(last, readings[i]) ==> after <= before + c.max_count
            },
{
    assert forall|i: int| 0 <= i < readings.len() implies {
        let before = #[trigger] clock_after(c, readings, i as nat).elapsed;
        let after = clock_after(c, readings, (i + 1) as nat).elapsed;
        let last = read_before(c, readings, i);
        &&& before <= after
        &&& moved(c.max_count, last, readings[i]) ==> before < after
        &&& !past_one_wrap(last, readings[i]) ==> after <= before + c.max_count
    } by {
        lemma_clock_after_any(c, readings, i as nat);
        let p = clock_after(c, readings, i as nat);
        assert((i + 1) * (2 * c.max_count) <= readings.len() * (2 * c.max_count)) by (nonlinear_arith)
            requires
                i + 1 <= readings.len(),
        ;
        assert(i * (2 * c.max_count) + 2 * c.max_count == (i + 1) * (2 * c.max_count)) by (nonlinear_arith);
        lemma_reading_moves_forward(p, readings[i]);
        assert(clock_after(c, readings, (i + 1) as nat) == p.next(
            readings[i].first,
            readings[i].wrapped,
            readings[i].second,
        ));
    }
}

} // verus!
