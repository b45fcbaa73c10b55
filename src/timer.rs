//! Frame timing: the time between frames, and a periodic frame rate report.
use vstd::prelude::*;

verus! {

/// How long, in microseconds, frame durations are gathered before a report.
pub const REPORT_INTERVAL_US: u64 = 5_000_000;

/// The sum of a sequence of durations.
pub open spec fn total(s: Seq<u64>) -> int
    decreases s.len(),
{
    if s.len() == 0 { 0 } else { total(s.drop_last()) + s.last() }
}

/// The time from `last` to `now`; a clock reading earlier than `last`
/// counts as no time.
pub open spec fn elapsed(last: u64, now: u64) -> u64 {
    if now >= last { (now - last) as u64 } else { 0 }
}

/// The latest of `last` and `now`.
pub open spec fn later(last: u64, now: u64) -> u64 {
    if now >= last { now } else { last }
}

/// The frame rate report of a sampling window.
#[derive(Clone, Copy, Debug, PartialEq, Eq, Structural)]
pub struct FpsReport {
    /// The frames that were timed.
    pub frames: u64,
    /// Their mean duration in microseconds, rounded down.
    pub mean_us: u64,
}

/// Tracks the time between frames. All times are microseconds on one
/// monotonic clock.
pub struct TimeManager {
    last_time: u64,
    last_fps_print: u64,
    durs: Vec<u64>,
    start: Ghost<u64>,
    measured: Ghost<int>,
}

impl TimeManager {
    /// When the previous frame was timed.
    pub closed spec fn spec_last_time(&self) -> u64 {
        self.last_time
    }

    /// When the current sampling window began.
    pub closed spec fn spec_last_report(&self) -> u64 {
        self.last_fps_print
    }

    /// The frame durations gathered in the current window.
    pub closed spec fn spec_durations(&self) -> Seq<u64> {
        self.durs@
    }

    /// When the timer was made.
    pub closed spec fn spec_start(&self) -> u64 {
        self.start@
    }

    /// The sum of all durations that `dt` has returned.
    pub closed spec fn spec_measured(&self) -> int {
        self.measured@
    }

    /// The durations gathered add up to the time since the window began,
    /// and all durations returned add up to the time since the start.
    pub closed spec fn wf(&self) -> bool {
        &&& self.last_fps_print <= self.last_time
        &&& total(self.durs@) == self.last_time - self.last_fps_print
        &&& self.measured@ == self.last_time - self.start@
    }

    /// Whatever calls of `dt` were made, the durations they returned add
    /// up to the span from the start to the latest clock reading.
    pub proof fn lemma_measured_is_span(&self)
        requires
            self.wf(),
        ensures
            self.spec_measured() == self.spec_last_time() - self.spec_start(),
    {
    }

    /// What one call of `dt` at `now_us` does: `next` is the timer after it
    /// and `r` what it returns.
    pub open spec fn dt_step(&self, now_us: u64, next: &TimeManager, r: (u64, Option<FpsReport>)) -> bool {
        &&& r.0 == elapsed(self.spec_last_time(), now_us)
        &&& next.spec_last_time() == later(self.spec_last_time(), now_us)
        &&& next.spec_start() == self.spec_start()
        &&& next.spec_measured() == self.spec_measured() + r.0
        &&& {
            let durs = self.spec_durations().push(r.0);
            if next.spec_last_time() - self.spec_last_report() > REPORT_INTERVAL_US {
                &&& r.1 == Some(FpsReport {
                    frames: durs.len() as u64,
                    mean_us: (total(durs) / (durs.len() as int)) as u64,
                })
                &&& next.spec_durations() == Seq::<u64>::empty()
                &&& next.spec_last_report() == next.spec_last_time()
            } else {
                &&& r.1 is None
                &&& next.spec_durations() == durs
                &&& next.spec_last_report() == self.spec_last_report()
            }
        }
    }

    /// A timer whose first frame and sampling window start at `now_us`.
    pub fn new(now_us: u64) -> (t: TimeManager)
        ensures
            t.wf(),
            t.spec_last_time() == now_us,
            t.spec_last_report() == now_us,
            t.spec_durations() == Seq::<u64>::empty(),
            t.spec_start() == now_us,
            t.spec_measured() == 0,
    {
        TimeManager {
            last_time: now_us,
            last_fps_print: now_us,
            durs: Vec::new(),
            start: Ghost(now_us),
            measured: Ghost(0),
        }
    }

    /// The time since the previous call (or since `new`), taking `now_us`
    /// as the current time. The duration is gathered; once more than
    /// `REPORT_INTERVAL_US` has passed since the window began, the window's
    /// report is returned and a new window begins.
    pub fn dt(&mut self, now_us: u64) -> (r: (u64, Option<FpsReport>))
        requires
            old(self).wf(),
        ensures
            final(self).wf(),
            old(self).dt_step(now_us, final(self), r),
    {
        let now: u64 = if now_us >= self.last_time { now_us } else { self.last_time };
        let diff: u64 = now - self.last_time;
        self.last_time = now;
        self.measured = Ghost(self.measured@ + diff);
        self.durs.push(diff);
        proof {
            assert(self.durs@.drop_last() =~= old(self).durs@);
        }
        if now - self.last_fps_print > REPORT_INTERVAL_US {
            let count: usize = self.durs.len();
            let sum: u64 = sum_of(&self.durs);
            let report = FpsReport { frames: count as u64, mean_us: sum / (count as u64) };
            self.durs = Vec::new();
            self.last_fps_print = now;
            (diff, Some(report))
        } else {
            (diff, None)
        }
    }
}

proof fn lemma_total_prefix(s: Seq<u64>, i: int)
    requires
        0 <= i <= s.len(),
    ensures
        0 <= total(s.take(i)) <= total(s),
    decreases s.len(),
{
    if s.len() > 0 {
        if i == s.len() {
            assert(s.take(i) =~= s);
            lemma_total_prefix(s.drop_last(), i - 1);
        } else {
            assert(s.take(i) =~= s.drop_last().take(i));
            lemma_total_prefix(s.drop_last(), i);
        }
    }
}

fn sum_of(v: &Vec<u64>) -> (r: u64)
    requires
        total(v@) <= u64::MAX,
    ensures
        r == total(v@),
{
    let mut acc: u64 = 0;
    let mut i: usize = 0;
    while i < v.len()
        invariant
            i <= v@.len(),
            total(v@) <= u64::MAX,
            acc == total(v@.take(i as int)),
        decreases v@.len() - i,
    {
        proof {
            assert(v@.take(i as int + 1).drop_last() =~= v@.take(i as int));
            lemma_total_prefix(v@, i as int + 1);
        }
        acc = acc + v[i];
        i = i + 1;
    }
    proof {
        assert(v@.take(i as int) =~= v@);
    }
    acc
}

/// The clock after readings `ts` taken from `start`: the latest of them all.
pub open spec fn clock_after(start: u64, ts: Seq<u64>) -> u64
    decreases ts.len(),
{
    if ts.len() == 0 { start } else { later(clock_after(start, ts.drop_last()), ts.last()) }
}

/// The sum of the durations that successive readings `ts` give from `start`.
pub open spec fn elapsed_sum(start: u64, ts: Seq<u64>) -> int
    decreases ts.len(),
{
    if ts.len() == 0 {
        0
    } else {
        elapsed_sum(start, ts.drop_last()) + elapsed(clock_after(start, ts.drop_last()), ts.last())
    }
}

/// The durations of successive frames add up to the whole span: from the
/// start to the latest reading, which is the last one where the readings
/// never go back.
pub proof fn lemma_durations_add_up(start: u64, ts: Seq<u64>)
    ensures
        elapsed_sum(start, ts) == clock_after(start, ts) - start,
        (forall|i: int| 0 <= i < ts.len() ==> (if i == 0 { start } else { ts[i - 1] }) <= #[trigger] ts[i])
            ==> clock_after(start, ts) == (if ts.len() == 0 { start } else { ts.last() }),
    decreases ts.len(),
{
    if ts.len() > 0 {
        lemma_durations_add_up(start, ts.drop_last());
        let p = ts.drop_last();
        if forall|i: int| 0 <= i < ts.len() ==> (if i == 0 { start } else { ts[i - 1] }) <= #[trigger] ts[i] {
            assert forall|i: int| 0 <= i < p.len() implies (if i == 0 { start } else { p[i - 1] }) <= #[trigger] p[i] by {
                assert(ts[i] == p[i]);
            }
            if p.len() > 0 {
                assert(ts[ts.len() - 1] >= ts[ts.len() - 2]);
            }
        }
    }
}

} // verus!
