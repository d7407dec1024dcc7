//! The capture scheduler: a fixed-count, fixed-interval capture plan.
//! For `n` pictures over a period of `D` milliseconds the uniform delay is
//! `D / n`, and the plan is capture, sleep, capture, sleep, ..., capture:
//! exactly `n` captures and `n - 1` sleeps, with no sleep after the last
//! capture. Publishing a capture outcome feeds the latest-frame store and
//! the archive; a failed capture publishes nothing.
use vstd::prelude::*;
use vstd::slice::slice_to_vec;
use crate::archive::FrameArchive;
use crate::frame::{FrameBuffer, LatestFrameStore};

verus! {

/// One step of the capture plan: capture (and publish) picture `i`, or
/// sleep for the given number of milliseconds.
#[derive(Clone, Copy, PartialEq, Eq, Structural, Debug)]
pub enum ScheduleStep {
    Capture(u32),
    Sleep(u64),
}

/// Why a timelapse cannot be planned.
#[derive(Clone, Copy, PartialEq, Eq, Structural, Debug)]
pub enum SchedulerError {
    /// The picture count was zero; at least one picture is required.
    ZeroPictureCount,
    /// The period string could not be parsed into a duration.
    InvalidPeriod,
}

/// The tail of the capture plan from picture `i` on, out of `n` pictures
/// with a uniform delay of `d` milliseconds: capture `i`, then — unless `i`
/// is the last picture — one sleep, then the rest.
pub open spec fn spec_plan_from(i: int, n: u32, d: u64) -> Seq<ScheduleStep>
    decreases n - i,
{
    if i < 0 || i >= n {
        Seq::empty()
    } else if i == n - 1 {
        seq![ScheduleStep::Capture(i as u32)]
    } else {
        seq![ScheduleStep::Capture(i as u32), ScheduleStep::Sleep(d)] + spec_plan_from(i + 1, n, d)
    }
}

/// The whole capture plan for `n` pictures with delay `d`.
pub open spec fn spec_schedule_plan(n: u32, d: u64) -> Seq<ScheduleStep> {
    spec_plan_from(0, n, d)
}

/// How many capture steps a plan holds.
pub open spec fn spec_count_captures(s: Seq<ScheduleStep>) -> nat
    decreases s.len(),
{
    if s.len() == 0 {
        0
    } else {
        (if s[0] is Capture {
            1nat
        } else {
            0nat
        }) + spec_count_captures(s.drop_first())
    }
}

/// How many sleep steps a plan holds.
pub open spec fn spec_count_sleeps(s: Seq<ScheduleStep>) -> nat
    decreases s.len(),
{
    if s.len() == 0 {
        0
    } else {
        (if s[0] is Sleep {
            1nat
        } else {
            0nat
        }) + spec_count_sleeps(s.drop_first())
    }
}

/// The summed duration of a plan's sleep steps, in milliseconds.
pub open spec fn spec_total_sleep_ms(s: Seq<ScheduleStep>) -> int
    decreases s.len(),
{
    if s.len() == 0 {
        0
    } else {
        (match s[0] {
            ScheduleStep::Sleep(ms) => ms as int,
            ScheduleStep::Capture(_) => 0,
        }) + spec_total_sleep_ms(s.drop_first())
    }
}

proof fn lemma_plan_from_counts(i: int, n: u32, d: u64)
    requires
        0 <= i <= n,
    ensures
        spec_count_captures(spec_plan_from(i, n, d)) == if i < n {
            (n - i) as nat
        } else {
            0nat
        },
        spec_count_sleeps(spec_plan_from(i, n, d)) == if i < n {
            (n - i - 1) as nat
        } else {
            0nat
        },
        spec_total_sleep_ms(spec_plan_from(i, n, d)) == if i < n {
            (n - i - 1) * d
        } else {
            0
        },
    decreases n - i,
{
    let p = spec_plan_from(i, n, d);
    if i >= n {
    } else if i == n - 1 {
        assert(p =~= seq![ScheduleStep::Capture(i as u32)]);
        assert(p.drop_first() =~= Seq::<ScheduleStep>::empty());
        assert(spec_count_captures(Seq::<ScheduleStep>::empty()) == 0);
        assert(spec_count_sleeps(Seq::<ScheduleStep>::empty()) == 0);
        assert(spec_total_sleep_ms(Seq::<ScheduleStep>::empty()) == 0);
        assert(spec_count_captures(p) == 1);
        assert(spec_count_sleeps(p) == 0);
        assert(spec_total_sleep_ms(p) == 0);
        assert((n - i - 1) * d == 0) by (nonlinear_arith)
            requires i == n - 1,
        ;
    } else {
        lemma_plan_from_counts(i + 1, n, d);
        let rest = spec_plan_from(i + 1, n, d);
        let q = p.drop_first();
        assert(q =~= seq![ScheduleStep::Sleep(d)] + rest);
        assert(q.drop_first() =~= rest);
        assert(spec_count_captures(q) == spec_count_captures(rest));
        assert(spec_count_captures(p) == 1 + spec_count_captures(rest));
        assert(spec_count_sleeps(q) == 1 + spec_count_sleeps(rest));
        assert(spec_count_sleeps(p) == spec_count_sleeps(q));
        assert(spec_total_sleep_ms(q) == d + spec_total_sleep_ms(rest));
        assert(spec_total_sleep_ms(p) == spec_total_sleep_ms(q));
        assert((n - i - 2) * d + d == (n - i - 1) * d) by (nonlinear_arith);
    }
}

proof fn lemma_plan_from_shape(i: int, n: u32, d: u64)
    requires
        0 <= i <= n,
    ensures
        spec_plan_from(i, n, d).len() == if i < n {
            2 * (n - i) - 1
        } else {
            0
        },
        forall|j: int|
            0 <= j < spec_plan_from(i, n, d).len() ==> spec_plan_from(i, n, d)[j] == (if j % 2
                == 0 {
                ScheduleStep::Capture((i + j / 2) as u32)
            } else {
                ScheduleStep::Sleep(d)
            }),
    decreases n - i,
{
    let p = spec_plan_from(i, n, d);
    if i >= n || i == n - 1 {
    } else {
        lemma_plan_from_shape(i + 1, n, d);
        let rest = spec_plan_from(i + 1, n, d);
        assert forall|j: int| 0 <= j < p.len() implies p[j] == (if j % 2 == 0 {
            ScheduleStep::Capture((i + j / 2) as u32)
        } else {
            ScheduleStep::Sleep(d)
        }) by {
            if j >= 2 {
                assert(p[j] == rest[j - 2]);
                assert((j - 2) % 2 == j % 2);
                if j % 2 == 0 {
                    assert((i + 1) + (j - 2) / 2 == i + j / 2);
                }
            }
        }
    }
}

/// The shape of the capture plan for `n >= 1` pictures with delay `d`:
/// exactly `n` captures and exactly `n - 1` sleeps; captures and sleeps
/// alternate, the captures carry the indices `0 .. n-1` in order, every
/// sleep lasts `d` milliseconds, and the plan ends on a capture (no
/// trailing sleep), so the summed sleep time falls one delay short of
/// `n` whole delay intervals.
pub proof fn lemma_schedule_shape(n: u32, d: u64)
    requires
        n >= 1,
    ensures
        spec_count_captures(spec_schedule_plan(n, d)) == n,
        spec_count_sleeps(spec_schedule_plan(n, d)) == (n - 1) as nat,
        spec_total_sleep_ms(spec_schedule_plan(n, d)) == (n - 1) * d,
        spec_schedule_plan(n, d).len() == 2 * n - 1,
        forall|j: int|
            0 <= j < 2 * n - 1 ==> spec_schedule_plan(n, d)[j] == (if j % 2 == 0 {
                ScheduleStep::Capture((j / 2) as u32)
            } else {
                ScheduleStep::Sleep(d)
            }),
        spec_schedule_plan(n, d).last() == ScheduleStep::Capture((n - 1) as u32),
{
    lemma_plan_from_counts(0, n, d);
    lemma_plan_from_shape(0, n, d);
    let last: int = 2 * n - 2;
    assert(last % 2 == 0 && last / 2 == n - 1);
}

/// The capture scheduler's resolved parameters: how many pictures to take
/// and the uniform delay between consecutive captures.
#[derive(Clone, Copy, PartialEq, Eq, Structural, Debug)]
pub struct CaptureScheduler {
    pub count: u32,
    pub delay_ms: u64,
}

impl CaptureScheduler {
    /// Plans `count` captures spread uniformly over `duration_ms`
    /// milliseconds: the delay between captures is `duration_ms / count`.
    /// A picture count of zero is a configuration error.
    pub fn new(duration_ms: u64, count: u32) -> (r: Result<Self, SchedulerError>)
        ensures
            match r {
                Ok(s) => count >= 1 && s.count == count && s.delay_ms == duration_ms / (
                count as u64),
                Err(e) => count == 0 && e == SchedulerError::ZeroPictureCount,
            },
    {
        if count == 0 {
            Err(SchedulerError::ZeroPictureCount)
        } else {
            Ok(CaptureScheduler { count, delay_ms: duration_ms / (count as u64) })
        }
    }

    /// Plans `count` captures spread uniformly over the period given as a
    /// duration string such as "1h". A picture count of zero is a
    /// configuration error; so is a period string that denotes no duration.
    /// The period string must be shorter than 21 characters — a limit of the
    /// underlying parser (see `parse_period_millis`), with ample room for
    /// any sensible period.
    pub fn from_period(period: &str, count: u32) -> (r: Result<Self, SchedulerError>)
        requires
            period@.len() < 21,
        ensures
            count == 0 ==> r == Err::<CaptureScheduler, SchedulerError>(
                SchedulerError::ZeroPictureCount,
            ),
            count >= 1 && parsed_duration_millis(period@) is None ==> r == Err::<
                CaptureScheduler,
                SchedulerError,
            >(SchedulerError::InvalidPeriod),
            count >= 1 ==> (parsed_duration_millis(period@) matches Some(ms) ==> (r matches Ok(s)
                && s.count == count && s.delay_ms == ms / (count as u64))),
    {
        if count == 0 {
            return Err(SchedulerError::ZeroPictureCount);
        }
        match parse_period_millis(period) {
            Some(ms) => Self::new(ms, count),
            None => Err(SchedulerError::InvalidPeriod),
        }
    }

    /// The full capture plan: `count` captures in index order with one
    /// sleep of `delay_ms` between consecutive captures and none after the
    /// last.
    pub fn schedule(&self) -> (r: Vec<ScheduleStep>)
        ensures
            r@ == spec_schedule_plan(self.count, self.delay_ms),
    {
        let mut v: Vec<ScheduleStep> = Vec::new();
        let mut i: u32 = 0;
        while i < self.count
            invariant
                0 <= i <= self.count,
                v@ + spec_plan_from(i as int, self.count, self.delay_ms) == spec_schedule_plan(
                    self.count,
                    self.delay_ms,
                ),
            decreases self.count - i,
        {
            let ghost v0 = v@;
            v.push(ScheduleStep::Capture(i));
            if i + 1 < self.count {
                v.push(ScheduleStep::Sleep(self.delay_ms));
            }
            proof {
                assert(v@ + spec_plan_from(i + 1, self.count, self.delay_ms) =~= v0
                    + spec_plan_from(i as int, self.count, self.delay_ms));
            }
            i = i + 1;
        }
        proof {
            assert(v@ + spec_plan_from(i as int, self.count, self.delay_ms) =~= v@);
        }
        v
    }
}

/// The duration, in whole milliseconds, that a period string denotes, or
/// `None` for a string that does not denote one (or one of more than
/// `u64::MAX` milliseconds).
pub uninterp spec fn parsed_duration_millis(s: Seq<char>) -> Option<u64>;

/// Relies on humantime::parse_duration: it parses a concatenation of
/// integer-and-unit time spans (such as "1h" or "2h 37min") into a duration,
/// and its result depends on the input string alone. `None` stands for a
/// string it rejects or for a duration of more than `u64::MAX` milliseconds.
///
/// The length bound keeps out the parser's one panicking path: its own
/// arithmetic is checked, but when a span lands the accumulated nanosecond
/// field on exactly one whole second, the carry is handed unnormalized to
/// std's Duration constructor, which panics if the seconds counter
/// overflows — that is, if the accumulated seconds already stand at exactly
/// their maximum. Reaching the maximum takes at least 15 characters: even
/// the largest unit yields fewer than 10^(L-1) * 31557600 seconds from L
/// characters, so 13 are needed for the magnitude alone, and since every
/// unit's multiplier but the seconds unit's is even while the maximum is
/// odd, a seconds span of at least 2 more characters must stand beside
/// them. Landing the nanosecond field on exactly one whole second afterwards
/// takes at least 6 more characters ("1000ms") that add no whole seconds
/// (a span that did would fail the parser's checked addition instead). So
/// strings shorter than 21 characters cannot reach the panic.
#[verifier::external_body]
fn parse_period_millis(s: &str) -> (r: Option<u64>)
    requires
        s@.len() < 21,
    ensures
        r == parsed_duration_millis(s@),
{
    match humantime::parse_duration(s) {
        Ok(d) => u64::try_from(d.as_millis()).ok(),
        Err(_) => None,
    }
}

/// The bytes of a capture outcome, when the camera returned a frame.
pub open spec fn spec_outcome_bytes(outcome: Option<FrameBuffer>) -> Option<Seq<u8>> {
    match outcome {
        Some(f) => Some(f@),
        None => None,
    }
}

/// What publishing a capture outcome does to the latest-frame store and the
/// archive: a returned frame replaces the store's content, is appended to
/// the archive and rewrites the "latest" alias; a failed capture (no frame)
/// changes nothing at all.
pub open spec fn spec_publish(
    store: Option<Seq<u8>>,
    entries: Seq<Seq<u8>>,
    latest: Option<Seq<u8>>,
    outcome: Option<Seq<u8>>,
) -> (Option<Seq<u8>>, Seq<Seq<u8>>, Option<Seq<u8>>) {
    match outcome {
        Some(b) => (Some(b), entries.push(b), Some(b)),
        None => (store, entries, latest),
    }
}

/// Publishes one capture outcome: on success the frame goes into the store,
/// the archive and the "latest" alias; on failure everything keeps its prior
/// value. Returns whether a frame was published.
pub fn publish_capture(
    store: &mut LatestFrameStore,
    archive: &mut FrameArchive,
    outcome: Option<FrameBuffer>,
) -> (ok: bool)
    ensures
        (final(store)@, final(archive).entries_view(), final(archive).latest_view())
            == spec_publish(
            old(store)@,
            old(archive).entries_view(),
            old(archive).latest_view(),
            spec_outcome_bytes(outcome),
        ),
        ok == (outcome is Some),
        final(archive).wf() == if outcome is Some {
            true
        } else {
            old(archive).wf()
        },
{
    match outcome {
        Some(f) => {
            let bytes_copy = slice_to_vec(f.bytes.as_slice());
            archive.record(bytes_copy);
            store.replace(f);
            true
        },
        None => false,
    }
}

/// A failed single capture never changes the content of the latest-frame
/// store, the archive's entries or the "latest" alias: publishing a failed
/// outcome is the identity on all three.
pub proof fn lemma_failed_capture_preserves_state(
    store: Option<Seq<u8>>,
    entries: Seq<Seq<u8>>,
    latest: Option<Seq<u8>>,
)
    ensures
        spec_publish(store, entries, latest, None) == (store, entries, latest),
{
}

} // verus!
