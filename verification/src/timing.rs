//! Presentation timing of decoded frames: when a frame with a given presentation
//! timestamp is due, and whether it is too late to be shown.
//!
//! Instants are nanoseconds on the monotonic clock, counted from the clock's origin,
//! which a `Timing` takes when it is created.

use vstd::prelude::*;

verus! {

#[verifier::external_type_specification]
#[verifier::external_body]
pub struct ExInstant(std::time::Instant);

/// Reads the monotonic clock (`std::time::Instant::now`). Nothing is stated of the
/// reading: it depends on the time of the call.
#[verifier::external_body]
fn instant_now() -> (r: std::time::Instant) {
    std::time::Instant::now()
}

/// Nanoseconds elapsed since `origin` on the monotonic clock (`Instant::elapsed`,
/// then `Duration::as_nanos`). Nothing is stated of the value: it depends on the time
/// of the call.
#[verifier::external_body]
fn nanos_since(origin: &std::time::Instant) -> (r: u128) {
    origin.elapsed().as_nanos()
}

pub const NANOS_PER_SEC: i128 = 1_000_000_000;

/// Frames later than this are dropped unless the threshold is changed: 50 ms.
pub const DEFAULT_DROP_THRESHOLD_NS: u64 = 50_000_000;

/// A stream time base `num / den` seconds per timestamp tick, kept with `den > 0`.
pub struct TimeBase {
    num: i64,
    den: i64,
}

impl TimeBase {
    pub closed spec fn num_spec(self) -> int {
        self.num as int
    }

    pub closed spec fn den_spec(self) -> int {
        self.den as int
    }

    #[verifier::type_invariant]
    closed spec fn wf(self) -> bool {
        &&& 0 < self.den <= 0x8000_0000
        &&& -0x8000_0000 <= self.num <= 0x8000_0000
    }

    /// The time base `num / den`, the sign carried by the numerator; `None` when `den` is 0.
    pub fn new(num: i32, den: i32) -> (r: Option<TimeBase>)
        ensures
            den == 0 <==> r is None,
            r matches Some(tb) ==> tb.num_spec() == (if den < 0 { -num } else { num as int })
                && tb.den_spec() == (if den < 0 { -den } else { den as int }),
    {
        if den == 0 {
            None
        } else if den < 0 {
            Some(TimeBase { num: -(num as i64), den: -(den as i64) })
        } else {
            Some(TimeBase { num: num as i64, den: den as i64 })
        }
    }

    pub fn num(&self) -> (r: i64)
        ensures
            r == self.num_spec(),
    {
        self.num
    }

    pub fn den(&self) -> (r: i64)
        ensures
            r == self.den_spec(),
            r > 0,
    {
        proof {
            use_type_invariant(self);
        }
        self.den
    }
}

/// Nanoseconds from the start of playback to the frame with timestamp `pts`:
/// `pts * num / den` seconds, rounded to the nearest whole nanosecond (halves up).
pub open spec fn pts_offset_ns(pts: int, num: int, den: int) -> int {
    (2 * (pts * num * NANOS_PER_SEC) + den) / (2 * den)
}

/// The instant `n` nanoseconds after the clock's origin, saturated to `u64::MAX`.
pub fn instant_from_nanos(n: u128) -> (r: u64)
    ensures
        r == if n > u64::MAX { u64::MAX as int } else { n as int },
{
    if n > u64::MAX as u128 {
        u64::MAX
    } else {
        n as u64
    }
}

/// The presentation clock of one stream.
pub struct Timing {
    origin: std::time::Instant,
    start_ns: u64,
    time_base: TimeBase,
    drop_threshold_ns: u64,
}

impl Timing {
    /// When playback started, in nanoseconds since the clock's origin.
    pub closed spec fn start_spec(&self) -> int {
        self.start_ns as int
    }

    pub closed spec fn num_spec(&self) -> int {
        self.time_base.num as int
    }

    pub closed spec fn den_spec(&self) -> int {
        self.time_base.den as int
    }

    pub closed spec fn threshold_spec(&self) -> int {
        self.drop_threshold_ns as int
    }

    /// Whether the frame with timestamp `pts` has a due time that `render_time` can give.
    pub open spec fn can_time(&self, pts: int) -> bool {
        &&& pts * self.num_spec() >= 0
        &&& self.start_spec() + pts_offset_ns(pts, self.num_spec(), self.den_spec()) <= u64::MAX
    }

    /// The instant the frame with timestamp `pts` is due.
    pub open spec fn due_spec(&self, pts: int) -> int {
        self.start_spec() + pts_offset_ns(pts, self.num_spec(), self.den_spec())
    }

    /// Starts the presentation clock now, with the default drop threshold.
    pub fn new(time_base: TimeBase) -> (t: Timing)
        ensures
            t.start_spec() == 0,
            t.num_spec() == time_base.num_spec(),
            t.den_spec() == time_base.den_spec(),
            t.threshold_spec() == DEFAULT_DROP_THRESHOLD_NS,
            t.den_spec() > 0,
    {
        proof {
            use_type_invariant(&time_base);
        }
        Timing {
            origin: instant_now(),
            start_ns: 0,
            time_base,
            drop_threshold_ns: DEFAULT_DROP_THRESHOLD_NS,
        }
    }

    /// Every `Timing` has a positive time-base denominator; this makes that known to callers.
    pub fn den_positive(&self)
        ensures
            self.den_spec() > 0,
    {
        proof {
            use_type_invariant(&self.time_base);
        }
    }

    /// The current instant: the nanoseconds elapsed since the clock's origin, saturated to
    /// `u64::MAX` by `instant_from_nanos`. Nothing more is stated of its value: the elapsed
    /// time depends on when the call is made.
    pub fn now(&self) -> (r: u64) {
        instant_from_nanos(nanos_since(&self.origin))
    }

    /// The instant the frame with timestamp `pts` is due.
    pub fn render_time(&self, pts: i64) -> (r: u64)
        requires
            self.can_time(pts as int),
        ensures
            r == self.due_spec(pts as int),
    {
        proof {
            use_type_invariant(&self.time_base);
        }
        let num = self.time_base.num;
        let den = self.time_base.den;
        assert(-0x8000_0000_0000_0000 * 0x8000_0000 <= pts * num <= 0x8000_0000_0000_0000 * 0x8000_0000) by (nonlinear_arith)
            requires
                -0x8000_0000_0000_0000 <= pts <= 0x7fff_ffff_ffff_ffff,
                -0x8000_0000 <= num <= 0x8000_0000,
        ;
        let scaled: i128 = (pts as i128) * (num as i128);
        assert(0 <= scaled * NANOS_PER_SEC <= 0x8000_0000_0000_0000 * 0x8000_0000 * NANOS_PER_SEC) by (nonlinear_arith)
            requires
                0 <= scaled <= 0x8000_0000_0000_0000 * 0x8000_0000,
        ;
        let total: i128 = scaled * NANOS_PER_SEC;
        let twice_den: i128 = 2 * (den as i128);
        let offset: i128 = (2 * total + den as i128) / twice_den;
        assert(0 <= offset) by (nonlinear_arith)
            requires
                0 <= total,
                0 < den,
                twice_den == 2 * den,
                offset == (2 * total + den) / (twice_den as int),
        ;
        (self.start_ns as i128 + offset) as u64
    }

    /// Whether the frame with timestamp `pts`, looked at instant `now`, is later than its
    /// due time by more than the drop threshold.
    pub fn should_drop(&self, pts: i64, now: u64) -> (r: bool)
        requires
            self.can_time(pts as int),
            self.due_spec(pts as int) + self.threshold_spec() <= u64::MAX,
        ensures
            r == (now > self.due_spec(pts as int) + self.threshold_spec()),
    {
        let due = self.render_time(pts);
        now > due + self.drop_threshold_ns
    }

    /// Restarts the presentation clock at instant `now`.
    pub fn reset_at(&mut self, now: u64)
        ensures
            final(self).start_spec() == now,
            final(self).num_spec() == old(self).num_spec(),
            final(self).den_spec() == old(self).den_spec(),
            final(self).threshold_spec() == old(self).threshold_spec(),
    {
        self.start_ns = now;
    }

    /// Restarts the presentation clock now. Which instant it restarts at depends on
    /// the time of the call; the time base and the drop threshold are kept.
    pub fn reset(&mut self)
        ensures
            final(self).num_spec() == old(self).num_spec(),
            final(self).den_spec() == old(self).den_spec(),
            final(self).threshold_spec() == old(self).threshold_spec(),
    {
        let now = self.now();
        self.reset_at(now);
    }

    /// Sets how late a frame may be before it is dropped, in nanoseconds.
    pub fn set_drop_threshold(&mut self, threshold_ns: u64)
        ensures
            final(self).threshold_spec() == threshold_ns,
            final(self).start_spec() == old(self).start_spec(),
            final(self).num_spec() == old(self).num_spec(),
            final(self).den_spec() == old(self).den_spec(),
    {
        self.drop_threshold_ns = threshold_ns;
    }
}

/// With a non-negative time base, a later timestamp is never due earlier.
pub proof fn lemma_due_time_is_monotone(t: Timing, pts1: int, pts2: int)
    requires
        t.den_spec() > 0,
        t.num_spec() >= 0,
        pts1 <= pts2,
    ensures
        t.due_spec(pts1) <= t.due_spec(pts2),
{
    let num = t.num_spec();
    assert(pts1 * num * NANOS_PER_SEC <= pts2 * num * NANOS_PER_SEC) by (nonlinear_arith)
        requires
            pts1 <= pts2,
            num >= 0,
    ;
    vstd::arithmetic::div_mod::lemma_div_is_ordered(
        2 * (pts1 * num * NANOS_PER_SEC) + t.den_spec(),
        2 * (pts2 * num * NANOS_PER_SEC) + t.den_spec(),
        2 * t.den_spec(),
    );
}

/// The frame with timestamp 0 is due when playback starts.
pub proof fn lemma_first_timestamp_due_at_start(t: Timing)
    requires
        t.den_spec() > 0,
    ensures
        t.due_spec(0) == t.start_spec(),
{
    assert(0 * t.num_spec() * NANOS_PER_SEC == 0);
    vstd::arithmetic::div_mod::lemma_basic_div(t.den_spec(), 2 * t.den_spec());
}

/// A frame that is late at some instant is late at every later instant.
pub proof fn lemma_lateness_persists(t: Timing, pts: int, now1: int, now2: int)
    requires
        now1 <= now2,
        now1 > t.due_spec(pts) + t.threshold_spec(),
    ensures
        now2 > t.due_spec(pts) + t.threshold_spec(),
{
}

/// How long to sleep at instant `now` to wake at `render_time`: nothing when it has passed.
pub fn sleep_ns_until(render_time: u64, now: u64) -> (r: u64)
    ensures
        render_time > now ==> now + r == render_time,
        render_time <= now ==> r == 0,
{
    if render_time > now {
        render_time - now
    } else {
        0
    }
}

} // verus!
