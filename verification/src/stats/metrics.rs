//! The per-process frame-time buffer used to compute FPS, frame time and the
//! 1% low.
//!
//! Frame times are the IEEE-754 single-precision bit patterns of the
//! millisecond intervals between presents, and arrival times are monotonic
//! clock readings in nanoseconds, so that every decision the buffer makes is
//! exact.

use vstd::prelude::*;
use vstd::relations::*;
use vstd::seq_lib::lemma_sorted_unique;

verus! {

/// Whether `bits` encodes a finite `f32` greater than zero.
///
/// With the sign bit clear, a finite value has an exponent field below 255,
/// and the only encoding of a positive zero is all bits clear.
pub open spec fn is_positive_finite_f32(bits: u32) -> bool {
    0 < bits < 0x7f80_0000
}

/// `a - b`, or zero when `b` is later than `a`.
pub open spec fn elapsed(now: u64, then: u64) -> nat {
    if now >= then {
        (now - then) as nat
    } else {
        0
    }
}

/// The frame times of the samples that arrived within `window` of `now`,
/// newest first, stopping at the first older one.
pub open spec fn recent_newest_first(s: Seq<(u64, u32)>, now: u64, window: u64) -> Seq<u32>
    decreases s.len(),
{
    if s.len() == 0 || elapsed(now, s.last().0) > window {
        Seq::empty()
    } else {
        seq![s.last().1] + recent_newest_first(s.drop_last(), now, window)
    }
}

/// The samples after recording `x` into a buffer of capacity `cap` holding
/// `s`: a frame time that is not positive and finite is ignored; otherwise
/// the oldest sample makes room when the buffer is full.
pub open spec fn push_spec(s: Seq<(u64, u32)>, cap: nat, x: (u64, u32)) -> Seq<(u64, u32)> {
    if !is_positive_finite_f32(x.1) {
        s
    } else if s.len() >= cap && s.len() > 0 {
        s.drop_first().push(x)
    } else {
        s.push(x)
    }
}

/// The samples after recording each of `xs` in turn.
pub open spec fn push_all(s: Seq<(u64, u32)>, cap: nat, xs: Seq<(u64, u32)>) -> Seq<(u64, u32)>
    decreases xs.len(),
{
    if xs.len() == 0 {
        s
    } else {
        push_spec(push_all(s, cap, xs.drop_last()), cap, xs.last())
    }
}

/// How many samples a buffer of capacity `cap` keeps: `cap`, or one when the
/// capacity is zero.
pub open spec fn kept(cap: nat) -> nat {
    if cap == 0 {
        1
    } else {
        cap
    }
}

/// A buffer that starts empty and records valid frame times keeps exactly
/// the most recent of them, as many as its capacity allows, oldest first.
pub proof fn lemma_keeps_most_recent(cap: nat, xs: Seq<(u64, u32)>)
    requires
        forall|i: int| 0 <= i < xs.len() ==> is_positive_finite_f32(#[trigger] xs[i].1),
    ensures
        push_all(Seq::empty(), cap, xs) == xs.subrange(
            if xs.len() > kept(cap) {
                xs.len() - kept(cap)
            } else {
                0
            },
            xs.len() as int,
        ),
    decreases xs.len(),
{
    if xs.len() > 0 {
        let p = xs.drop_last();
        assert forall|i: int| 0 <= i < p.len() implies is_positive_finite_f32(#[trigger] p[i].1) by {
            assert(p[i] == xs[i]);
        }
        lemma_keeps_most_recent(cap, p);
        let n = xs.len() as int;
        let k = kept(cap) as int;
        let start = if n > k {
            n - k
        } else {
            0
        };
        let prev_start = if n - 1 > k {
            n - 1 - k
        } else {
            0
        };
        let r = p.subrange(prev_start, n - 1);
        assert(is_positive_finite_f32(xs.last().1));
        if r.len() >= cap && r.len() > 0 {
            assert(r.drop_first().push(xs.last()) =~= xs.subrange(start, n));
        } else {
            assert(r.push(xs.last()) =~= xs.subrange(start, n));
        }
    } else {
        assert(xs.subrange(0, 0) =~= Seq::<(u64, u32)>::empty());
    }
}

/// The frame times of a sample sequence, oldest first.
pub open spec fn frame_values(s: Seq<(u64, u32)>) -> Seq<u32> {
    s.map_values(|x: (u64, u32)| x.1)
}

/// Ascending order of frame-time bit patterns. On positive finite `f32`
/// values it is the numeric order.
pub open spec fn bits_le() -> spec_fn(u32, u32) -> bool {
    |a: u32, b: u32| a <= b
}

/// The position of the 99th percentile in `n` ascending values:
/// `ceil(0.99 * n) - 1`, written as `n - floor(n / 100) - 1`.
pub open spec fn p99_index(n: nat) -> nat {
    (n - n / 100 - 1) as nat
}

/// The fewest samples for which a 1% low is reported.
pub const MIN_PERCENTILE_SAMPLES: usize = 30;

/// A rolling buffer of recent frame intervals for one process, each tagged
/// with its arrival time.
pub struct FrameTimes {
    samples: std::collections::VecDeque<(u64, u32)>,
    capacity: usize,
}

impl FrameTimes {
    /// The samples, oldest first: arrival time and frame-time bits.
    pub closed spec fn sample_seq(&self) -> Seq<(u64, u32)> {
        self.samples@
    }

    /// The number of samples the buffer keeps.
    pub closed spec fn cap(&self) -> nat {
        self.capacity as nat
    }

    #[verifier::type_invariant]
    closed spec fn inv(&self) -> bool {
        &&& forall|i: int|
            0 <= i < self.samples@.len() ==> is_positive_finite_f32(#[trigger] self.samples@[i].1)
        &&& self.samples@.len() <= self.capacity || self.samples@.len() <= 1
    }

    /// Every sample is a positive finite frame time, and the buffer holds no
    /// more than its capacity, or one sample when the capacity is zero.
    pub open spec fn well_formed(&self) -> bool {
        &&& forall|i: int|
            0 <= i < self.sample_seq().len() ==> is_positive_finite_f32(
                #[trigger] self.sample_seq()[i].1,
            )
        &&& self.sample_seq().len() <= self.cap() || self.sample_seq().len() <= 1
    }

    /// An empty buffer that keeps the last `capacity` frames.
    pub fn new(capacity: usize) -> (r: FrameTimes)
        ensures
            r.sample_seq() == Seq::<(u64, u32)>::empty(),
            r.cap() == capacity,
            r.well_formed(),
    {
        let hint = if capacity < 4096 {
            capacity
        } else {
            4096
        };
        FrameTimes { samples: std::collections::VecDeque::with_capacity(hint), capacity }
    }

    /// The number of samples held.
    pub fn len(&self) -> (r: usize)
        ensures
            r == self.sample_seq().len(),
    {
        self.samples.len()
    }

    /// Records a frame interval that arrived at `now`. A frame time that is
    /// not a positive finite number is ignored; when the buffer is full the
    /// oldest sample makes room.
    pub fn push(&mut self, frame_time_bits: u32, now: u64)
        ensures
            final(self).cap() == old(self).cap(),
            final(self).well_formed(),
            final(self).sample_seq() == push_spec(
                old(self).sample_seq(),
                old(self).cap(),
                (now, frame_time_bits),
            ),
    {
        if !(0 < frame_time_bits && frame_time_bits < 0x7f80_0000) {
            proof {
                use_type_invariant(&*self);
            }
            return ;
        }
        let mut taken = FrameTimes { samples: std::collections::VecDeque::new(), capacity: 0 };
        std::mem::swap(self, &mut taken);
        proof {
            use_type_invariant(&taken);
        }
        let FrameTimes { mut samples, capacity } = taken;
        if samples.len() >= capacity {
            let _ = samples.pop_front();
        }
        samples.push_back((now, frame_time_bits));
        *self = FrameTimes { samples, capacity };
    }

    /// Whether no frame has arrived within `max_age` of `now`.
    pub fn is_stale(&self, now: u64, max_age: u64) -> (r: bool)
        ensures
            r == (self.sample_seq().len() == 0 || elapsed(now, self.sample_seq().last().0)
                > max_age),
    {
        let n = self.samples.len();
        if n == 0 {
            return true;
        }
        let t = self.samples[n - 1].0;
        let age = if now >= t {
            now - t
        } else {
            0
        };
        age > max_age
    }

    /// The frame times that arrived within `window` of `now`, newest first,
    /// up to the first sample that is older.
    pub fn recent_frame_times(&self, now: u64, window: u64) -> (r: Vec<u32>)
        ensures
            r@ == recent_newest_first(self.sample_seq(), now, window),
    {
        let n = self.samples.len();
        let mut r: Vec<u32> = Vec::new();
        let mut k: usize = n;
        assert(self.samples@.take(n as int) =~= self.samples@);
        assert(r@ + recent_newest_first(self.samples@, now, window) =~= recent_newest_first(
            self.samples@,
            now,
            window,
        ));
        while k > 0
            invariant
                k <= n,
                n == self.samples@.len(),
                recent_newest_first(self.samples@, now, window) == r@
                    + recent_newest_first(self.samples@.take(k as int), now, window),
            decreases k,
        {
            let (t, v) = self.samples[k - 1];
            let age = if now >= t {
                now - t
            } else {
                0
            };
            assert(self.samples@.take(k as int).drop_last() =~= self.samples@.take(k - 1));
            if age > window {
                assert(r@ + Seq::<u32>::empty() =~= r@);
                return r;
            }
            let ghost before = r@;
            r.push(v);
            assert(before + (seq![v] + recent_newest_first(self.samples@.take(k - 1), now, window))
                =~= r@ + recent_newest_first(self.samples@.take(k - 1), now, window));
            k = k - 1;
        }
        assert(r@ + Seq::<u32>::empty() =~= r@);
        r
    }

    /// The 99th-percentile frame time over the whole buffer, or nothing when
    /// fewer than 30 samples are held.
    pub fn low_percentile(&self) -> (r: Option<u32>)
        ensures
            self.sample_seq().len() < 30 ==> r is None,
            self.sample_seq().len() >= 30 ==> r == Some(
                frame_values(self.sample_seq()).sort_by(bits_le())[p99_index(
                    self.sample_seq().len(),
                ) as int],
            ),
    {
        let n = self.samples.len();
        if n < MIN_PERCENTILE_SAMPLES {
            return None;
        }
        let mut v: Vec<u32> = Vec::new();
        let mut i: usize = 0;
        while i < n
            invariant
                i <= n,
                n == self.samples@.len(),
                v@ =~= frame_values(self.samples@.take(i as int)),
            decreases n - i,
        {
            v.push(self.samples[i].1);
            i = i + 1;
        }
        assert(self.samples@.take(n as int) =~= self.samples@);
        let ghost unsorted = v@;
        sort_ascending(&mut v);
        proof {
            vstd::seq_lib::to_multiset_len(v@);
            vstd::seq_lib::to_multiset_len(unsorted);
            lemma_bits_le_total();
            unsorted.lemma_sort_by_ensures(bits_le());
            lemma_sorted_unique(v@, unsorted.sort_by(bits_le()), bits_le());
        }
        let idx = n - n / 100 - 1;
        Some(v[idx])
    }
}

/// The 1% low is taken from the 99th percentile: of the `n` buffered frame
/// times in ascending order, the reported one is followed by `n / 100` of
/// them, at most 1% of the frames, and it is itself one of the buffered
/// frame times.
pub proof fn lemma_low_percentile_is_p99(s: Seq<(u64, u32)>)
    requires
        s.len() >= 30,
    ensures
        ({
            let v = frame_values(s);
            let t = v.sort_by(bits_le());
            let i = p99_index(s.len());
            &&& t.len() == s.len()
            &&& sorted_by(t, bits_le())
            &&& 0 <= i < t.len()
            &&& t.len() - 1 - i == s.len() / 100
            &&& (s.len() / 100) * 100 <= s.len()
            &&& v.contains(t[i as int])
        }),
{
    let v = frame_values(s);
    lemma_bits_le_total();
    v.lemma_sort_by_ensures(bits_le());
    let t = v.sort_by(bits_le());
    vstd::seq_lib::to_multiset_len(v);
    vstd::seq_lib::to_multiset_len(t);
    let i = p99_index(s.len());
    vstd::seq_lib::to_multiset_contains(t, t[i as int]);
    vstd::seq_lib::to_multiset_contains(v, t[i as int]);
    assert(t.contains(t[i as int]));
}

proof fn lemma_bits_le_total()
    ensures
        total_ordering(bits_le()),
{
    let f = bits_le();
    assert(reflexive(f));
    assert(antisymmetric(f));
    assert(transitive(f));
    assert(strongly_connected(f));
}

/// Sorts `v` in ascending order with `slice::sort`. The contract claims that
/// the result holds the same values, each as often, in ascending order.
#[verifier::external_body]
fn sort_ascending(v: &mut Vec<u32>)
    ensures
        final(v)@.to_multiset() == old(v)@.to_multiset(),
        sorted_by(final(v)@, bits_le()),
{
    v.sort();
}

/// The frame times a summary is computed from: those that arrived within
/// `recent` of `now`, newest first, and the 99th-percentile frame time of
/// the whole buffer (when it holds at least 30). Nothing when no frame
/// arrived within `recent`.
pub open spec fn summary_samples_spec(s: Seq<(u64, u32)>, now: u64, recent: u64) -> Option<(Seq<u32>, Option<u32>)> {
    let r = recent_newest_first(s, now, recent);
    if r.len() == 0 {
        None
    } else {
        Some((r, if s.len() >= 30 {
            Some(frame_values(s).sort_by(bits_le())[p99_index(s.len()) as int])
        } else {
            None
        }))
    }
}

impl FrameTimes {
    /// The frame times FPS, frame time and 1% low are computed from.
    pub fn summary_samples(&self, now: u64, recent: u64) -> (r: Option<(Vec<u32>, Option<u32>)>)
        ensures
            match r {
                Some((a, b)) => summary_samples_spec(self.sample_seq(), now, recent) == Some((a@, b)),
                None => summary_samples_spec(self.sample_seq(), now, recent) is None,
            },
    {
        let recent_times = self.recent_frame_times(now, recent);
        if recent_times.len() == 0 {
            return None;
        }
        let low = self.low_percentile();
        Some((recent_times, low))
    }
}

/// The frame times for the FPS summary of the process `pid`: nothing when
/// FPS telemetry is unavailable, there is no target process (pid 0), the
/// process has no buffer, or it has not presented within `stale_after`.
pub fn fps_summary_samples(
    fps_available: bool,
    pid: u32,
    frames: Option<&FrameTimes>,
    now: u64,
    recent: u64,
    stale_after: u64,
) -> (r: Option<(Vec<u32>, Option<u32>)>)
    ensures
        !fps_available || pid == 0 || frames is None ==> r is None,
        fps_available && pid != 0 && frames is Some ==> ({
            let s = frames->0.sample_seq();
            if s.len() == 0 || elapsed(now, s.last().0) > stale_after {
                r is None
            } else {
                match r {
                    Some((a, b)) => summary_samples_spec(s, now, recent) == Some((a@, b)),
                    None => summary_samples_spec(s, now, recent) is None,
                }
            }
        }),
{
    if !fps_available || pid == 0 {
        return None;
    }
    let ft = match frames {
        Some(ft) => ft,
        None => return None,
    };
    if ft.is_stale(now, stale_after) {
        return None;
    }
    ft.summary_samples(now, recent)
}

} // verus!
