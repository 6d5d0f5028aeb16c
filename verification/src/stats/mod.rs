//! Frame-time statistics, the per-process frame buffers, and the PresentMon
//! output parser.

pub mod metrics;
pub mod presentmon;

pub use metrics::FrameTimes;

use vstd::prelude::*;
use std::collections::HashMap;
use crate::stats::metrics::{elapsed, push_spec};

verus! {

broadcast use vstd::std_specs::hash::group_hash_axioms;

/// Whether a buffer has had no frame within `max_age` of `now`.
pub open spec fn stale_spec(ft: FrameTimes, now: u64, max_age: u64) -> bool {
    ft.sample_seq().len() == 0 || elapsed(now, ft.sample_seq().last().0) > max_age
}

/// The buffers of the processes that are not stale.
pub open spec fn fresh_only(m: Map<u32, FrameTimes>, now: u64, max_age: u64) -> Map<u32, FrameTimes> {
    m.restrict(Set::new(|k: u32| m.contains_key(k) && !stale_spec(m[k], now, max_age)))
}

/// Frame-time buffers keyed by process id.
pub struct ProcessFrames {
    map: HashMap<u32, FrameTimes>,
}

impl ProcessFrames {
    /// The buffer of each process that has presented.
    pub closed spec fn frames(&self) -> Map<u32, FrameTimes> {
        self.map@
    }

    /// No processes yet.
    pub fn new() -> (r: ProcessFrames)
        ensures
            r.frames() == Map::<u32, FrameTimes>::empty(),
    {
        ProcessFrames { map: HashMap::new() }
    }

    /// The buffer of process `pid`, if it has one.
    pub fn get(&self, pid: u32) -> (r: Option<&FrameTimes>)
        ensures
            match r {
                Some(ft) => self.frames().contains_key(pid) && self.frames()[pid] == *ft,
                None => !self.frames().contains_key(pid),
            },
    {
        self.map.get(&pid)
    }

    /// The number of processes with a buffer.
    pub fn len(&self) -> (r: usize)
        ensures
            r == self.frames().len(),
    {
        self.map.len()
    }

    /// Records a frame interval of process `pid` that arrived at `now`; a
    /// process seen for the first time gets a buffer of `capacity` frames.
    pub fn record(&mut self, pid: u32, capacity: usize, frame_time_bits: u32, now: u64)
        ensures
            final(self).frames().dom() == old(self).frames().dom().insert(pid),
            forall|k: u32|
                k != pid && old(self).frames().contains_key(k) ==> #[trigger] final(self).frames()[k] == old(self).frames()[k],
            ({
                let before = if old(self).frames().contains_key(pid) {
                    old(self).frames()[pid].sample_seq()
                } else {
                    Seq::empty()
                };
                let cap = if old(self).frames().contains_key(pid) {
                    old(self).frames()[pid].cap()
                } else {
                    capacity as nat
                };
                &&& final(self).frames()[pid].sample_seq() == push_spec(
                    before,
                    cap,
                    (now, frame_time_bits),
                )
                &&& final(self).frames()[pid].cap() == cap
            }),
    {
        let mut ft = match self.map.remove(&pid) {
            Some(ft) => ft,
            None => FrameTimes::new(capacity),
        };
        ft.push(frame_time_bits, now);
        self.map.insert(pid, ft);
    }

    /// Drops the buffers of processes that have not presented within
    /// `max_age` of `now`, keeping every other buffer as it is.
    pub fn prune_stale(&mut self, now: u64, max_age: u64)
        ensures
            final(self).frames() == fresh_only(old(self).frames(), now, max_age),
    {
        let ghost start = self.map@;
        let mut keys: Vec<u32> = Vec::new();
        for k in it: self.map.keys()
            invariant
                self.map@ == start,
                it.seq() == vstd::std_specs::iter::IteratorSpec::remaining(&vstd::std_specs::hash::spec_keys_iter(&self.map)),
                keys@ == it.seq().take(it.index() as int).map_values(|r: &u32| *r),
        {
            keys.push(*k);
        }
        proof {
            let rem = vstd::std_specs::iter::IteratorSpec::remaining(&vstd::std_specs::hash::spec_keys_iter(&self.map));
            assert(keys@ =~= rem.map_values(|r: &u32| *r));
            assert(rem.unref() =~= keys@);
            assert(keys@.to_set() =~= start.dom());
        }
        let n = keys.len();
        let mut i: usize = 0;
        while i < n
            invariant
                n == keys@.len(),
                i <= n,
                keys@.to_set() == start.dom(),
                keys@.no_duplicates(),
                self.map@ == start.restrict(
                    Set::new(
                        |k: u32|
                            start.contains_key(k) && !(keys@.take(i as int).contains(k)
                                && stale_spec(start[k], now, max_age)),
                    ),
                ),
            decreases n - i,
        {
            let k = keys[i];
            proof {
                assert(keys@.contains(k));
                assert(keys@.to_set().contains(k));
                if keys@.take(i as int).contains(k) {
                    let j = choose|j: int| 0 <= j < i && keys@.take(i as int)[j] == k;
                    assert(keys@[j] == keys@[i as int]);
                }
                assert(self.map@.contains_key(k));
                assert(self.map@[k] == start[k]);
            }
            let stale = match self.map.get(&k) {
                Some(ft) => ft.is_stale(now, max_age),
                None => false,
            };
            if stale {
                let _ = self.map.remove(&k);
            }
            proof {
                let next = keys@.take(i + 1);
                assert(next =~= keys@.take(i as int).push(k));
                assert forall|x: u32| #[trigger] next.contains(x) == (keys@.take(i as int).contains(x) || x == k) by {
                    if next.contains(x) {
                        let j = choose|j: int| 0 <= j < next.len() && next[j] == x;
                        if j < i {
                            assert(keys@.take(i as int)[j] == x);
                        }
                    }
                    if keys@.take(i as int).contains(x) {
                        let j = choose|j: int| 0 <= j < i && keys@.take(i as int)[j] == x;
                        assert(next[j] == x);
                    }
                    if x == k {
                        assert(next[i as int] == x);
                    }
                }
                assert(self.map@ =~= start.restrict(
                    Set::new(
                        |x: u32|
                            start.contains_key(x) && !(next.contains(x) && stale_spec(
                                start[x],
                                now,
                                max_age,
                            )),
                    ),
                ));
            }
            i = i + 1;
        }
        proof {
            assert(keys@.take(n as int) =~= keys@);
            assert(self.map@ =~= fresh_only(start, now, max_age));
        }
    }
}

} // verus!
