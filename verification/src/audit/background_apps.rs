//! Read-only check: background apps using significant CPU.
//!
//! Reports only; no process is ever closed. Each process's share of the
//! whole machine's CPU is an `f32`, held here as its bit pattern.

use vstd::prelude::*;
use vstd::string::*;
use crate::audit::{finding_views, new_finding, report_only, Finding, FindingView, Severity};
use crate::config::{f32_is_nan, f32_order_key};
use crate::text::{append_joined, append_str, join, string_of, string_views};

verus! {

/// The bit pattern of the `f32` 8.0: processes using at least 8% of the
/// machine's CPU are reported.
pub const CPU_THRESHOLD_BITS: u32 = 0x4100_0000;

/// At most this many processes are reported.
pub const MAX_OFFENDERS: usize = 5;

/// Whether a CPU share is at least the threshold (`x >= 8.0`; never NaN).
pub open spec fn over_threshold(bits: u32) -> bool {
    !f32_is_nan(bits) && f32_order_key(bits) >= f32_order_key(CPU_THRESHOLD_BITS)
}

/// The positions, in order, of the shares that are over the threshold.
pub open spec fn eligible(usage: Seq<u32>) -> Seq<int>
    decreases usage.len(),
{
    if usage.len() == 0 {
        Seq::empty()
    } else {
        let prev = eligible(usage.drop_last());
        if over_threshold(usage.last()) {
            prev.push(usage.len() - 1)
        } else {
            prev
        }
    }
}

/// The position in `cands` of the first of the largest shares.
pub open spec fn first_max(usage: Seq<u32>, cands: Seq<int>) -> int
    decreases cands.len(),
{
    if cands.len() <= 1 {
        0
    } else {
        let p = first_max(usage, cands.drop_last());
        if f32_order_key(usage[cands.last()]) > f32_order_key(usage[cands[p]]) {
            cands.len() - 1
        } else {
            p
        }
    }
}

/// The first `k` of `cands` in descending order of share, earlier positions
/// first among equal shares: what a stable descending sort followed by
/// truncation keeps.
pub open spec fn top_by_share(usage: Seq<u32>, cands: Seq<int>, k: nat) -> Seq<int>
    decreases k,
{
    if k == 0 || cands.len() == 0 {
        Seq::empty()
    } else {
        let p = first_max(usage, cands);
        seq![cands[p]] + top_by_share(usage, cands.remove(p), (k - 1) as nat)
    }
}

proof fn lemma_first_max_in_range(usage: Seq<u32>, cands: Seq<int>)
    requires
        cands.len() > 0,
    ensures
        0 <= first_max(usage, cands) < cands.len(),
    decreases cands.len(),
{
    if cands.len() > 1 {
        lemma_first_max_in_range(usage, cands.drop_last());
    }
}

fn over_threshold_bits(bits: u32) -> (r: bool)
    ensures
        r == over_threshold(bits),
{
    let nan = (bits / 0x80_0000) % 0x100 == 0xff && bits % 0x80_0000 != 0;
    !nan && bits < 0x8000_0000 && bits >= CPU_THRESHOLD_BITS
}

fn greater(a: u32, b: u32) -> (r: bool)
    requires
        over_threshold(a),
        over_threshold(b),
    ensures
        r == (f32_order_key(a) > f32_order_key(b)),
{
    a > b
}

/// The processes to report, as positions into `usage`: those using at least
/// 8% of the machine's CPU, largest first, earlier positions first among
/// equal shares, at most five.
pub fn top_offenders(usage: &Vec<u32>) -> (r: Vec<usize>)
    ensures
        r@.map_values(|i: usize| i as int) == top_by_share(
            usage@,
            eligible(usage@),
            MAX_OFFENDERS as nat,
        ),
{
    let mut cands: Vec<usize> = Vec::new();
    let mut i: usize = 0;
    while i < usage.len()
        invariant
            i <= usage@.len(),
            cands@.map_values(|x: usize| x as int) =~= eligible(usage@.take(i as int)),
            forall|q: int| 0 <= q < cands@.len() ==> cands@[q] < i && over_threshold(
                usage@[#[trigger] cands@[q] as int],
            ),
        decreases usage@.len() - i,
    {
        assert(usage@.take(i + 1).drop_last() =~= usage@.take(i as int));
        if over_threshold_bits(usage[i]) {
            cands.push(i);
        }
        i = i + 1;
    }
    assert(usage@.take(usage@.len() as int) =~= usage@);
    let ghost all = eligible(usage@);
    let mut r: Vec<usize> = Vec::new();
    let mut k: usize = 0;
    while k < MAX_OFFENDERS && cands.len() > 0
        invariant
            k <= MAX_OFFENDERS,
            forall|q: int| 0 <= q < cands@.len() ==> (#[trigger] cands@[q]) < usage@.len()
                && over_threshold(usage@[cands@[q] as int]),
            top_by_share(usage@, all, MAX_OFFENDERS as nat) =~= r@.map_values(|x: usize| x as int)
                + top_by_share(
                usage@,
                cands@.map_values(|x: usize| x as int),
                (MAX_OFFENDERS - k) as nat,
            ),
        decreases MAX_OFFENDERS - k,
    {
        let ghost cs = cands@.map_values(|x: usize| x as int);
        let mut best: usize = 0;
        let mut j: usize = 1;
        while j < cands.len()
            invariant
                1 <= j <= cands@.len(),
                cs == cands@.map_values(|x: usize| x as int),
                forall|q: int| 0 <= q < cands@.len() ==> (#[trigger] cands@[q]) < usage@.len()
                    && over_threshold(usage@[cands@[q] as int]),
                best as int == first_max(usage@, cs.take(j as int)),
                best < j,
            decreases cands@.len() - j,
        {
            assert(cs.take(j + 1).drop_last() =~= cs.take(j as int));
            assert(cs.take(j + 1).last() == cs[j as int]);
            assert(cs.take(j + 1)[best as int] == cs[best as int]);
            if greater(usage[cands[j]], usage[cands[best]]) {
                best = j;
            }
            j = j + 1;
        }
        assert(cs.take(cands@.len() as int) =~= cs);
        let ghost before_r = r@;
        let chosen = cands.remove(best);
        r.push(chosen);
        assert(cands@.map_values(|x: usize| x as int) =~= cs.remove(best as int));
        assert(r@.map_values(|x: usize| x as int) =~= before_r.map_values(|x: usize| x as int).push(
            chosen as int,
        ));
        assert(top_by_share(usage@, cs, (MAX_OFFENDERS - k) as nat) =~= seq![cs[best as int]]
            + top_by_share(usage@, cs.remove(best as int), (MAX_OFFENDERS - k - 1) as nat));
        k = k + 1;
    }
    proof {
        let rest = top_by_share(
            usage@,
            cands@.map_values(|x: usize| x as int),
            (MAX_OFFENDERS - k) as nat,
        );
        assert(rest =~= Seq::<int>::empty());
    }
    r
}

/// What the check reports for the formatted entries ("name (NN%)") of the
/// processes to report: nothing when there are none.
pub open spec fn background_findings(entries: Seq<Seq<char>>) -> Seq<FindingView> {
    if entries.len() == 0 {
        Seq::empty()
    } else {
        seq![
            report_only(
                "background_apps"@,
                "Background apps using CPU"@,
                Severity::Suggestion,
                "High background CPU use detected: "@ + join(entries, ", "@) + "."@,
                "Consider closing apps you aren't using before playing. FrameWise will never close a process for you."@,
                "Frees CPU headroom if you choose to close a background hog."@,
            ),
        ]
    }
}

/// Reports the background processes using significant CPU, given their
/// formatted entries ("name (NN%)"), largest first.
pub fn check(entries: &Vec<String>) -> (r: Vec<Finding>)
    ensures
        finding_views(r@) == background_findings(string_views(entries@)),
{
    let mut out: Vec<Finding> = Vec::new();
    if entries.len() == 0 {
        assert(finding_views(out@) =~= Seq::<FindingView>::empty());
        return out;
    }
    let mut issue: Vec<char> = Vec::new();
    append_str(&mut issue, "High background CPU use detected: ");
    append_joined(&mut issue, entries, ", ");
    append_str(&mut issue, ".");
    let f = new_finding(
        "background_apps",
        "Background apps using CPU",
        Severity::Suggestion,
        string_of(&issue),
        "Consider closing apps you aren't using before playing. FrameWise will never close a process for you.",
        "Frees CPU headroom if you choose to close a background hog.",
    );
    out.push(f);
    assert(finding_views(out@) =~= seq![f@]);
    out
}

} // verus!
