//! Read-only check: installed GPU driver versions, from the display adapter
//! instances of the registry's Display device class. The installed version
//! is reported; it is deliberately not compared to a "latest" one, which is
//! vendor-specific and left to the vendor's own tool.

use vstd::prelude::*;
use vstd::string::*;
use crate::audit::{finding_views, new_finding, report_only, Finding, FindingView, Severity};
use crate::text::{
    all_ascii_digits, append_str, chars_of, contains_chars, contains_seq, string_of,
    to_lowercase, unicode_lowercase,
};

verus! {

/// A subkey of the Display device class, with the values it holds (empty
/// when absent).
#[derive(Debug, Clone)]
pub struct DisplayAdapter {
    /// The subkey's name; adapter instances are four digits, like "0000".
    pub subkey: String,
    /// `DriverDesc`.
    pub description: String,
    /// `DriverVersion`.
    pub version: String,
}

/// The recommendation for every driver finding.
pub open spec fn driver_recommendation() -> Seq<char> {
    "Keep drivers current via the vendor's official tool (NVIDIA App / AMD Adrenalin / Intel). FrameWise does not auto-download drivers; checking for the latest version requires a vendor-specific online lookup."@
}

/// What is reported for one subkey: nothing unless it is an adapter instance
/// (four ASCII digits) with a description or a version, other than the
/// Microsoft Basic Render Driver.
pub open spec fn adapter_finding(subkey: Seq<char>, description: Seq<char>, version: Seq<char>) -> Option<
    FindingView,
> {
    if !(subkey.len() == 4 && all_ascii_digits(subkey)) {
        None
    } else if description.len() == 0 && version.len() == 0 {
        None
    } else if contains_seq(unicode_lowercase(description), "microsoft basic"@) {
        None
    } else {
        let name = if description.len() == 0 {
            "GPU"@
        } else {
            description
        };
        let v = if version.len() == 0 {
            "unknown"@
        } else {
            version
        };
        Some(
            report_only(
                "gpu_driver"@,
                "GPU driver version"@,
                Severity::Info,
                name + " — driver version "@ + v + "."@,
                driver_recommendation(),
                "Game-specific; newer drivers often add per-title optimizations."@,
            ),
        )
    }
}

/// The findings for the adapters, in order.
pub open spec fn adapter_findings(adapters: Seq<DisplayAdapter>) -> Seq<FindingView>
    decreases adapters.len(),
{
    if adapters.len() == 0 {
        Seq::empty()
    } else {
        let a = adapters.last();
        adapter_findings(adapters.drop_last()) + match adapter_finding(
            a.subkey@,
            a.description@,
            a.version@,
        ) {
            Some(f) => seq![f],
            None => Seq::empty(),
        }
    }
}

/// The finding when no adapter could be read.
pub open spec fn unreadable_finding() -> FindingView {
    report_only(
        "gpu_driver"@,
        "GPU driver version"@,
        Severity::Info,
        "Could not read GPU driver info from the registry."@,
        "Check Device Manager > Display adapters."@,
        "n/a"@,
    )
}

/// What the driver check reports: nothing when the device class could not
/// be opened; otherwise a finding per adapter, or one saying that none could
/// be read.
pub open spec fn gpu_driver_findings(adapters: Option<Seq<DisplayAdapter>>) -> Seq<FindingView> {
    match adapters {
        None => Seq::empty(),
        Some(list) => if adapter_findings(list).len() == 0 {
            seq![unreadable_finding()]
        } else {
            adapter_findings(list)
        },
    }
}

/// Whether every character of `s` is an ASCII digit.
fn all_digits(s: &Vec<char>) -> (r: bool)
    ensures
        r == all_ascii_digits(s@),
{
    let mut i: usize = 0;
    while i < s.len()
        invariant
            i <= s@.len(),
            forall|k: int| 0 <= k < i ==> crate::text::is_ascii_digit(#[trigger] s@[k]),
        decreases s@.len() - i,
    {
        let u = s[i] as u32;
        if u < 0x30 || u > 0x39 {
            assert(!crate::text::is_ascii_digit(s@[i as int]));
            return false;
        }
        i = i + 1;
    }
    true
}

/// The finding for one subkey, if it describes a real adapter.
fn adapter_check(a: &DisplayAdapter) -> (r: Option<Finding>)
    ensures
        match r {
            Some(f) => adapter_finding(a.subkey@, a.description@, a.version@) == Some(f@),
            None => adapter_finding(a.subkey@, a.description@, a.version@) is None,
        },
{
    let sub = chars_of(a.subkey.as_str());
    if !(sub.len() == 4 && all_digits(&sub)) {
        return None;
    }
    let desc = chars_of(a.description.as_str());
    let ver = chars_of(a.version.as_str());
    if desc.len() == 0 && ver.len() == 0 {
        return None;
    }
    let lower = to_lowercase(a.description.as_str());
    let lower_chars = chars_of(lower.as_str());
    let basic = chars_of("microsoft basic");
    if contains_chars(&lower_chars, &basic) {
        return None;
    }
    let mut issue: Vec<char> = Vec::new();
    if desc.len() == 0 {
        append_str(&mut issue, "GPU");
    } else {
        append_str(&mut issue, a.description.as_str());
    }
    append_str(&mut issue, " — driver version ");
    if ver.len() == 0 {
        append_str(&mut issue, "unknown");
    } else {
        append_str(&mut issue, a.version.as_str());
    }
    append_str(&mut issue, ".");
    Some(
        new_finding(
            "gpu_driver",
            "GPU driver version",
            Severity::Info,
            string_of(&issue),
            "Keep drivers current via the vendor's official tool (NVIDIA App / AMD Adrenalin / Intel). FrameWise does not auto-download drivers; checking for the latest version requires a vendor-specific online lookup.",
            "Game-specific; newer drivers often add per-title optimizations.",
        ),
    )
}

/// Reports the installed driver of each display adapter. `adapters` are the
/// subkeys of the Display device class that could be opened, or nothing when
/// the class itself could not be opened.
pub fn check(adapters: Option<&Vec<DisplayAdapter>>) -> (r: Vec<Finding>)
    ensures
        finding_views(r@) == gpu_driver_findings(
            match adapters {
                Some(v) => Some(v@),
                None => None,
            },
        ),
{
    let mut out: Vec<Finding> = Vec::new();
    let list = match adapters {
        Some(list) => list,
        None => {
            assert(finding_views(out@) =~= Seq::<FindingView>::empty());
            return out;
        },
    };
    let mut i: usize = 0;
    while i < list.len()
        invariant
            i <= list@.len(),
            finding_views(out@) =~= adapter_findings(list@.take(i as int)),
        decreases list@.len() - i,
    {
        assert(list@.take(i + 1).drop_last() =~= list@.take(i as int));
        assert(list@.take(i + 1).last() == list@[i as int]);
        let ghost before = out@;
        match adapter_check(&list[i]) {
            Some(f) => {
                out.push(f);
                assert(finding_views(out@) =~= finding_views(before).push(f@));
            },
            None => {},
        }
        i = i + 1;
    }
    assert(list@.take(list@.len() as int) =~= list@);
    if out.len() == 0 {
        out.push(
            new_finding(
                "gpu_driver",
                "GPU driver version",
                Severity::Info,
                String::from_str("Could not read GPU driver info from the registry."),
                "Check Device Manager > Display adapters.",
                "n/a",
            ),
        );
        assert(finding_views(out@) =~= seq![unreadable_finding()]);
    }
    out
}

} // verus!
