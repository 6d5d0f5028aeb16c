//! Read-only check: the active Windows power plan, named from the
//! well-known scheme GUIDs.

use vstd::prelude::*;
use vstd::string::*;
use crate::audit::{new_finding, report_only, Finding, FindingView, Severity};
use crate::text::{
    append_str, ascii_lower_seq, chars_eq_str, chars_of, is_ascii_seq, lemma_trim_keeps_ascii,
    string_of, to_lowercase, trim, trim_str, unicode_lowercase,
};

verus! {

/// Whether `c` is a curly brace.
pub open spec fn is_brace(c: char) -> bool {
    c == '{' || c == '}'
}

/// `s` without leading curly braces.
pub open spec fn trim_braces_start(s: Seq<char>) -> Seq<char>
    decreases s.len(),
{
    if s.len() > 0 && is_brace(s[0]) {
        trim_braces_start(s.drop_first())
    } else {
        s
    }
}

/// `s` without trailing curly braces.
pub open spec fn trim_braces_end(s: Seq<char>) -> Seq<char>
    decreases s.len(),
{
    if s.len() > 0 && is_brace(s.last()) {
        trim_braces_end(s.drop_last())
    } else {
        s
    }
}

/// The scheme GUID as the registry value `ActivePowerScheme` holds it,
/// normalized: trimmed, without surrounding braces, lower case.
pub open spec fn normalized_guid(raw: Seq<char>) -> Seq<char> {
    unicode_lowercase(trim_braces_end(trim_braces_start(trim(raw))))
}

/// The GUID text without surrounding white space and braces, case kept.
pub open spec fn bare_guid(raw: Seq<char>) -> Seq<char> {
    trim_braces_end(trim_braces_start(trim(raw)))
}

proof fn lemma_trim_braces_keeps_ascii(s: Seq<char>)
    requires
        is_ascii_seq(s),
    ensures
        is_ascii_seq(trim_braces_start(s)),
        is_ascii_seq(trim_braces_end(s)),
    decreases s.len(),
{
    if s.len() > 0 {
        assert(is_ascii_seq(s.drop_first())) by {
            assert forall|i: int| 0 <= i < s.drop_first().len() implies (#[trigger] s.drop_first()[i] as u32) < 0x80 by {
                assert(s.drop_first()[i] == s[i + 1]);
            }
        }
        assert(is_ascii_seq(s.drop_last())) by {
            assert forall|i: int| 0 <= i < s.drop_last().len() implies (#[trigger] s.drop_last()[i] as u32) < 0x80 by {
                assert(s.drop_last()[i] == s[i]);
            }
        }
        lemma_trim_braces_keeps_ascii(s.drop_first());
        lemma_trim_braces_keeps_ascii(s.drop_last());
    }
}

/// `s` without leading and trailing curly braces.
pub fn trim_braces(s: &Vec<char>) -> (r: Vec<char>)
    ensures
        r@ == trim_braces_end(trim_braces_start(s@)),
{
    let n = s.len();
    let mut i: usize = 0;
    assert(s@.subrange(0, n as int) =~= s@);
    while i < n && (s[i] == '{' || s[i] == '}')
        invariant
            n == s@.len(),
            i <= n,
            trim_braces_start(s@) == trim_braces_start(s@.subrange(i as int, n as int)),
        decreases n - i,
    {
        assert(s@.subrange(i as int, n as int).drop_first() =~= s@.subrange(i + 1, n as int));
        i = i + 1;
    }
    let mut j: usize = n;
    while j > i && (s[j - 1] == '{' || s[j - 1] == '}')
        invariant
            n == s@.len(),
            i <= j <= n,
            trim_braces_end(trim_braces_start(s@)) == trim_braces_end(
                s@.subrange(i as int, j as int),
            ),
        decreases j - i,
    {
        assert(s@.subrange(i as int, j as int).drop_last() =~= s@.subrange(i as int, j - 1));
        j = j - 1;
    }
    let mut r: Vec<char> = Vec::new();
    let mut k: usize = i;
    while k < j
        invariant
            n == s@.len(),
            i <= k <= j <= n,
            r@ == s@.subrange(i as int, k as int),
        decreases j - k,
    {
        r.push(s[k]);
        k = k + 1;
    }
    r
}

/// The scheme GUID, normalized: trimmed, without surrounding braces, lower
/// case. An all-ASCII value, as a GUID is, is lowered letter by letter.
pub fn normalize_guid(raw: &str) -> (r: String)
    ensures
        r@ == normalized_guid(raw@),
        is_ascii_seq(raw@) ==> r@ == ascii_lower_seq(bare_guid(raw@)),
{
    let t = trim_str(raw);
    let b = trim_braces(&t);
    let s = string_of(&b);
    proof {
        if is_ascii_seq(raw@) {
            lemma_trim_keeps_ascii(raw@);
            lemma_trim_braces_keeps_ascii(trim(raw@));
            lemma_trim_braces_keeps_ascii(trim_braces_start(trim(raw@)));
        }
    }
    to_lowercase(s.as_str())
}

/// The friendly name, severity and recommendation for a normalized GUID.
pub open spec fn plan_facts(guid: Seq<char>) -> (Seq<char>, Severity, Seq<char>) {
    if guid == "a1841308-3541-4fab-bc81-f71556f20b4a"@ {
        (
            "Power saver"@,
            Severity::Suggestion,
            "On a desktop, switch to Balanced or High performance — Power saver caps CPU frequency and can hurt frame rates. On a laptop this is a battery vs. performance trade-off, so decide based on whether you're plugged in."@,
        )
    } else if guid == "381b4222-f694-41f0-9685-ff5bb260df2e"@ {
        (
            "Balanced"@,
            Severity::Info,
            "Fine for most systems; modern CPUs still boost fully on Balanced."@,
        )
    } else if guid == "8c5e7fda-e8bf-4a96-9a85-a6e23a8c635c"@ {
        (
            "High performance"@,
            Severity::Info,
            "Good for desktop gaming; uses a bit more power at idle."@,
        )
    } else if guid == "e9a42b02-d5df-448d-aa00-03f14749eb61"@ {
        ("Ultimate Performance"@, Severity::Info, "Maximum performance; highest idle power draw."@)
    } else {
        (
            "Custom / OEM plan"@,
            Severity::Info,
            "A custom plan is active; make sure it doesn't cap maximum CPU state for gaming."@,
        )
    }
}

/// What the power-plan check reports for a normalized GUID.
pub open spec fn power_plan_finding(guid: Seq<char>) -> FindingView {
    let (name, severity, recommendation) = plan_facts(guid);
    report_only(
        "power_plan"@,
        "Windows power plan"@,
        severity,
        "Active power plan: "@ + name + " ("@ + guid + ")."@,
        recommendation,
        if severity == Severity::Suggestion {
            "Prevents CPU down-clocking under load on machines stuck on Power saver."@
        } else {
            "No change recommended."@
        },
    )
}

/// Reports the active power plan. `active_scheme` is the registry's
/// `ActivePowerScheme` value, or nothing when it could not be read, in which
/// case there is no finding.
pub fn check(active_scheme: Option<&str>) -> (r: Option<Finding>)
    ensures
        active_scheme is None ==> r is None,
        active_scheme matches Some(raw) ==> (r matches Some(f) && f@ == power_plan_finding(
            normalized_guid(raw@),
        )),
        active_scheme matches Some(raw) ==> (is_ascii_seq(raw@) ==> (r matches Some(f) && f@
            == power_plan_finding(ascii_lower_seq(bare_guid(raw@))))),
{
    let raw = match active_scheme {
        Some(raw) => raw,
        None => return None,
    };
    let guid = normalize_guid(raw);
    let g = chars_of(guid.as_str());
    let (name, severity, recommendation) = if chars_eq_str(
        &g,
        "a1841308-3541-4fab-bc81-f71556f20b4a",
    ) {
        (
            "Power saver",
            Severity::Suggestion,
            "On a desktop, switch to Balanced or High performance — Power saver caps CPU frequency and can hurt frame rates. On a laptop this is a battery vs. performance trade-off, so decide based on whether you're plugged in.",
        )
    } else if chars_eq_str(&g, "381b4222-f694-41f0-9685-ff5bb260df2e") {
        ("Balanced", Severity::Info, "Fine for most systems; modern CPUs still boost fully on Balanced.")
    } else if chars_eq_str(&g, "8c5e7fda-e8bf-4a96-9a85-a6e23a8c635c") {
        ("High performance", Severity::Info, "Good for desktop gaming; uses a bit more power at idle.")
    } else if chars_eq_str(&g, "e9a42b02-d5df-448d-aa00-03f14749eb61") {
        ("Ultimate Performance", Severity::Info, "Maximum performance; highest idle power draw.")
    } else {
        (
            "Custom / OEM plan",
            Severity::Info,
            "A custom plan is active; make sure it doesn't cap maximum CPU state for gaming.",
        )
    };
    let expected_benefit = if severity == Severity::Suggestion {
        "Prevents CPU down-clocking under load on machines stuck on Power saver."
    } else {
        "No change recommended."
    };
    let mut issue: Vec<char> = Vec::new();
    append_str(&mut issue, "Active power plan: ");
    append_str(&mut issue, name);
    append_str(&mut issue, " (");
    append_str(&mut issue, guid.as_str());
    append_str(&mut issue, ").");
    Some(
        new_finding(
            "power_plan",
            "Windows power plan",
            severity,
            string_of(&issue),
            recommendation,
            expected_benefit,
        ),
    )
}

/// The four well-known Windows power schemes, by their normalized GUIDs:
/// a1841308-… is Power saver (a suggestion to switch), 381b4222-… is
/// Balanced, 8c5e7fda-… is High performance and e9a42b02-… is Ultimate
/// Performance (all informational); any other GUID is a custom or OEM plan.
/// The issue names the plan and quotes the GUID.
pub proof fn lemma_well_known_plans(guid: Seq<char>)
    ensures
        guid == "a1841308-3541-4fab-bc81-f71556f20b4a"@ ==> ({
            let f = power_plan_finding(guid);
            &&& f.issue == "Active power plan: "@ + "Power saver"@ + " ("@ + guid + ")."@
            &&& f.severity == Severity::Suggestion
            &&& f.id == "power_plan"@
            &&& f.expected_benefit
                == "Prevents CPU down-clocking under load on machines stuck on Power saver."@
        }),
        guid == "381b4222-f694-41f0-9685-ff5bb260df2e"@ ==> ({
            let f = power_plan_finding(guid);
            &&& f.issue == "Active power plan: "@ + "Balanced"@ + " ("@ + guid + ")."@
            &&& f.severity == Severity::Info
            &&& f.recommendation == "Fine for most systems; modern CPUs still boost fully on Balanced."@
            &&& f.expected_benefit == "No change recommended."@
        }),
        guid == "8c5e7fda-e8bf-4a96-9a85-a6e23a8c635c"@ ==> ({
            let f = power_plan_finding(guid);
            &&& f.issue == "Active power plan: "@ + "High performance"@ + " ("@ + guid + ")."@
            &&& f.severity == Severity::Info
            &&& f.recommendation == "Good for desktop gaming; uses a bit more power at idle."@
            &&& f.expected_benefit == "No change recommended."@
        }),
        guid == "e9a42b02-d5df-448d-aa00-03f14749eb61"@ ==> ({
            let f = power_plan_finding(guid);
            &&& f.issue == "Active power plan: "@ + "Ultimate Performance"@ + " ("@ + guid + ")."@
            &&& f.severity == Severity::Info
            &&& f.recommendation == "Maximum performance; highest idle power draw."@
            &&& f.expected_benefit == "No change recommended."@
        }),
        guid != "a1841308-3541-4fab-bc81-f71556f20b4a"@ && guid
            != "381b4222-f694-41f0-9685-ff5bb260df2e"@ && guid
            != "8c5e7fda-e8bf-4a96-9a85-a6e23a8c635c"@ && guid
            != "e9a42b02-d5df-448d-aa00-03f14749eb61"@ ==> ({
            let f = power_plan_finding(guid);
            &&& f.issue == "Active power plan: "@ + "Custom / OEM plan"@ + " ("@ + guid + ")."@
            &&& f.severity == Severity::Info
        }),
{
    reveal_strlit("a1841308-3541-4fab-bc81-f71556f20b4a");
    reveal_strlit("381b4222-f694-41f0-9685-ff5bb260df2e");
    reveal_strlit("8c5e7fda-e8bf-4a96-9a85-a6e23a8c635c");
    reveal_strlit("e9a42b02-d5df-448d-aa00-03f14749eb61");
    assert("a1841308-3541-4fab-bc81-f71556f20b4a"@[0] != "381b4222-f694-41f0-9685-ff5bb260df2e"@[0]);
    assert("a1841308-3541-4fab-bc81-f71556f20b4a"@[0] != "8c5e7fda-e8bf-4a96-9a85-a6e23a8c635c"@[0]);
    assert("a1841308-3541-4fab-bc81-f71556f20b4a"@[0] != "e9a42b02-d5df-448d-aa00-03f14749eb61"@[0]);
    assert("381b4222-f694-41f0-9685-ff5bb260df2e"@[0] != "8c5e7fda-e8bf-4a96-9a85-a6e23a8c635c"@[0]);
    assert("381b4222-f694-41f0-9685-ff5bb260df2e"@[0] != "e9a42b02-d5df-448d-aa00-03f14749eb61"@[0]);
    assert("8c5e7fda-e8bf-4a96-9a85-a6e23a8c635c"@[0] != "e9a42b02-d5df-448d-aa00-03f14749eb61"@[0]);
}

} // verus!
