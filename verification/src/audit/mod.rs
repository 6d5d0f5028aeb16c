//! The optimization assistant: a read-only audit.
//!
//! Each detector looks at what the system reported and returns a `Finding`
//! that describes the issue, the recommended action and the honest expected
//! benefit. Nothing here changes system state, and no finding offers an
//! automated apply action.

pub mod background_apps;
pub mod game_mode;
pub mod gpu_driver;
pub mod hags;
pub mod power_plan;

use vstd::prelude::*;
use vstd::string::*;
use crate::platform::os_info::Features;
use crate::text::{append_str, string_of, string_views};
use crate::audit::gpu_driver::DisplayAdapter;

verus! {

/// How much a finding matters. Informational only.
#[derive(Debug, Clone, Copy, PartialEq, Eq, Structural)]
pub enum Severity {
    /// Informational; nothing to do.
    Info,
    /// Worth considering.
    Suggestion,
    /// A likely, documented win.
    Opportunity,
}

/// The label a report shows for a severity.
pub open spec fn severity_label(s: Severity) -> Seq<char> {
    match s {
        Severity::Info => "INFO"@,
        Severity::Suggestion => "SUGGESTION"@,
        Severity::Opportunity => "OPPORTUNITY"@,
    }
}

impl Severity {
    /// The label a report shows for this severity.
    pub fn label(self) -> (r: &'static str)
        ensures
            r@ == severity_label(self),
    {
        match self {
            Severity::Info => "INFO",
            Severity::Suggestion => "SUGGESTION",
            Severity::Opportunity => "OPPORTUNITY",
        }
    }
}

/// One result of the audit.
#[derive(Debug, Clone)]
pub struct Finding {
    pub id: &'static str,
    pub title: String,
    pub severity: Severity,
    pub issue: String,
    pub recommendation: String,
    pub expected_benefit: String,
    /// Whether an automated apply action exists. Applying a finding would
    /// modify system settings, which the audit never does.
    pub applicable: bool,
}

/// The content of a finding.
pub struct FindingView {
    pub id: Seq<char>,
    pub title: Seq<char>,
    pub severity: Severity,
    pub issue: Seq<char>,
    pub recommendation: Seq<char>,
    pub expected_benefit: Seq<char>,
    pub applicable: bool,
}

impl View for Finding {
    type V = FindingView;

    open spec fn view(&self) -> FindingView {
        FindingView {
            id: self.id@,
            title: self.title@,
            severity: self.severity,
            issue: self.issue@,
            recommendation: self.recommendation@,
            expected_benefit: self.expected_benefit@,
            applicable: self.applicable,
        }
    }
}

/// A report-only finding with the given texts.
pub open spec fn report_only(
    id: Seq<char>,
    title: Seq<char>,
    severity: Severity,
    issue: Seq<char>,
    recommendation: Seq<char>,
    expected_benefit: Seq<char>,
) -> FindingView {
    FindingView { id, title, severity, issue, recommendation, expected_benefit, applicable: false }
}

/// A report-only finding with the given texts.
pub fn new_finding(
    id: &'static str,
    title: &str,
    severity: Severity,
    issue: String,
    recommendation: &str,
    expected_benefit: &str,
) -> (r: Finding)
    ensures
        r@ == report_only(id@, title@, severity, issue@, recommendation@, expected_benefit@),
{
    Finding {
        id,
        title: String::from_str(title),
        severity,
        issue,
        recommendation: String::from_str(recommendation),
        expected_benefit: String::from_str(expected_benefit),
        applicable: false,
    }
}

/// The views of a sequence of findings.
pub open spec fn finding_views(v: Seq<Finding>) -> Seq<FindingView> {
    v.map_values(|f: Finding| f@)
}

/// No finding offers an automated apply action.
pub open spec fn all_report_only(v: Seq<FindingView>) -> bool {
    forall|i: int| 0 <= i < v.len() ==> !(#[trigger] v[i]).applicable
}

/// What the system reported for each detector.
#[derive(Debug, Clone)]
pub struct AuditReadings {
    /// The registry's `HwSchMode`, when it could be read.
    pub hwsch_mode: Option<u32>,
    /// The registry's `ActivePowerScheme`, when it could be read.
    pub active_power_scheme: Option<String>,
    /// The registry's `AutoGameModeEnabled`, when it could be read.
    pub game_mode: Option<u32>,
    /// The subkeys of the Display device class, when the class could be opened.
    pub display_adapters: Option<Vec<DisplayAdapter>>,
    /// The formatted entries ("name (NN%)") of the background processes to
    /// report, largest first.
    pub background_entries: Vec<String>,
}

/// A finding when there is one, else nothing.
pub open spec fn optional(f: Option<FindingView>) -> Seq<FindingView> {
    match f {
        Some(f) => seq![f],
        None => Seq::empty(),
    }
}

/// Every detector's findings, in order: HAGS, power plan, Game Mode, GPU
/// drivers, background apps.
pub open spec fn audit_findings(features: Features, readings: AuditReadings) -> Seq<FindingView> {
    seq![hags::hags_finding(features.hags, readings.hwsch_mode)] + optional(
        match readings.active_power_scheme {
            Some(raw) => Some(power_plan::power_plan_finding(power_plan::normalized_guid(raw@))),
            None => None,
        },
    ) + seq![game_mode::game_mode_finding(readings.game_mode)] + gpu_driver::gpu_driver_findings(
        match readings.display_adapters {
            Some(v) => Some(v@),
            None => None,
        },
    ) + background_apps::background_findings(string_views(readings.background_entries@))
}

/// Runs every read-only detector on what the system reported and collects
/// the findings. No finding offers an automated apply action.
pub fn run_audit(features: &Features, readings: &AuditReadings) -> (r: Vec<Finding>)
    ensures
        finding_views(r@) == audit_findings(*features, *readings),
{
    let mut findings: Vec<Finding> = Vec::new();
    let h = hags::check(features, readings.hwsch_mode);
    findings.push(h);
    let scheme: Option<&str> = match &readings.active_power_scheme {
        Some(s) => Some(s.as_str()),
        None => None,
    };
    let ghost before = findings@;
    match power_plan::check(scheme) {
        Some(f) => {
            findings.push(f);
            assert(finding_views(findings@) =~= finding_views(before).push(f@));
        },
        None => {},
    }
    let ghost before2 = findings@;
    match game_mode::check(readings.game_mode) {
        Some(f) => {
            findings.push(f);
            assert(finding_views(findings@) =~= finding_views(before2).push(f@));
        },
        None => {},
    }
    let gpu = gpu_driver::check(
        match &readings.display_adapters {
            Some(v) => Some(v),
            None => None,
        },
    );
    let bg = background_apps::check(&readings.background_entries);
    append_findings(&mut findings, gpu);
    append_findings(&mut findings, bg);
    assert(finding_views(findings@) =~= audit_findings(*features, *readings));
    findings
}

/// The opening of the audit report.
pub open spec fn report_header() -> Seq<char> {
    "FrameWise — optimization audit (read-only)\n"@ + "==========================================\n\n"@
        + "This report only *describes* findings. FrameWise does not change any\nsystem setting without your explicit, per-item consent. Applying changes\nis not yet implemented in this build.\n\n"@
}

/// The report's entry for one finding.
pub open spec fn report_entry(f: FindingView) -> Seq<char> {
    "["@ + severity_label(f.severity) + "] "@ + f.title + " ("@ + f.id + ")\n"@
        + "  Issue:           "@ + f.issue + "\n"@ + "  Recommendation:  "@ + f.recommendation
        + "\n"@ + "  Expected impact: "@ + f.expected_benefit + "\n"@ + "  Apply available: "@ + (
    if f.applicable {
        "yes"@
    } else {
        "no (report only)"@
    }) + "\n\n"@
}

/// The entries for the findings, in order.
pub open spec fn report_entries(fs: Seq<FindingView>) -> Seq<char>
    decreases fs.len(),
{
    if fs.len() == 0 {
        Seq::empty()
    } else {
        report_entries(fs.drop_last()) + report_entry(fs.last())
    }
}

/// The human-readable audit report.
pub open spec fn report_spec(fs: Seq<FindingView>) -> Seq<char> {
    report_header() + (if fs.len() == 0 {
        "No findings.\n"@
    } else {
        Seq::empty()
    }) + report_entries(fs)
}

/// Renders the findings as the human-readable report that is written next
/// to the executable.
pub fn report_text(findings: &Vec<Finding>) -> (r: String)
    ensures
        r@ == report_spec(finding_views(findings@)),
{
    let ghost fs = finding_views(findings@);
    let mut out: Vec<char> = Vec::new();
    append_str(&mut out, "FrameWise — optimization audit (read-only)\n");
    append_str(&mut out, "==========================================\n\n");
    append_str(
        &mut out,
        "This report only *describes* findings. FrameWise does not change any\nsystem setting without your explicit, per-item consent. Applying changes\nis not yet implemented in this build.\n\n",
    );
    if findings.len() == 0 {
        append_str(&mut out, "No findings.\n");
    }
    let ghost start = out@;
    assert(start =~= report_header() + (if fs.len() == 0 {
        "No findings.\n"@
    } else {
        Seq::empty()
    }));
    let mut i: usize = 0;
    while i < findings.len()
        invariant
            i <= findings@.len(),
            fs == finding_views(findings@),
            out@ =~= start + report_entries(fs.take(i as int)),
        decreases findings@.len() - i,
    {
        push_report_entry(&mut out, &findings[i]);
        assert(fs.take(i + 1).drop_last() =~= fs.take(i as int));
        i = i + 1;
    }
    assert(fs.take(findings@.len() as int) =~= fs);
    string_of(&out)
}

fn push_report_entry(out: &mut Vec<char>, f: &Finding)
    ensures
        final(out)@ == old(out)@ + report_entry(f@),
{
    let ghost p0 = old(out)@;
    append_str(out, "[");
    append_str(out, f.severity.label());
    append_str(out, "] ");
    append_str(out, f.title.as_str());
    let ghost p1 = out@;
    assert(p1 =~= p0 + ("["@ + severity_label(f.severity) + "] "@ + f.title@));
    append_str(out, " (");
    append_str(out, f.id);
    append_str(out, ")\n");
    append_str(out, "  Issue:           ");
    let ghost p2 = out@;
    assert(p2 =~= p0 + ("["@ + severity_label(f.severity) + "] "@ + f.title@ + " ("@ + f.id@
        + ")\n"@ + "  Issue:           "@));
    append_str(out, f.issue.as_str());
    append_str(out, "\n");
    append_str(out, "  Recommendation:  ");
    append_str(out, f.recommendation.as_str());
    let ghost p3 = out@;
    assert(p3 =~= p0 + ("["@ + severity_label(f.severity) + "] "@ + f.title@ + " ("@ + f.id@
        + ")\n"@ + "  Issue:           "@ + f.issue@ + "\n"@ + "  Recommendation:  "@
        + f.recommendation@));
    append_str(out, "\n");
    append_str(out, "  Expected impact: ");
    append_str(out, f.expected_benefit.as_str());
    append_str(out, "\n");
    let ghost p4 = out@;
    assert(p4 =~= p0 + ("["@ + severity_label(f.severity) + "] "@ + f.title@ + " ("@ + f.id@
        + ")\n"@ + "  Issue:           "@ + f.issue@ + "\n"@ + "  Recommendation:  "@
        + f.recommendation@ + "\n"@ + "  Expected impact: "@ + f.expected_benefit@ + "\n"@));
    append_str(out, "  Apply available: ");
    if f.applicable {
        append_str(out, "yes");
    } else {
        append_str(out, "no (report only)");
    }
    append_str(out, "\n\n");
    assert(out@ =~= p0 + report_entry(f@));
}

proof fn lemma_adapter_findings_report_only(adapters: Seq<DisplayAdapter>)
    ensures
        all_report_only(gpu_driver::adapter_findings(adapters)),
    decreases adapters.len(),
{
    if adapters.len() > 0 {
        lemma_adapter_findings_report_only(adapters.drop_last());
    }
}

/// The audit only reports: no finding it produces, for any readings,
/// offers an automated apply action.
pub proof fn lemma_audit_is_report_only(features: Features, readings: AuditReadings)
    ensures
        all_report_only(audit_findings(features, readings)),
{
    match readings.display_adapters {
        Some(v) => lemma_adapter_findings_report_only(v@),
        None => {},
    }
    let all = audit_findings(features, readings);
    assert forall|i: int| 0 <= i < all.len() implies !(#[trigger] all[i]).applicable by {
    }
}

proof fn lemma_adapter_findings_ids(adapters: Seq<DisplayAdapter>)
    ensures
        forall|j: int| 0 <= j < gpu_driver::adapter_findings(adapters).len()
            ==> (#[trigger] gpu_driver::adapter_findings(adapters)[j]).id == "gpu_driver"@,
    decreases adapters.len(),
{
    if adapters.len() > 0 {
        lemma_adapter_findings_ids(adapters.drop_last());
    }
}

/// The audit's findings come in a fixed order: the HAGS finding first; then
/// the power-plan finding when the active scheme could be read; then the
/// Game Mode finding; then the GPU-driver findings, at least one exactly
/// when the Display device class could be opened; and last the
/// background-apps finding when any process was reported. So there are at
/// least two findings, and at least three when the Display class opened.
pub proof fn lemma_audit_order(features: Features, readings: AuditReadings)
    ensures
        ({
            let fs = audit_findings(features, readings);
            let p: int = if readings.active_power_scheme is Some { 1 } else { 0 };
            let g: int = gpu_driver::gpu_driver_findings(
                match readings.display_adapters {
                    Some(v) => Some(v@),
                    None => None,
                },
            ).len() as int;
            let b: int = if readings.background_entries@.len() > 0 { 1 } else { 0 };
            &&& fs.len() == 2 + p + g + b
            &&& fs[0] == hags::hags_finding(features.hags, readings.hwsch_mode)
            &&& fs[0].id == "hags"@
            &&& p == 1 ==> fs[1].id == "power_plan"@
            &&& fs[1 + p] == game_mode::game_mode_finding(readings.game_mode)
            &&& fs[1 + p].id == "game_mode"@
            &&& (readings.display_adapters is Some <==> g >= 1)
            &&& forall|j: int| 2 + p <= j < 2 + p + g ==> (#[trigger] fs[j]).id == "gpu_driver"@
            &&& b == 1 ==> fs[2 + p + g].id == "background_apps"@
            &&& fs.len() >= 2
            &&& readings.display_adapters is Some ==> fs.len() >= 3
        }),
{
    let fs = audit_findings(features, readings);
    let p: int = if readings.active_power_scheme is Some { 1 } else { 0 };
    let gv = match readings.display_adapters {
        Some(v) => Some(v@),
        None => None,
    };
    let gs = gpu_driver::gpu_driver_findings(gv);
    let g: int = gs.len() as int;
    match readings.display_adapters {
        Some(v) => lemma_adapter_findings_ids(v@),
        None => {},
    }
    let pp = optional(
        match readings.active_power_scheme {
            Some(raw) => Some(power_plan::power_plan_finding(power_plan::normalized_guid(raw@))),
            None => None,
        },
    );
    let bs = background_apps::background_findings(string_views(readings.background_entries@));
    assert(string_views(readings.background_entries@).len() == readings.background_entries@.len());
    let head = seq![hags::hags_finding(features.hags, readings.hwsch_mode)] + pp
        + seq![game_mode::game_mode_finding(readings.game_mode)];
    assert(fs == head + gs + bs);
    assert(head.len() == 2 + p);
    assert forall|j: int| 2 + p <= j < 2 + p + g implies (#[trigger] fs[j]).id == "gpu_driver"@ by {
        assert(fs[j] == gs[j - (2 + p)]);
    }
}

fn append_findings(out: &mut Vec<Finding>, more: Vec<Finding>)
    ensures
        finding_views(final(out)@) == finding_views(old(out)@) + finding_views(more@),
{
    let ghost start = out@;
    let mut more = more;
    let ghost m = more@;
    out.append(&mut more);
    assert(finding_views(out@) =~= finding_views(start) + finding_views(m));
}

} // verus!
