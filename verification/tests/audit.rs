use framewise::audit::background_apps::top_offenders;
use framewise::audit::gpu_driver::DisplayAdapter;
use framewise::audit::{
    background_apps, game_mode, gpu_driver, hags, power_plan, report_text, run_audit,
    AuditReadings, Finding, Severity,
};
use framewise::platform::Features;

const ALL: Features = Features { gpu_usage: true, hags: true };

#[test]
fn severity_labels() {
    assert_eq!(Severity::Info.label(), "INFO");
    assert_eq!(Severity::Suggestion.label(), "SUGGESTION");
    assert_eq!(Severity::Opportunity.label(), "OPPORTUNITY");
}

#[test]
fn hags_states() {
    let off = hags::check(&ALL, Some(1));
    assert_eq!(off.id, "hags");
    assert_eq!(off.title, "Hardware-Accelerated GPU Scheduling");
    assert_eq!(off.issue, "HAGS is OFF.");
    assert_eq!(off.severity, Severity::Suggestion);
    assert!(!off.applicable);
    assert_eq!(hags::check(&ALL, Some(0)).issue, "HAGS is OFF.");
    let on = hags::check(&ALL, Some(2));
    assert_eq!(on.issue, "HAGS is ON.");
    assert_eq!(on.severity, Severity::Info);
    assert_eq!(
        on.expected_benefit,
        "Situational; a small change in scheduling latency. Requires a reboot."
    );
    let odd = hags::check(&ALL, Some(77));
    assert_eq!(odd.issue, "HAGS registry value is 77 (unrecognized).");
    assert_eq!(odd.recommendation, "Check Settings > System > Display > Graphics.");
    assert_eq!(
        hags::check(&ALL, None).issue,
        "HAGS state could not be read from the registry."
    );
    let old = hags::check(&Features { gpu_usage: true, hags: false }, Some(2));
    assert_eq!(old.issue, "Not available on this Windows build.");
    assert_eq!(old.expected_benefit, "None on this build.");
}

#[test]
fn game_mode_states() {
    let on = game_mode::check(Some(1)).unwrap();
    assert_eq!(on.issue, "Game Mode is ON.");
    assert_eq!(on.severity, Severity::Info);
    let off = game_mode::check(Some(0)).unwrap();
    assert_eq!(off.issue, "Game Mode is OFF.");
    assert_eq!(off.severity, Severity::Suggestion);
    assert_eq!(
        off.recommendation,
        "You can enable it in Settings > Gaming > Game Mode. The effect is small and situational."
    );
    let unknown = game_mode::check(None).unwrap();
    assert_eq!(
        unknown.issue,
        "Game Mode state unknown (it defaults to ON in modern Windows)."
    );
    assert_eq!(unknown.expected_benefit, "Small and situational.");
}

#[test]
fn power_plan_names_known_schemes() {
    assert!(power_plan::check(None).is_none());
    let saver = power_plan::check(Some("a1841308-3541-4fab-bc81-f71556f20b4a")).unwrap();
    assert_eq!(saver.severity, Severity::Suggestion);
    assert_eq!(
        saver.issue,
        "Active power plan: Power saver (a1841308-3541-4fab-bc81-f71556f20b4a)."
    );
    assert_eq!(
        saver.expected_benefit,
        "Prevents CPU down-clocking under load on machines stuck on Power saver."
    );
    // Braces, surrounding space and upper case are normalized away.
    let balanced = power_plan::check(Some("  {381B4222-F694-41F0-9685-FF5BB260DF2E} ")).unwrap();
    assert_eq!(
        balanced.issue,
        "Active power plan: Balanced (381b4222-f694-41f0-9685-ff5bb260df2e)."
    );
    assert_eq!(balanced.expected_benefit, "No change recommended.");
    let custom = power_plan::check(Some("{DEADBEEF}")).unwrap();
    assert_eq!(custom.issue, "Active power plan: Custom / OEM plan (deadbeef).");
    assert_eq!(power_plan::normalize_guid("{{ABC}}"), "abc");
    assert_eq!(power_plan::normalize_guid(" {ÄB} "), "äb");
}

fn adapter(sub: &str, desc: &str, ver: &str) -> DisplayAdapter {
    DisplayAdapter {
        subkey: sub.to_string(),
        description: desc.to_string(),
        version: ver.to_string(),
    }
}

#[test]
fn gpu_driver_reports_each_adapter() {
    let list = vec![
        adapter("0000", "NVIDIA GeForce RTX 4070", "32.0.15.6094"),
        adapter("Properties", "ignored", "1"),
        adapter("0001", "Microsoft Basic Render Driver", "10.0.1"),
        adapter("0002", "", "1.2.3"),
        adapter("0003", "", ""),
        adapter("0004", "Intel(R) UHD Graphics", ""),
    ];
    let found = gpu_driver::check(Some(&list));
    let issues: Vec<&str> = found.iter().map(|f| f.issue.as_str()).collect();
    assert_eq!(
        issues,
        vec![
            "NVIDIA GeForce RTX 4070 — driver version 32.0.15.6094.",
            "GPU — driver version 1.2.3.",
            "Intel(R) UHD Graphics — driver version unknown."
        ]
    );
    assert!(found.iter().all(|f| f.id == "gpu_driver" && f.severity == Severity::Info));
    assert!(gpu_driver::check(None).is_empty());
    let none = gpu_driver::check(Some(&vec![adapter("0000", "MICROSOFT BASIC Display", "1")]));
    assert_eq!(none.len(), 1);
    assert_eq!(none[0].issue, "Could not read GPU driver info from the registry.");
    assert_eq!(none[0].expected_benefit, "n/a");
}

#[test]
fn background_apps_top_five_largest_first() {
    let usage: Vec<u32> = [3.0f32, 9.0, 8.0, 50.0, 12.0, f32::NAN, 9.0, 7.99, 30.0, 10.0, 100.0]
        .iter()
        .map(|x| x.to_bits())
        .collect();
    assert_eq!(top_offenders(&usage), vec![10, 3, 8, 4, 9]);
    let few: Vec<u32> = [9.0f32, 8.0, 9.0].iter().map(|x| x.to_bits()).collect();
    assert_eq!(top_offenders(&few), vec![0, 2, 1]);
    assert!(top_offenders(&vec![1.0f32.to_bits()]).is_empty());

    assert!(background_apps::check(&vec![]).is_empty());
    let f = background_apps::check(&vec!["encoder.exe (42%)".to_string(), "chrome.exe (9%)".to_string()]);
    assert_eq!(f.len(), 1);
    assert_eq!(
        f[0].issue,
        "High background CPU use detected: encoder.exe (42%), chrome.exe (9%)."
    );
    assert_eq!(f[0].severity, Severity::Suggestion);
    assert_eq!(f[0].title, "Background apps using CPU");
}

fn readings() -> AuditReadings {
    AuditReadings {
        hwsch_mode: Some(2),
        active_power_scheme: Some("{8c5e7fda-e8bf-4a96-9a85-a6e23a8c635c}".to_string()),
        game_mode: Some(1),
        display_adapters: Some(vec![adapter("0000", "Radeon", "31.0")]),
        background_entries: vec!["obs64.exe (15%)".to_string()],
    }
}

#[test]
fn audit_collects_in_order_and_never_applies() {
    let findings = run_audit(&ALL, &readings());
    let ids: Vec<&str> = findings.iter().map(|f| f.id).collect();
    assert_eq!(ids, vec!["hags", "power_plan", "game_mode", "gpu_driver", "background_apps"]);
    assert!(findings.iter().all(|f: &Finding| !f.applicable));
    let mut r = readings();
    r.active_power_scheme = None;
    r.display_adapters = None;
    r.background_entries = vec![];
    let ids: Vec<&'static str> = run_audit(&ALL, &r).iter().map(|f| f.id).collect();
    assert_eq!(ids, vec!["hags", "game_mode"]);
}

#[test]
fn audit_order_with_several_adapters_and_an_empty_display_class() {
    let mut r = readings();
    r.active_power_scheme = None;
    r.display_adapters = Some(vec![
        adapter("0000", "Radeon", "31.0"),
        adapter("Properties", "x", "y"),
        adapter("0001", "GeForce", "560.94"),
    ]);
    let findings = run_audit(&ALL, &r);
    let ids: Vec<&str> = findings.iter().map(|f| f.id).collect();
    assert_eq!(ids, vec!["hags", "game_mode", "gpu_driver", "gpu_driver", "background_apps"]);
    assert_eq!(findings[0].issue, hags::check(&ALL, Some(2)).issue);
    // The Display class opened but held no adapter: one GPU-driver finding says so.
    r.display_adapters = Some(vec![]);
    r.background_entries = vec![];
    let findings = run_audit(&ALL, &r);
    let ids: Vec<&str> = findings.iter().map(|f| f.id).collect();
    assert_eq!(ids, vec!["hags", "game_mode", "gpu_driver"]);
    assert_eq!(findings[2].issue, "Could not read GPU driver info from the registry.");
}

#[test]
fn report_lists_every_finding() {
    let findings = vec![game_mode::check(Some(1)).unwrap()];
    let text = report_text(&findings);
    let expected = "FrameWise — optimization audit (read-only)\n\
==========================================\n\n\
This report only *describes* findings. FrameWise does not change any\n\
system setting without your explicit, per-item consent. Applying changes\n\
is not yet implemented in this build.\n\n\
[INFO] Game Mode (game_mode)\n\
\x20 Issue:           Game Mode is ON.\n\
\x20 Recommendation:  Leave it on; it prioritizes the foreground game and reduces background interference.\n\
\x20 Expected impact: Small and situational.\n\
\x20 Apply available: no (report only)\n\n";
    assert_eq!(text, expected);
    let empty = report_text(&vec![]);
    assert!(empty.ends_with("is not yet implemented in this build.\n\nNo findings.\n"));
    let all = report_text(&run_audit(&ALL, &readings()));
    assert_eq!(all.matches("Apply available: no (report only)").count(), 5);
}
