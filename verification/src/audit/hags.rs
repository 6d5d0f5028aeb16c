//! Read-only check: Hardware-Accelerated GPU Scheduling (HAGS).

use vstd::prelude::*;
use vstd::string::*;
use crate::audit::{new_finding, report_only, Finding, FindingView, Severity};
use crate::platform::os_info::Features;
use crate::text::{append_str, decimal, push_decimal, string_of};

verus! {

/// What the HAGS check reports, given whether the build supports HAGS and the
/// registry's `HwSchMode` value (2 = on, 1 = off, 0 = unsupported by the driver).
pub open spec fn hags_finding(available: bool, hwsch_mode: Option<u32>) -> FindingView {
    if !available {
        report_only(
            "hags"@,
            "Hardware-Accelerated GPU Scheduling"@,
            Severity::Info,
            "Not available on this Windows build."@,
            "No action — HAGS requires Windows 10 version 2004 (build 19041) or newer plus a supporting GPU and driver."@,
            "None on this build."@,
        )
    } else {
        let benefit = "Situational; a small change in scheduling latency. Requires a reboot."@;
        match hwsch_mode {
            Some(2) => report_only(
                "hags"@,
                "Hardware-Accelerated GPU Scheduling"@,
                Severity::Info,
                "HAGS is ON."@,
                "Leave as-is unless you experience instability. Its effect is hardware-, driver- and game-dependent."@,
                benefit,
            ),
            Some(0) | Some(1) => report_only(
                "hags"@,
                "Hardware-Accelerated GPU Scheduling"@,
                Severity::Suggestion,
                "HAGS is OFF."@,
                "You can enable it in Settings > System > Display > Graphics > Default graphics settings, then reboot. Effect varies — benchmark a few games before and after to confirm it helps on your setup."@,
                benefit,
            ),
            Some(other) => report_only(
                "hags"@,
                "Hardware-Accelerated GPU Scheduling"@,
                Severity::Info,
                "HAGS registry value is "@ + decimal(other as nat) + " (unrecognized)."@,
                "Check Settings > System > Display > Graphics."@,
                benefit,
            ),
            None => report_only(
                "hags"@,
                "Hardware-Accelerated GPU Scheduling"@,
                Severity::Info,
                "HAGS state could not be read from the registry."@,
                "Check Settings > System > Display > Graphics."@,
                benefit,
            ),
        }
    }
}

/// Reports the HAGS state. `hwsch_mode` is the registry's `HwSchMode`
/// value, or nothing when it could not be read; it is not consulted when
/// the build does not support HAGS.
pub fn check(features: &Features, hwsch_mode: Option<u32>) -> (r: Finding)
    ensures
        r@ == hags_finding(features.hags, hwsch_mode),
{
    let title = "Hardware-Accelerated GPU Scheduling";
    if !features.hags {
        return new_finding(
            "hags",
            title,
            Severity::Info,
            String::from_str("Not available on this Windows build."),
            "No action — HAGS requires Windows 10 version 2004 (build 19041) or newer plus a supporting GPU and driver.",
            "None on this build.",
        );
    }
    let benefit = "Situational; a small change in scheduling latency. Requires a reboot.";
    match hwsch_mode {
        Some(2) => new_finding(
            "hags",
            title,
            Severity::Info,
            String::from_str("HAGS is ON."),
            "Leave as-is unless you experience instability. Its effect is hardware-, driver- and game-dependent.",
            benefit,
        ),
        Some(0) | Some(1) => new_finding(
            "hags",
            title,
            Severity::Suggestion,
            String::from_str("HAGS is OFF."),
            "You can enable it in Settings > System > Display > Graphics > Default graphics settings, then reboot. Effect varies — benchmark a few games before and after to confirm it helps on your setup.",
            benefit,
        ),
        Some(other) => {
            let mut issue: Vec<char> = Vec::new();
            append_str(&mut issue, "HAGS registry value is ");
            push_decimal(&mut issue, other as u64);
            append_str(&mut issue, " (unrecognized).");
            new_finding(
                "hags",
                title,
                Severity::Info,
                string_of(&issue),
                "Check Settings > System > Display > Graphics.",
                benefit,
            )
        },
        None => new_finding(
            "hags",
            title,
            Severity::Info,
            String::from_str("HAGS state could not be read from the registry."),
            "Check Settings > System > Display > Graphics.",
            benefit,
        ),
    }
}

} // verus!
