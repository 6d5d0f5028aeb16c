//! Read-only check: Windows Game Mode.

use vstd::prelude::*;
use vstd::string::*;
use crate::audit::{new_finding, report_only, Finding, FindingView, Severity};

verus! {

/// What the Game Mode check reports for the registry's
/// `AutoGameModeEnabled` value.
pub open spec fn game_mode_finding(enabled: Option<u32>) -> FindingView {
    let benefit = "Small and situational."@;
    match enabled {
        Some(1) => report_only(
            "game_mode"@,
            "Game Mode"@,
            Severity::Info,
            "Game Mode is ON."@,
            "Leave it on; it prioritizes the foreground game and reduces background interference."@,
            benefit,
        ),
        Some(_) => report_only(
            "game_mode"@,
            "Game Mode"@,
            Severity::Suggestion,
            "Game Mode is OFF."@,
            "You can enable it in Settings > Gaming > Game Mode. The effect is small and situational."@,
            benefit,
        ),
        None => report_only(
            "game_mode"@,
            "Game Mode"@,
            Severity::Info,
            "Game Mode state unknown (it defaults to ON in modern Windows)."@,
            "Check Settings > Gaming > Game Mode."@,
            benefit,
        ),
    }
}

/// Reports the Game Mode state. `enabled` is the registry's
/// `AutoGameModeEnabled` value, or nothing when it could not be read. There
/// is always a finding.
pub fn check(enabled: Option<u32>) -> (r: Option<Finding>)
    ensures
        r matches Some(f) && f@ == game_mode_finding(enabled),
{
    let f = match enabled {
        Some(1) => new_finding(
            "game_mode",
            "Game Mode",
            Severity::Info,
            String::from_str("Game Mode is ON."),
            "Leave it on; it prioritizes the foreground game and reduces background interference.",
            "Small and situational.",
        ),
        Some(_) => new_finding(
            "game_mode",
            "Game Mode",
            Severity::Suggestion,
            String::from_str("Game Mode is OFF."),
            "You can enable it in Settings > Gaming > Game Mode. The effect is small and situational.",
            "Small and situational.",
        ),
        None => new_finding(
            "game_mode",
            "Game Mode",
            Severity::Info,
            String::from_str("Game Mode state unknown (it defaults to ON in modern Windows)."),
            "Check Settings > Gaming > Game Mode.",
            "Small and situational.",
        ),
    };
    Some(f)
}

} // verus!
