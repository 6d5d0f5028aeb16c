//! Windows version detection and capability gating, from the values the
//! registry's `CurrentVersion` key holds.

use vstd::prelude::*;
use vstd::string::*;
use crate::text::{append_str, decimal, parse_u32, parse_u32_spec, push_decimal, string_of, trim, trim_str};

verus! {

/// Minimum supported build: Windows 10 version 2004 (build 19041).
pub const MIN_SUPPORTED_BUILD: u32 = 19041;

/// Builds from this one on are Windows 11.
pub const WINDOWS_11_BUILD: u32 = 22000;

/// PDH "GPU Engine" counters require Windows 10 1709 (build 16299).
pub const GPU_PDH_MIN_BUILD: u32 = 16299;

/// Hardware-Accelerated GPU Scheduling shipped in Windows 10 2004 (build 19041).
pub const HAGS_MIN_BUILD: u32 = 19041;

/// Capability flags derived from the running OS build. Anything `false`
/// here is hidden or disabled rather than producing an error.
#[derive(Debug, Clone, Copy, PartialEq, Eq, Structural)]
pub struct Features {
    /// GPU utilization via PDH "GPU Engine" counters.
    pub gpu_usage: bool,
    /// Hardware-Accelerated GPU Scheduling is a meaningful setting on this build.
    pub hags: bool,
}

/// The running Windows version.
#[derive(Debug, Clone)]
pub struct OsInfo {
    pub major: u32,
    pub build: u32,
    pub ubr: u32,
    /// For example "22H2".
    pub display_version: String,
    /// For example "Windows 11 Pro" (the registry value lags and may still
    /// say "Windows 10" on Windows 11; `is_windows_11` is the reliable test).
    pub product_name: String,
}

/// The one-line description of a Windows version.
pub open spec fn version_text(build: u32, ubr: u32, display_version: Seq<char>) -> Seq<char> {
    (if build >= WINDOWS_11_BUILD {
        "Windows 11"@
    } else {
        "Windows 10"@
    }) + (if display_version.len() == 0 {
        Seq::<char>::empty()
    } else {
        seq![' '] + display_version
    }) + " (build "@ + decimal(build as nat) + seq!['.'] + decimal(ubr as nat) + seq![')']
}

/// The notice shown when the build is older than the supported minimum.
pub open spec fn unsupported_text(version: Seq<char>) -> Seq<char> {
    "FrameWise targets Windows 10 build 19041+ or Windows 11.\n\nDetected: "@ + version
        + "\n\nIt may still run, but some features could be unavailable."@
}

impl OsInfo {
    /// The version that the registry's `CurrentVersion` values describe:
    /// `CurrentBuildNumber` as text (0 when it is not a number),
    /// `CurrentMajorVersionNumber`, `UBR`, `DisplayVersion` or else
    /// `ReleaseId`, and `ProductName`.
    pub fn from_registry(
        build_text: &str,
        major: u32,
        ubr: u32,
        display_version: Option<String>,
        release_id: Option<String>,
        product_name: String,
    ) -> (r: OsInfo)
        ensures
            r.build == (match parse_u32_spec(trim(build_text@)) {
                Some(b) => b,
                None => 0,
            }),
            r.major == major,
            r.ubr == ubr,
            r.display_version@ == (match display_version {
                Some(d) => d@,
                None => match release_id {
                    Some(d) => d@,
                    None => Seq::<char>::empty(),
                },
            }),
            r.product_name == product_name,
    {
        let t = trim_str(build_text);
        let build = match parse_u32(&t) {
            Some(b) => b,
            None => 0,
        };
        let display = match display_version {
            Some(d) => d,
            None => match release_id {
                Some(d) => d,
                None => String::new(),
            },
        };
        OsInfo { major, build, ubr, display_version: display, product_name }
    }

    /// Whether this is Windows 11 (build 22000 or later).
    pub fn is_windows_11(&self) -> (r: bool)
        ensures
            r == (self.build >= WINDOWS_11_BUILD),
    {
        self.build >= WINDOWS_11_BUILD
    }

    /// Whether the build is at least the supported minimum.
    pub fn is_supported(&self) -> (r: bool)
        ensures
            r == (self.build >= MIN_SUPPORTED_BUILD),
    {
        self.build >= MIN_SUPPORTED_BUILD
    }

    /// Human-readable one-liner, e.g. "Windows 11 23H2 (build 22631.2861)".
    pub fn version_string(&self) -> (r: String)
        ensures
            r@ == version_text(self.build, self.ubr, self.display_version@),
    {
        let mut out: Vec<char> = Vec::new();
        if self.is_windows_11() {
            append_str(&mut out, "Windows 11");
        } else {
            append_str(&mut out, "Windows 10");
        }
        if self.display_version.as_str().unicode_len() > 0 {
            out.push(' ');
            append_str(&mut out, self.display_version.as_str());
        }
        append_str(&mut out, " (build ");
        push_decimal(&mut out, self.build as u64);
        out.push('.');
        push_decimal(&mut out, self.ubr as u64);
        out.push(')');
        let ghost v = self.display_version@;
        assert(out@ =~= version_text(self.build, self.ubr, v));
        string_of(&out)
    }

    /// Which optional features this build has.
    pub fn features(&self) -> (r: Features)
        ensures
            r.gpu_usage == (self.build >= GPU_PDH_MIN_BUILD),
            r.hags == (self.build >= HAGS_MIN_BUILD),
    {
        Features { gpu_usage: self.build >= GPU_PDH_MIN_BUILD, hags: self.build >= HAGS_MIN_BUILD }
    }

    /// The warning to show at startup: present when the build is known
    /// (non-zero) and older than the supported minimum.
    pub fn unsupported_notice(&self) -> (r: Option<String>)
        ensures
            (self.build != 0 && self.build < MIN_SUPPORTED_BUILD) ==> (r matches Some(t) && t@
                == unsupported_text(version_text(self.build, self.ubr, self.display_version@))),
            !(self.build != 0 && self.build < MIN_SUPPORTED_BUILD) ==> r is None,
    {
        if self.build != 0 && !self.is_supported() {
            let v = self.version_string();
            let mut out: Vec<char> = Vec::new();
            append_str(&mut out, "FrameWise targets Windows 10 build 19041+ or Windows 11.\n\nDetected: ");
            append_str(&mut out, v.as_str());
            append_str(&mut out, "\n\nIt may still run, but some features could be unavailable.");
            Some(string_of(&out))
        } else {
            None
        }
    }
}

/// Windows 11 builds are supported builds, and a supported build has every
/// optional feature: GPU counters and HAGS.
pub proof fn lemma_supported_builds_have_features(build: u32)
    ensures
        build >= WINDOWS_11_BUILD ==> build >= MIN_SUPPORTED_BUILD,
        build >= MIN_SUPPORTED_BUILD ==> build >= GPU_PDH_MIN_BUILD,
        (build >= HAGS_MIN_BUILD) == (build >= MIN_SUPPORTED_BUILD),
{
}

} // verus!
