use framewise::platform::os_info::{GPU_PDH_MIN_BUILD, HAGS_MIN_BUILD, MIN_SUPPORTED_BUILD, WINDOWS_11_BUILD};
use framewise::platform::{Features, OsInfo};

fn os(build: u32, ubr: u32, display: &str) -> OsInfo {
    OsInfo {
        major: 10,
        build,
        ubr,
        display_version: display.to_string(),
        product_name: "Windows 10 Pro".to_string(),
    }
}

#[test]
fn reads_registry_values() {
    let o = OsInfo::from_registry(" 22631 ", 10, 2861, Some("23H2".to_string()), Some("2009".to_string()), "Windows 10 Pro".to_string());
    assert_eq!(o.build, 22631);
    assert_eq!(o.display_version, "23H2");
    let o = OsInfo::from_registry("19045", 10, 1, None, Some("2009".to_string()), String::new());
    assert_eq!(o.display_version, "2009");
    let o = OsInfo::from_registry("n/a", 0, 0, None, None, String::new());
    assert_eq!(o.build, 0);
    assert_eq!(o.display_version, "");
}

#[test]
fn version_gating() {
    assert!(os(22000, 0, "").is_windows_11());
    assert!(!os(21999, 0, "").is_windows_11());
    assert!(os(19041, 0, "").is_supported());
    assert!(!os(19040, 0, "").is_supported());
    assert_eq!(os(19041, 0, "").features(), Features { gpu_usage: true, hags: true });
    assert_eq!(os(18363, 0, "").features(), Features { gpu_usage: true, hags: false });
    assert_eq!(os(16298, 0, "").features(), Features { gpu_usage: false, hags: false });
    assert_eq!((MIN_SUPPORTED_BUILD, WINDOWS_11_BUILD, GPU_PDH_MIN_BUILD, HAGS_MIN_BUILD), (19041, 22000, 16299, 19041));
}

#[test]
fn version_strings() {
    assert_eq!(os(22631, 2861, "23H2").version_string(), "Windows 11 23H2 (build 22631.2861)");
    assert_eq!(os(19045, 0, "").version_string(), "Windows 10 (build 19045.0)");
}

#[test]
fn unsupported_notice_only_for_known_old_builds() {
    assert_eq!(os(0, 0, "").unsupported_notice(), None);
    assert_eq!(os(19041, 0, "").unsupported_notice(), None);
    assert_eq!(
        os(18363, 1016, "1909").unsupported_notice().unwrap(),
        "FrameWise targets Windows 10 build 19041+ or Windows 11.\n\nDetected: Windows 10 1909 (build 18363.1016)\n\nIt may still run, but some features could be unavailable."
    );
}
