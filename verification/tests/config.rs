use framewise::config::{
    clamp_f32_bits, clamp_opacity_bits, Config, Hotkey, Overlay, Position, Stats, Telemetry, CONFIG_FILE,
    OPACITY_DEFAULT_BITS, OPACITY_MAX_BITS, OPACITY_MIN_BITS,
};

#[test]
fn defaults_match_the_documented_file() {
    let c = Config::default();
    assert_eq!(c.overlay.position, Position::TopLeft);
    assert_eq!(c.overlay.margin, 16);
    assert_eq!(c.overlay.font_size, 18);
    assert_eq!(f32::from_bits(c.overlay.opacity_bits), 0.85f32);
    assert_eq!(c.overlay.refresh_hz, 10);
    assert!(c.overlay.visible_on_start);
    assert_eq!(c.overlay.stats, Stats::default());
    assert!(c.overlay.stats.fps && c.overlay.stats.ram);
    assert_eq!(c.hotkey.modifiers, vec!["ALT".to_string(), "SHIFT".to_string()]);
    assert_eq!(c.hotkey.key, "F10");
    assert_eq!(c.telemetry.presentmon_path, "");
    assert!(c.telemetry.presentmon_extra_args.is_empty());
    assert_eq!(c.telemetry.low_sample_window, 1000);
    assert_eq!(CONFIG_FILE, "framewise.toml");
    assert_eq!(Position::default(), Position::TopLeft);
    assert_eq!(Overlay::default(), c.overlay);
    assert_eq!(Hotkey::default().key, "F10");
    assert_eq!(Telemetry::default().low_sample_window, 1000);
}

fn with(opacity: f32, refresh_hz: u32, font_size: i32, margin: i32, window: usize) -> Config {
    let mut c = Config::default();
    c.overlay.opacity_bits = opacity.to_bits();
    c.overlay.refresh_hz = refresh_hz;
    c.overlay.font_size = font_size;
    c.overlay.margin = margin;
    c.telemetry.low_sample_window = window;
    c
}

#[test]
fn clamp_limits_every_numeric_setting() {
    let mut c = with(5.0, 0, 2, -10, 5);
    c.clamp();
    assert_eq!(f32::from_bits(c.overlay.opacity_bits), 1.0);
    assert_eq!(c.overlay.refresh_hz, 1);
    assert_eq!(c.overlay.font_size, 8);
    assert_eq!(c.overlay.margin, 0);
    assert_eq!(c.telemetry.low_sample_window, 60);

    let mut c = with(0.01, 500, 300, 99_999, 1_000_000);
    c.clamp();
    assert_eq!(f32::from_bits(c.overlay.opacity_bits), 0.10);
    assert_eq!(c.overlay.refresh_hz, 60);
    assert_eq!(c.overlay.font_size, 72);
    assert_eq!(c.overlay.margin, 4000);
    assert_eq!(c.telemetry.low_sample_window, 100_000);
}

#[test]
fn clamp_keeps_values_in_range_and_other_settings() {
    let mut c = with(0.5, 30, 20, 12, 500);
    c.hotkey.key = "F5".to_string();
    c.overlay.position = Position::BottomRight;
    c.clamp();
    assert_eq!(f32::from_bits(c.overlay.opacity_bits), 0.5);
    assert_eq!(c.overlay.refresh_hz, 30);
    assert_eq!(c.overlay.font_size, 20);
    assert_eq!(c.overlay.margin, 12);
    assert_eq!(c.telemetry.low_sample_window, 500);
    assert_eq!(c.hotkey.key, "F5");
    assert_eq!(c.overlay.position, Position::BottomRight);
}

#[test]
fn clamp_is_idempotent() {
    let mut c = with(-3.0, 1000, -5, 5000, 0);
    c.clamp();
    let once = c.clone();
    c.clamp();
    assert_eq!(c.overlay, once.overlay);
    assert_eq!(c.telemetry.low_sample_window, once.telemetry.low_sample_window);
}

#[test]
fn opacity_clamp_matches_f32_clamp() {
    let samples = [
        0.0f32,
        -0.0,
        -1.0,
        0.05,
        0.1,
        0.10000001,
        0.5,
        0.99,
        1.0,
        1.0000001,
        2.0,
        f32::INFINITY,
        f32::NEG_INFINITY,
        f32::MIN_POSITIVE,
        -f32::MIN_POSITIVE,
        f32::MAX,
        f32::MIN,
    ];
    for x in samples {
        let got = f32::from_bits(clamp_f32_bits(x.to_bits(), OPACITY_MIN_BITS, OPACITY_MAX_BITS));
        assert_eq!(got.to_bits(), x.clamp(0.10, 1.0).to_bits(), "x = {x}");
    }
    assert_eq!(OPACITY_MIN_BITS, 0.10f32.to_bits());
    assert_eq!(OPACITY_MAX_BITS, 1.0f32.to_bits());
}

#[test]
fn nan_opacity_is_clamped_to_the_default() {
    for nan in [f32::NAN, -f32::NAN, f32::from_bits(0x7f80_0001), f32::from_bits(0xffff_ffff)] {
        assert!(nan.is_nan());
        let got = f32::from_bits(clamp_opacity_bits(nan.to_bits()));
        assert_eq!(got, 0.85f32);
        assert!((0.10f32..=1.0f32).contains(&got));
        let mut c = with(nan, 10, 18, 16, 1000);
        c.clamp();
        assert_eq!(c.overlay.opacity_bits, OPACITY_DEFAULT_BITS);
    }
    for x in [0.05f32, 0.5, 3.0, f32::INFINITY, f32::NEG_INFINITY] {
        let got = f32::from_bits(clamp_opacity_bits(x.to_bits()));
        assert_eq!(got, x.clamp(0.10, 1.0));
    }
}
