use framewise::config::Stats;
use framewise::overlay::render::{build_lines, color_for, ram_text, row, LineKind, StatValues};

fn all_on() -> Stats {
    Stats {
        fps: true,
        low_1_percent: true,
        frame_time: true,
        cpu: true,
        gpu: true,
        ram: true,
    }
}

fn none() -> StatValues {
    StatValues {
        fps: None,
        low_1_percent: None,
        frame_time: None,
        cpu: None,
        gpu: None,
        ram: None,
    }
}

#[test]
fn shows_presentmon_notice_when_unavailable() {
    let snap = none();
    let lines = build_lines(&all_on(), &snap, false);
    assert!(lines[0].text.contains("n/a (PresentMon)"));
    // With FPS unavailable, low/frame rows are omitted, not shown as "—".
    assert!(!lines.iter().any(|l| l.text.starts_with("1% low")));
}

#[test]
fn formats_values() {
    // The overlay formats fps 143.6 as "144", 1% low 98.2 as "98", frame time
    // 6.94 as "6.9 ms", CPU 23.4 as "23%", GPU 61.0 as "61%", and 12800 / 32768
    // MB of RAM as "12.5 / 32.0 GB". The floating-point values are formatted by
    // the program around the library, as here; the memory row by the library.
    let snap = StatValues {
        fps: Some(format!("{:.0}", 143.6f32.round())),
        low_1_percent: Some(format!("{:.0}", 98.2f32.round())),
        frame_time: Some(format!("{:.1} ms", 6.94f32)),
        cpu: Some(format!("{:.0}%", 23.4f32.round())),
        gpu: Some(format!("{:.0}%", 61.0f32.round())),
        ram: Some(ram_text(12_800, 32_768)),
    };
    let lines = build_lines(&all_on(), &snap, true);
    let joined: Vec<&str> = lines.iter().map(|l| l.text.as_str()).collect();
    assert!(joined.iter().any(|t| t.contains("144"))); // fps rounded
    assert!(joined.iter().any(|t| t.contains("6.9 ms")));
    assert!(joined.iter().any(|t| t.contains("23%")));
    assert!(joined.iter().any(|t| t.contains("12.5 / 32.0 GB")));
    assert_eq!(
        joined,
        vec![
            "FPS     144",
            "1% low  98",
            "Frame   6.9 ms",
            "CPU     23%",
            "GPU     61%",
            "RAM     12.5 / 32.0 GB",
        ]
    );
}

#[test]
fn gpu_hidden_when_unavailable() {
    let snap = StatValues {
        cpu: Some("10%".to_string()),
        gpu: None,
        ram: Some(ram_text(1024, 8192)),
        ..none()
    };
    let lines = build_lines(&all_on(), &snap, true);
    assert!(!lines.iter().any(|l| l.text.starts_with("GPU")));
}

#[test]
fn rows_are_padded_to_the_label_column() {
    let l = row("FPS", "144".to_string(), LineKind::Fps);
    assert_eq!(l.text, "FPS     144");
    assert_eq!(l.kind, LineKind::Fps);
    let long = row("LongLabel", "1".to_string(), LineKind::Normal);
    assert_eq!(long.text, "LongLabel1");
    let exact = row("12345678", "x".to_string(), LineKind::Low);
    assert_eq!(exact.text, "12345678x");
}

#[test]
fn full_overlay_in_order() {
    let snap = StatValues {
        fps: Some("144".to_string()),
        low_1_percent: Some("98".to_string()),
        frame_time: Some("6.9 ms".to_string()),
        cpu: Some("23%".to_string()),
        gpu: Some("61%".to_string()),
        ram: Some("12.5 / 32.0 GB".to_string()),
    };
    let lines = build_lines(&all_on(), &snap, true);
    let texts: Vec<&str> = lines.iter().map(|l| l.text.as_str()).collect();
    assert_eq!(
        texts,
        vec![
            "FPS     144",
            "1% low  98",
            "Frame   6.9 ms",
            "CPU     23%",
            "GPU     61%",
            "RAM     12.5 / 32.0 GB"
        ]
    );
    let kinds: Vec<LineKind> = lines.iter().map(|l| l.kind).collect();
    assert_eq!(
        kinds,
        vec![
            LineKind::Fps,
            LineKind::Low,
            LineKind::Normal,
            LineKind::Normal,
            LineKind::Normal,
            LineKind::Normal
        ]
    );
}

#[test]
fn dashes_while_waiting_for_frames() {
    let lines = build_lines(&all_on(), &none(), true);
    let texts: Vec<&str> = lines.iter().map(|l| l.text.as_str()).collect();
    assert_eq!(texts, vec!["FPS     —", "1% low  —", "Frame   —"]);
    assert_eq!(lines[0].kind, LineKind::Fps);
}

#[test]
fn unavailable_notice_is_the_only_fps_row() {
    let lines = build_lines(&all_on(), &none(), false);
    assert_eq!(lines.len(), 1);
    assert_eq!(lines[0].text, "FPS     n/a (PresentMon)");
    assert_eq!(lines[0].kind, LineKind::Normal);
}

#[test]
fn disabled_rows_are_not_shown() {
    let stats = Stats {
        fps: false,
        low_1_percent: false,
        frame_time: false,
        cpu: true,
        gpu: false,
        ram: false,
    };
    let snap = StatValues {
        fps: Some("60".to_string()),
        cpu: Some("5%".to_string()),
        gpu: Some("7%".to_string()),
        ..none()
    };
    let lines = build_lines(&stats, &snap, true);
    assert_eq!(lines.len(), 1);
    assert_eq!(lines[0].text, "CPU     5%");
}

#[test]
fn colours_per_kind() {
    assert_eq!(color_for(LineKind::Fps), (120, 230, 130));
    assert_eq!(color_for(LineKind::Low), (230, 200, 120));
    assert_eq!(color_for(LineKind::Normal), (225, 228, 235));
}

#[test]
fn ram_text_matches_float_formatting() {
    assert_eq!(ram_text(12_800, 32_768), "12.5 / 32.0 GB");
    assert_eq!(ram_text(0, 1024), "0.0 / 1.0 GB");
    // Ties (0.25, 0.75 GB) and values around them, and a spread of sizes.
    let mut samples: Vec<u64> = (0..5000).collect();
    samples.extend([256, 768, 1280, 1792, 65_535, 65_536, 1 << 40, (1 << 50) + 256, 1 << 53]);
    for mb in samples {
        let expected = format!("{:.1} / {:.1} GB", mb as f64 / 1024.0, 16_384f64 / 1024.0);
        assert_eq!(ram_text(mb, 16_384), expected, "mb = {mb}");
    }
    assert_eq!(ram_text(u64::MAX, u64::MAX), "18014398509481984.0 / 18014398509481984.0 GB");
}
