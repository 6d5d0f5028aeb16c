use framewise::stats::presentmon::{
    bundled_presentmon_name, choose_presentmon, configured_presentmon_path, find_column,
    PresentMonSource, BUNDLED_PRESENTMON_COUNT, parse_header, presentmon_args, ParserStep,
    PresentMonParser,
};

const HEADER: &str = "Application,ProcessID,SwapChainAddress,Runtime,SyncInterval,PresentFlags,AllowsTearing,PresentMode,MsBetweenPresents,MsInPresentAPI";

#[test]
fn finds_columns_by_name_ignoring_case() {
    let headers = parse_header(HEADER);
    assert_eq!(headers.len(), 10);
    assert_eq!(headers[1], "ProcessID");
    assert_eq!(find_column(&headers, &["processid", "processid()", "pid"]), Some(1));
    assert_eq!(
        find_column(&headers, &["msbetweenpresents", "frametime", "msbetweendisplaychange"]),
        Some(8)
    );
    assert_eq!(find_column(&headers, &["nothing"]), None);
    let newer = parse_header(" PID , FrameTime ,MsBetweenDisplayChange");
    assert_eq!(newer, vec!["PID", "FrameTime", "MsBetweenDisplayChange"]);
    assert_eq!(find_column(&newer, &["msbetweenpresents", "frametime", "msbetweendisplaychange"]), Some(1));
}

#[test]
fn reads_header_then_samples() {
    let mut p = PresentMonParser::new();
    assert!(matches!(p.on_line("   "), ParserStep::Skip));
    match p.on_line(HEADER) {
        ParserStep::Columns { pid_column, frame_time_column } => {
            assert_eq!((pid_column, frame_time_column), (1, 8))
        }
        other => panic!("unexpected {other:?}"),
    }
    assert_eq!(p.columns(), Some((1, 8)));
    match p.on_line("game.exe, 4242 ,0x1,DXGI,0,0,1,Hardware: Independent Flip, 6.944 ,0.1") {
        ParserStep::Sample { pid, frame_time } => {
            assert_eq!(pid, 4242);
            assert_eq!(frame_time, "6.944");
        }
        other => panic!("unexpected {other:?}"),
    }
    // too few columns, bad pid, blank line
    assert!(matches!(p.on_line("a,1,2"), ParserStep::Skip));
    assert!(matches!(p.on_line("x,notapid,0,0,0,0,0,0,5.0,0"), ParserStep::Skip));
    assert!(matches!(p.on_line(""), ParserStep::Skip));
    // an unparsable frame time is still handed on as text
    match p.on_line("x,1,0,0,0,0,0,0,abc,0") {
        ParserStep::Sample { pid, frame_time } => {
            assert_eq!(pid, 1);
            assert_eq!(frame_time, "abc");
        }
        other => panic!("unexpected {other:?}"),
    }
}

#[test]
fn missing_columns_stop_reading() {
    let mut p = PresentMonParser::new();
    assert!(matches!(p.on_line("Application,ProcessID,Runtime"), ParserStep::MissingColumns));
    assert_eq!(p.columns(), None);
}

#[test]
fn prunes_every_two_thousand_samples() {
    let mut p = PresentMonParser::new();
    for i in 1..=4000u32 {
        let prune = p.record_sample();
        assert_eq!(prune, i % 2000 == 0, "i = {i}");
    }
}

#[test]
fn command_line_and_configured_path() {
    let args = presentmon_args(&vec!["--no_track_display".to_string()]);
    assert_eq!(
        args,
        vec!["--output_stdout", "--stop_existing_session", "--no_track_display"]
    );
    assert_eq!(presentmon_args(&vec![]).len(), 2);
    assert_eq!(configured_presentmon_path("   "), None);
    assert_eq!(
        configured_presentmon_path("  C:\\Tools\\PresentMon.exe \n"),
        Some("C:\\Tools\\PresentMon.exe".to_string())
    );
}

#[test]
fn presentmon_source_prefers_an_existing_configured_path() {
    assert_eq!(BUNDLED_PRESENTMON_COUNT, 2);
    assert_eq!(bundled_presentmon_name(0), "PresentMon.exe");
    assert_eq!(bundled_presentmon_name(1), "presentmon.exe");
    assert_eq!(
        choose_presentmon(Some(true), &vec![true, true]),
        Some(PresentMonSource::Configured)
    );
    // A configured path that does not exist falls back to the bundled names.
    assert_eq!(
        choose_presentmon(Some(false), &vec![false, true]),
        Some(PresentMonSource::Bundled(1))
    );
    assert_eq!(
        choose_presentmon(None, &vec![true, true]),
        Some(PresentMonSource::Bundled(0))
    );
    assert_eq!(choose_presentmon(Some(false), &vec![false, false]), None);
    assert_eq!(choose_presentmon(None, &vec![]), None);
}
