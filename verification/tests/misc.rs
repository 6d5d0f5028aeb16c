use framewise::events::{hotkey_toggles, menu_action, MenuAction, MenuIds};
use framewise::logging::time_of_day_text;
use framewise::text::{chars_of, parse_u32, split_chars, to_wide, trim_str};
use framewise::tray::{icon_rgba, ICON_SIZE};

#[test]
fn icon_pixels() {
    let rgba = icon_rgba();
    assert_eq!(rgba.len(), (ICON_SIZE * ICON_SIZE * 4) as usize);
    let px = |x: usize, y: usize| &rgba[(y * 32 + x) * 4..(y * 32 + x) * 4 + 4];
    assert_eq!(px(0, 0), &[0, 0, 0, 0]);
    assert_eq!(px(2, 2), &[20, 22, 28, 235]);
    assert_eq!(px(29, 29), &[20, 22, 28, 235]);
    assert_eq!(px(30, 29), &[0, 0, 0, 0]);
    assert_eq!(px(6, 22), &[120, 230, 130, 255]);
    assert_eq!(px(6, 21), &[20, 22, 28, 235]);
    assert_eq!(px(25, 10), &[120, 230, 130, 255]);
    assert_eq!(px(18, 25), &[120, 230, 130, 255]);
    assert_eq!(px(18, 26), &[20, 22, 28, 235]);
}

#[test]
fn log_time_stamps() {
    assert_eq!(time_of_day_text(0, 0), "00:00:00.000");
    assert_eq!(time_of_day_text(86_399, 999), "23:59:59.999");
    assert_eq!(time_of_day_text(1_700_000_000 + 3_725, 42), "23:15:25.042");
}

#[test]
fn menu_and_hotkey_dispatch() {
    let ids = MenuIds {
        toggle: "1".to_string(),
        settings: "2".to_string(),
        audit: "3".to_string(),
        quit: "4".to_string(),
    };
    assert_eq!(menu_action(&"1".to_string(), &ids), Some(MenuAction::ToggleOverlay));
    assert_eq!(menu_action(&"2".to_string(), &ids), Some(MenuAction::OpenSettings));
    assert_eq!(menu_action(&"3".to_string(), &ids), Some(MenuAction::RunAudit));
    assert_eq!(menu_action(&"4".to_string(), &ids), Some(MenuAction::Quit));
    assert_eq!(menu_action(&"5".to_string(), &ids), None);
    assert!(hotkey_toggles(true, 9, Some(9)));
    assert!(!hotkey_toggles(false, 9, Some(9)));
    assert!(!hotkey_toggles(true, 9, Some(8)));
    assert!(!hotkey_toggles(true, 9, None));
}

#[test]
fn wide_strings() {
    assert_eq!(to_wide("Hi"), vec![0x48, 0x69, 0]);
    assert_eq!(to_wide("é😀"), vec![0xe9, 0xd83d, 0xde00, 0]);
    assert_eq!(to_wide(""), vec![0]);
    let s = "FrameWise — error ✓ 𝄞";
    let expected: Vec<u16> = s.encode_utf16().chain(std::iter::once(0)).collect();
    assert_eq!(to_wide(s), expected);
}

#[test]
fn text_helpers_match_std() {
    for s in ["", "  a b  ", "\u{3000}x\u{2029}", "\t\n", " \u{85}y\u{200b} "] {
        let t: String = trim_str(s).into_iter().collect();
        assert_eq!(t, s.trim(), "s = {s:?}");
    }
    for s in ["0", "42", "+7", "+", "-1", "", "4294967295", "4294967296", "00012", "1a", " 1", "99999999999"] {
        let chars = chars_of(s);
        assert_eq!(parse_u32(&chars), s.parse::<u32>().ok(), "s = {s:?}");
    }
    for s in ["", ",", "a,b", "a,,b,", ",x"] {
        let parts: Vec<String> = split_chars(&chars_of(s), ',').into_iter().map(|v| v.into_iter().collect()).collect();
        let std_parts: Vec<String> = s.split(',').map(|p| p.to_string()).collect();
        assert_eq!(parts, std_parts, "s = {s:?}");
    }
}
