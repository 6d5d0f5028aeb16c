use framewise::config::Position;
use framewise::overlay::monitor::{covers, game_target, primary_or_default, ForegroundWindow, GameTarget, Rect};
use framewise::overlay::{font_height, position_for, refresh_interval_ms, rgb};

const MON: Rect = Rect { left: 1920, top: 0, right: 3840, bottom: 1080 };
const PRIMARY: Rect = Rect { left: 0, top: 0, right: 1920, bottom: 1080 };

#[test]
fn corners() {
    assert_eq!(position_for(Position::TopLeft, MON, 200, 100, 16), (1936, 16));
    assert_eq!(position_for(Position::TopRight, MON, 200, 100, 16), (3624, 16));
    assert_eq!(position_for(Position::BottomLeft, MON, 200, 100, 16), (1936, 964));
    assert_eq!(position_for(Position::BottomRight, MON, 200, 100, 16), (3624, 964));
}

#[test]
fn follows_fullscreen_windows() {
    let game = ForegroundWindow { pid: 42, monitor: Some(MON), window: Some(MON) };
    assert_eq!(game_target(Some(game), PRIMARY), GameTarget { monitor_rect: MON, pid: 42 });
    let windowed = ForegroundWindow {
        pid: 7,
        monitor: Some(MON),
        window: Some(Rect { left: 2000, top: 10, right: 3000, bottom: 900 }),
    };
    assert_eq!(game_target(Some(windowed), PRIMARY), GameTarget { monitor_rect: PRIMARY, pid: 7 });
    let unknown = ForegroundWindow { pid: 9, monitor: Some(MON), window: None };
    assert_eq!(game_target(Some(unknown), PRIMARY).monitor_rect, PRIMARY);
    assert_eq!(game_target(None, PRIMARY), GameTarget { monitor_rect: PRIMARY, pid: 0 });
    let bigger = Rect { left: 1900, top: -20, right: 3900, bottom: 1100 };
    assert!(covers(&bigger, &MON));
    assert!(!covers(&MON, &bigger));
    assert_eq!(primary_or_default(None), PRIMARY);
    assert_eq!(primary_or_default(Some(MON)), MON);
}

#[test]
fn colours_and_timer() {
    assert_eq!(rgb(18, 18, 24), 0x0018_1212);
    assert_eq!(rgb(255, 0, 0), 0xff);
    assert_eq!(refresh_interval_ms(10), 100);
    assert_eq!(refresh_interval_ms(0), 1000);
    assert_eq!(refresh_interval_ms(60), 16);
}

#[test]
fn font_heights() {
    assert_eq!(font_height(15, 96), -20);
    assert_eq!(font_height(18, 144), -36);
    assert_eq!(font_height(8, 100), -11);
    assert_eq!(font_height(-10, 100), 13);
    // A product of exactly i32::MIN does not overflow.
    assert_eq!(font_height(i32::MIN, 1), -(i32::MIN / 72));
    assert_eq!(font_height(1, 1u32 << 31), 29_826_161);
    // A DPI above i32::MAX is read through the wrapping cast, as `dpi as i32`.
    assert_eq!(font_height(2, u32::MAX), -(2 * (u32::MAX as i32) / 72));
    assert_eq!(font_height(72, 0xffff_ff00), 256);
}
