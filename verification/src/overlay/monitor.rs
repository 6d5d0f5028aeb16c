//! Which monitor the overlay goes on: the foreground window's monitor when
//! that window covers it entirely (a fullscreen or borderless game), else the
//! primary monitor.

use vstd::prelude::*;

verus! {

/// A rectangle in virtual-screen coordinates.
#[derive(Debug, Clone, Copy, PartialEq, Eq, Structural)]
pub struct Rect {
    pub left: i32,
    pub top: i32,
    pub right: i32,
    pub bottom: i32,
}

/// What is known of the foreground window.
#[derive(Debug, Clone, Copy, PartialEq, Eq, Structural)]
pub struct ForegroundWindow {
    /// The id of the process that owns it.
    pub pid: u32,
    /// The bounds of the monitor it is on, when they could be read.
    pub monitor: Option<Rect>,
    /// Its own bounds, when they could be read.
    pub window: Option<Rect>,
}

/// The screen to draw the overlay on, and the process whose FPS to report.
#[derive(Debug, Clone, Copy, PartialEq, Eq, Structural)]
pub struct GameTarget {
    /// Full bounds of the target monitor.
    pub monitor_rect: Rect,
    /// The foreground window's process id (0 if unknown).
    pub pid: u32,
}

/// Whether the window covers the whole monitor.
pub open spec fn covers_spec(window: Rect, monitor: Rect) -> bool {
    window.left <= monitor.left && window.top <= monitor.top && window.right >= monitor.right
        && window.bottom >= monitor.bottom
}

/// Whether the window covers the whole monitor.
pub fn covers(window: &Rect, monitor: &Rect) -> (r: bool)
    ensures
        r == covers_spec(*window, *monitor),
{
    window.left <= monitor.left && window.top <= monitor.top && window.right >= monitor.right
        && window.bottom >= monitor.bottom
}

/// The bounds assumed for the primary monitor when they cannot be read.
pub open spec fn fallback_primary() -> Rect {
    Rect { left: 0, top: 0, right: 1920, bottom: 1080 }
}

/// The primary monitor's bounds, or 1920 x 1080 at the origin when they
/// could not be read.
pub fn primary_or_default(read: Option<Rect>) -> (r: Rect)
    ensures
        r == (match read {
            Some(m) => m,
            None => fallback_primary(),
        }),
{
    match read {
        Some(m) => m,
        None => Rect { left: 0, top: 0, right: 1920, bottom: 1080 },
    }
}

/// Where the overlay goes, given the foreground window (if any) and the
/// primary monitor.
pub open spec fn target_spec(foreground: Option<ForegroundWindow>, primary: Rect) -> GameTarget {
    match foreground {
        None => GameTarget { monitor_rect: primary, pid: 0 },
        Some(fg) => {
            let mon = match fg.monitor {
                Some(m) => m,
                None => primary,
            };
            let fullscreen = match fg.window {
                Some(w) => covers_spec(w, mon),
                None => false,
            };
            GameTarget { monitor_rect: if fullscreen { mon } else { primary }, pid: fg.pid }
        },
    }
}

/// Decides where the overlay goes: on the foreground window's monitor when
/// the window covers it, otherwise on the primary monitor, so the overlay
/// stays put while the desktop is in front.
pub fn game_target(foreground: Option<ForegroundWindow>, primary: Rect) -> (r: GameTarget)
    ensures
        r == target_spec(foreground, primary),
{
    match foreground {
        None => GameTarget { monitor_rect: primary, pid: 0 },
        Some(fg) => {
            let mon = match fg.monitor {
                Some(m) => m,
                None => primary,
            };
            let fullscreen = match fg.window {
                Some(w) => covers(&w, &mon),
                None => false,
            };
            GameTarget { monitor_rect: if fullscreen { mon } else { primary }, pid: fg.pid }
        },
    }
}

/// A window covers a monitor exactly when its rectangle contains the
/// monitor's on all four sides; a window that stops short of any edge (such
/// as a maximized window above the taskbar) does not.
pub proof fn lemma_covers_is_containment(window: Rect, monitor: Rect)
    ensures
        covers_spec(window, monitor) <==> (window.left <= monitor.left && window.top <= monitor.top
            && window.right >= monitor.right && window.bottom >= monitor.bottom),
        window.left > monitor.left || window.top > monitor.top || window.right < monitor.right
            || window.bottom < monitor.bottom ==> !covers_spec(window, monitor),
{
}

/// The overlay goes on the foreground window's monitor exactly when the
/// window's rectangle contains that monitor's rectangle on all four sides
/// (a fullscreen game); otherwise on the primary monitor. The reported
/// process is always the foreground window's, and with no foreground window
/// the overlay stays on the primary monitor with process 0.
pub proof fn lemma_target_follows_fullscreen_window(fg: ForegroundWindow, primary: Rect)
    ensures
        target_spec(Some(fg), primary).pid == fg.pid,
        fg.monitor matches Some(m) ==> (fg.window matches Some(w) ==> target_spec(
            Some(fg),
            primary,
        ).monitor_rect == (if w.left <= m.left && w.top <= m.top && w.right >= m.right && w.bottom
            >= m.bottom {
            m
        } else {
            primary
        })),
        fg.monitor is None ==> target_spec(Some(fg), primary).monitor_rect == primary,
        fg.window is None ==> target_spec(Some(fg), primary).monitor_rect == primary,
        target_spec(None, primary).monitor_rect == primary,
        target_spec(None, primary).pid == 0,
{
}

} // verus!
