//! The overlay: what it shows, where it goes, and its colours.

pub mod monitor;
pub mod render;

use vstd::prelude::*;
use crate::config::Position;
use crate::overlay::monitor::Rect;

verus! {

/// The overlay's top-left corner for a corner position on a monitor, given
/// the panel size and the margin from the corner.
pub open spec fn position_spec(pos: Position, mon: Rect, w: int, h: int, margin: int) -> (int, int) {
    match pos {
        Position::TopLeft => (mon.left + margin, mon.top + margin),
        Position::TopRight => (mon.right - w - margin, mon.top + margin),
        Position::BottomLeft => (mon.left + margin, mon.bottom - h - margin),
        Position::BottomRight => (mon.right - w - margin, mon.bottom - h - margin),
    }
}

/// Whether `x` is an `i32` value.
pub open spec fn fits_i32(x: int) -> bool {
    i32::MIN <= x <= i32::MAX
}

/// Whether computing the position stays within `i32` at every step.
pub open spec fn position_fits(pos: Position, mon: Rect, w: int, h: int, margin: int) -> bool {
    match pos {
        Position::TopLeft => fits_i32(mon.left + margin) && fits_i32(mon.top + margin),
        Position::TopRight => fits_i32(mon.right - w) && fits_i32(mon.right - w - margin)
            && fits_i32(mon.top + margin),
        Position::BottomLeft => fits_i32(mon.left + margin) && fits_i32(mon.bottom - h) && fits_i32(
            mon.bottom - h - margin,
        ),
        Position::BottomRight => fits_i32(mon.right - w) && fits_i32(mon.right - w - margin)
            && fits_i32(mon.bottom - h) && fits_i32(mon.bottom - h - margin),
    }
}

/// The overlay's top-left corner for a corner position on a monitor.
pub fn position_for(pos: Position, mon: Rect, w: i32, h: i32, margin: i32) -> (r: (i32, i32))
    requires
        position_fits(pos, mon, w as int, h as int, margin as int),
    ensures
        (r.0 as int, r.1 as int) == position_spec(pos, mon, w as int, h as int, margin as int),
{
    match pos {
        Position::TopLeft => (mon.left + margin, mon.top + margin),
        Position::TopRight => (mon.right - w - margin, mon.top + margin),
        Position::BottomLeft => (mon.left + margin, mon.bottom - h - margin),
        Position::BottomRight => (mon.right - w - margin, mon.bottom - h - margin),
    }
}

/// A panel of size `w` x `h` placed at any corner with a non-negative margin
/// lies within the monitor, and exactly `margin` from the corner's two
/// edges, whenever the panel and two margins fit across the monitor.
pub proof fn lemma_position_within_monitor(pos: Position, mon: Rect, w: int, h: int, margin: int)
    requires
        w >= 0,
        h >= 0,
        margin >= 0,
        w + 2 * margin <= mon.right - mon.left,
        h + 2 * margin <= mon.bottom - mon.top,
    ensures
        ({
            let (x, y) = position_spec(pos, mon, w, h, margin);
            &&& mon.left <= x
            &&& x + w <= mon.right
            &&& mon.top <= y
            &&& y + h <= mon.bottom
            &&& (x == mon.left + margin || x + w == mon.right - margin)
            &&& (y == mon.top + margin || y + h == mon.bottom - margin)
        }),
{
}

/// The Win32 `COLORREF` of an RGB colour: red in the low byte, then green,
/// then blue.
pub fn rgb(r: u8, g: u8, b: u8) -> (c: u32)
    ensures
        c == r as int + 0x100 * g as int + 0x1_0000 * b as int,
{
    r as u32 + 0x100 * (g as u32) + 0x1_0000 * (b as u32)
}

/// `x / y` rounded toward zero, as integer division in Rust does.
pub open spec fn div_toward_zero(x: int, y: int) -> int {
    if x >= 0 {
        x / y
    } else {
        -((-x) / y)
    }
}

/// The value of `dpi as i32`: the same bits read as a signed number.
pub open spec fn dpi_as_i32(dpi: u32) -> int {
    if dpi <= i32::MAX {
        dpi as int
    } else {
        dpi - 0x1_0000_0000
    }
}

/// The font height for a point size at a DPI: negative, meaning the em
/// height in device pixels, `-(font_size * (dpi as i32) / 72)`. The product
/// must fit an `i32`.
pub fn font_height(font_size: i32, dpi: u32) -> (r: i32)
    requires
        i32::MIN <= font_size * dpi_as_i32(dpi) <= i32::MAX,
    ensures
        r == -div_toward_zero(font_size * dpi_as_i32(dpi), 72),
{
    let d: i64 = if dpi <= 0x7fff_ffff {
        dpi as i64
    } else {
        dpi as i64 - 0x1_0000_0000
    };
    assert(-0x8000_0000 <= d < 0x8000_0000);
    assert(font_size * d == font_size * dpi_as_i32(dpi));
    let prod: i64 = font_size as i64 * d;
    let h: i64 = if prod >= 0 {
        -(prod / 72)
    } else {
        (-prod) / 72
    };
    h as i32
}

/// The refresh timer's period: 1000 ms divided by the refresh rate (taken
/// as at least 1 Hz).
pub fn refresh_interval_ms(refresh_hz: u32) -> (r: u32)
    ensures
        r == 1000u32 / (if refresh_hz >= 1 {
            refresh_hz
        } else {
            1
        }),
{
    let hz = if refresh_hz >= 1 {
        refresh_hz
    } else {
        1
    };
    1000 / hz
}

} // verus!
