//! The configuration model: overlay placement and appearance, the hotkey, and
//! telemetry settings, with the safe ranges that hand-edited values are
//! clamped into.
//!
//! The overlay opacity is a single-precision number; it is held here as its
//! IEEE-754 bit pattern, so that clamping it is exact.

use vstd::prelude::*;
use vstd::string::*;

verus! {

/// The name of the configuration file, kept next to the executable.
pub const CONFIG_FILE: &'static str = "framewise.toml";

/// The bit pattern of the `f32` nearest to 0.10, the lowest opacity.
pub const OPACITY_MIN_BITS: u32 = 0x3dcc_cccd;

/// The bit pattern of the `f32` 1.0, the highest opacity.
pub const OPACITY_MAX_BITS: u32 = 0x3f80_0000;

/// The bit pattern of the `f32` nearest to 0.85, the default opacity.
pub const OPACITY_DEFAULT_BITS: u32 = 0x3f59_999a;

/// Whether `bits` encodes a NaN: every exponent bit set and a non-zero
/// mantissa, whatever the sign.
pub open spec fn f32_is_nan(bits: u32) -> bool {
    (bits / 0x80_0000) % 0x100 == 0xff && bits % 0x80_0000 != 0
}

/// A key that orders the non-NaN `f32` values as `<` does: the magnitude for
/// a clear sign bit, its negation for a set one (so `+0` and `-0` are equal).
pub open spec fn f32_order_key(bits: u32) -> int {
    if bits < 0x8000_0000 {
        bits as int
    } else {
        -((bits - 0x8000_0000) as int)
    }
}

/// What `f32::clamp(x, lo, hi)` gives, on bit patterns: `lo` when `x < lo`,
/// `hi` when `x > hi`, and `x` otherwise, NaN included.
pub open spec fn f32_clamp(x: u32, lo: u32, hi: u32) -> u32 {
    if f32_is_nan(x) {
        x
    } else if f32_order_key(x) < f32_order_key(lo) {
        lo
    } else if f32_order_key(x) > f32_order_key(hi) {
        hi
    } else {
        x
    }
}

/// `x` limited to `lo..=hi`.
pub open spec fn clamp_int(x: int, lo: int, hi: int) -> int {
    if x < lo {
        lo
    } else if x > hi {
        hi
    } else {
        x
    }
}

/// Whether the opacity bits name a number in `0.10..=1.00`.
pub open spec fn opacity_in_range(bits: u32) -> bool {
    !f32_is_nan(bits) && f32_order_key(OPACITY_MIN_BITS) <= f32_order_key(bits)
        <= f32_order_key(OPACITY_MAX_BITS)
}

/// The opacity that a configured opacity is clamped to: the nearest end of
/// `0.10..=1.00` when it lies outside, the default opacity when it is not a
/// number at all, and the value itself otherwise.
pub open spec fn clamp_opacity(x: u32) -> u32 {
    if f32_is_nan(x) {
        OPACITY_DEFAULT_BITS
    } else {
        f32_clamp(x, OPACITY_MIN_BITS, OPACITY_MAX_BITS)
    }
}

/// Clamps an opacity into `0.10..=1.00`; a NaN becomes the default opacity.
pub fn clamp_opacity_bits(x: u32) -> (r: u32)
    ensures
        r == clamp_opacity(x),
        opacity_in_range(r),
{
    let nan = (x / 0x80_0000) % 0x100 == 0xff && x % 0x80_0000 != 0;
    if nan {
        OPACITY_DEFAULT_BITS
    } else {
        clamp_f32_bits(x, OPACITY_MIN_BITS, OPACITY_MAX_BITS)
    }
}

/// `f32::clamp` on bit patterns.
pub fn clamp_f32_bits(x: u32, lo: u32, hi: u32) -> (r: u32)
    requires
        !f32_is_nan(lo),
        !f32_is_nan(hi),
        f32_order_key(lo) <= f32_order_key(hi),
    ensures
        r == f32_clamp(x, lo, hi),
{
    let nan = (x / 0x80_0000) % 0x100 == 0xff && x % 0x80_0000 != 0;
    if nan {
        return x;
    }
    if f32_less(x, lo) {
        lo
    } else if f32_less(hi, x) {
        hi
    } else {
        x
    }
}

/// `a < b` on non-NaN `f32` bit patterns.
fn f32_less(a: u32, b: u32) -> (r: bool)
    ensures
        r == (f32_order_key(a) < f32_order_key(b)),
{
    let a_neg = a >= 0x8000_0000;
    let b_neg = b >= 0x8000_0000;
    if !a_neg && !b_neg {
        a < b
    } else if a_neg && b_neg {
        a - 0x8000_0000 > b - 0x8000_0000
    } else if a_neg {
        // -|a| < b unless both are zero
        !(a == 0x8000_0000 && b == 0)
    } else {
        false
    }
}

/// Corner of the monitor the overlay anchors to.
#[derive(Debug, Clone, Copy, PartialEq, Eq, Structural)]
pub enum Position {
    TopLeft,
    TopRight,
    BottomLeft,
    BottomRight,
}

impl Default for Position {
    fn default() -> (r: Position)
        ensures
            r == Position::TopLeft,
    {
        Position::TopLeft
    }
}

/// Which overlay rows are shown.
#[derive(Debug, Clone, Copy, PartialEq, Eq, Structural)]
pub struct Stats {
    pub fps: bool,
    pub low_1_percent: bool,
    pub frame_time: bool,
    pub cpu: bool,
    pub gpu: bool,
    pub ram: bool,
}

impl Default for Stats {
    fn default() -> (r: Stats)
        ensures
            r == (Stats {
                fps: true,
                low_1_percent: true,
                frame_time: true,
                cpu: true,
                gpu: true,
                ram: true,
            }),
    {
        Stats { fps: true, low_1_percent: true, frame_time: true, cpu: true, gpu: true, ram: true }
    }
}

/// Overlay placement and appearance.
#[derive(Debug, Clone, Copy, PartialEq, Eq, Structural)]
pub struct Overlay {
    pub position: Position,
    /// Pixel margin from the chosen corner.
    pub margin: i32,
    /// Font point size.
    pub font_size: i32,
    /// Window opacity, as the bit pattern of an `f32`.
    pub opacity_bits: u32,
    /// How often the displayed numbers update, in Hz.
    pub refresh_hz: u32,
    pub visible_on_start: bool,
    pub stats: Stats,
}

impl Default for Overlay {
    fn default() -> (r: Overlay)
        ensures
            r == (Overlay {
                position: Position::TopLeft,
                margin: 16,
                font_size: 18,
                opacity_bits: OPACITY_DEFAULT_BITS,
                refresh_hz: 10,
                visible_on_start: true,
                stats: Stats {
                    fps: true,
                    low_1_percent: true,
                    frame_time: true,
                    cpu: true,
                    gpu: true,
                    ram: true,
                },
            }),
    {
        Overlay {
            position: Position::TopLeft,
            margin: 16,
            font_size: 18,
            opacity_bits: OPACITY_DEFAULT_BITS,
            refresh_hz: 10,
            visible_on_start: true,
            stats: Stats::default(),
        }
    }
}

/// The show/hide hotkey: any of "ALT", "CTRL", "SHIFT", "SUPER", and a key
/// "F1".."F24", a letter "A".."Z" or a digit "0".."9".
#[derive(Debug, Clone)]
pub struct Hotkey {
    pub modifiers: Vec<String>,
    pub key: String,
}

impl Default for Hotkey {
    fn default() -> (r: Hotkey)
        ensures
            r.modifiers@.len() == 2,
            r.modifiers@[0]@ == "ALT"@,
            r.modifiers@[1]@ == "SHIFT"@,
            r.key@ == "F10"@,
    {
        let mut modifiers: Vec<String> = Vec::new();
        modifiers.push(String::from_str("ALT"));
        modifiers.push(String::from_str("SHIFT"));
        Hotkey { modifiers, key: String::from_str("F10") }
    }
}

/// Telemetry settings.
#[derive(Debug, Clone)]
pub struct Telemetry {
    /// Path to PresentMon.exe. Empty means: look next to the executable.
    pub presentmon_path: String,
    /// Extra command-line arguments appended to the PresentMon invocation.
    pub presentmon_extra_args: Vec<String>,
    /// Frames retained for the 1% low calculation.
    pub low_sample_window: usize,
}

impl Default for Telemetry {
    fn default() -> (r: Telemetry)
        ensures
            r.presentmon_path@ == Seq::<char>::empty(),
            r.presentmon_extra_args@.len() == 0,
            r.low_sample_window == 1000,
    {
        Telemetry {
            presentmon_path: String::new(),
            presentmon_extra_args: Vec::new(),
            low_sample_window: 1000,
        }
    }
}

/// The whole configuration.
#[derive(Debug, Clone)]
pub struct Config {
    pub overlay: Overlay,
    pub hotkey: Hotkey,
    pub telemetry: Telemetry,
}

impl Default for Config {
    fn default() -> (r: Config)
        ensures
            r.overlay == (Overlay {
                position: Position::TopLeft,
                margin: 16,
                font_size: 18,
                opacity_bits: OPACITY_DEFAULT_BITS,
                refresh_hz: 10,
                visible_on_start: true,
                stats: Stats {
                    fps: true,
                    low_1_percent: true,
                    frame_time: true,
                    cpu: true,
                    gpu: true,
                    ram: true,
                },
            }),
            r.hotkey.modifiers@.len() == 2,
            r.hotkey.modifiers@[0]@ == "ALT"@,
            r.hotkey.modifiers@[1]@ == "SHIFT"@,
            r.hotkey.key@ == "F10"@,
            r.telemetry.presentmon_path@ == Seq::<char>::empty(),
            r.telemetry.presentmon_extra_args@.len() == 0,
            r.telemetry.low_sample_window == 1000,
    {
        Config {
            overlay: Overlay::default(),
            hotkey: Hotkey::default(),
            telemetry: Telemetry::default(),
        }
    }
}

impl Config {
    /// Whether every numeric setting lies in its safe range.
    pub open spec fn in_safe_ranges(&self) -> bool {
        &&& opacity_in_range(self.overlay.opacity_bits)
        &&& 1 <= self.overlay.refresh_hz <= 60
        &&& 8 <= self.overlay.font_size <= 72
        &&& 0 <= self.overlay.margin <= 4000
        &&& 60 <= self.telemetry.low_sample_window <= 100_000
    }

    /// Clamps every numeric setting into its safe range, so that a
    /// hand-edited file cannot produce a broken overlay; all else is kept.
    pub fn clamp(&mut self)
        ensures
            final(self).overlay.opacity_bits == clamp_opacity(old(self).overlay.opacity_bits),
            final(self).overlay.refresh_hz == clamp_int(old(self).overlay.refresh_hz as int, 1, 60),
            final(self).overlay.font_size == clamp_int(old(self).overlay.font_size as int, 8, 72),
            final(self).overlay.margin == clamp_int(old(self).overlay.margin as int, 0, 4000),
            final(self).telemetry.low_sample_window == clamp_int(
                old(self).telemetry.low_sample_window as int,
                60,
                100_000,
            ),
            final(self).overlay.position == old(self).overlay.position,
            final(self).overlay.visible_on_start == old(self).overlay.visible_on_start,
            final(self).overlay.stats == old(self).overlay.stats,
            final(self).hotkey == old(self).hotkey,
            final(self).telemetry.presentmon_path == old(self).telemetry.presentmon_path,
            final(self).telemetry.presentmon_extra_args == old(
                self,
            ).telemetry.presentmon_extra_args,
            final(self).in_safe_ranges(),
    {
        self.overlay.opacity_bits = clamp_opacity_bits(self.overlay.opacity_bits);
        let hz = self.overlay.refresh_hz;
        self.overlay.refresh_hz = if hz < 1 {
            1
        } else if hz > 60 {
            60
        } else {
            hz
        };
        let fs = self.overlay.font_size;
        self.overlay.font_size = if fs < 8 {
            8
        } else if fs > 72 {
            72
        } else {
            fs
        };
        let m = self.overlay.margin;
        self.overlay.margin = if m < 0 {
            0
        } else if m > 4000 {
            4000
        } else {
            m
        };
        let w = self.telemetry.low_sample_window;
        self.telemetry.low_sample_window = if w < 60 {
            60
        } else if w > 100_000 {
            100_000
        } else {
            w
        };
    }
}

/// Clamping twice gives what clamping once gives: a clamped configuration is
/// a fixed point.
pub proof fn lemma_clamp_idempotent(opacity_bits: u32, refresh_hz: u32, font_size: i32, margin: i32, window: usize)
    ensures
        clamp_opacity(clamp_opacity(opacity_bits)) == clamp_opacity(opacity_bits),
        clamp_int(clamp_int(refresh_hz as int, 1, 60), 1, 60) == clamp_int(refresh_hz as int, 1, 60),
        clamp_int(clamp_int(font_size as int, 8, 72), 8, 72) == clamp_int(font_size as int, 8, 72),
        clamp_int(clamp_int(margin as int, 0, 4000), 0, 4000) == clamp_int(margin as int, 0, 4000),
        clamp_int(clamp_int(window as int, 60, 100_000), 60, 100_000) == clamp_int(window as int, 60, 100_000),
{
}

/// A setting that is already in range is left as it is.
pub proof fn lemma_clamp_keeps_in_range(opacity_bits: u32)
    requires
        opacity_in_range(opacity_bits),
    ensures
        clamp_opacity(opacity_bits) == opacity_bits,
{
}

/// Every opacity, NaN included, is clamped into `0.10..=1.00`.
pub proof fn lemma_clamp_opacity_in_range(opacity_bits: u32)
    ensures
        opacity_in_range(clamp_opacity(opacity_bits)),
{
}

} // verus!
