//! What the overlay shows: which rows, with which text and colour, for the
//! enabled stats and the latest values.
//!
//! The floating-point values arrive already formatted ("144", "6.9 ms",
//! "23%"); the memory row, whose inputs are whole megabytes, is formatted
//! here ("12.5 / 32.0 GB"). This module decides which rows appear and how
//! they read.

use vstd::prelude::*;
use vstd::string::*;
use crate::config::Stats;
use crate::text::{append_str, decimal, digit_char, pad_right, push_decimal, string_of};

verus! {

/// `mb` megabytes as tenths of a gigabyte (1024 megabytes), rounded to the
/// nearest tenth, a tie going to the even tenth.
pub open spec fn gb_tenths(mb: nat) -> nat {
    let q = (mb * 10) / 1024;
    let r = (mb * 10) % 1024;
    if r > 512 || (r == 512 && q % 2 == 1) {
        q + 1
    } else {
        q
    }
}

/// `mb` megabytes in gigabytes with one decimal, such as `12.5`.
pub open spec fn gb_text(mb: nat) -> Seq<char> {
    let t = gb_tenths(mb);
    decimal(t / 10) + seq!['.', digit_char(t % 10)]
}

/// The memory row's value: used and total memory in gigabytes, such as
/// `12.5 / 32.0 GB`.
pub open spec fn ram_text_spec(used_mb: nat, total_mb: nat) -> Seq<char> {
    gb_text(used_mb) + " / "@ + gb_text(total_mb) + " GB"@
}

fn push_gb(out: &mut Vec<char>, mb: u64)
    ensures
        final(out)@ == old(out)@ + gb_text(mb as nat),
{
    let x: u128 = (mb as u128) * 10;
    let q: u128 = x / 1024;
    let r: u128 = x % 1024;
    let t: u128 = if r > 512 || (r == 512 && q % 2 == 1) {
        q + 1
    } else {
        q
    };
    assert(t == gb_tenths(mb as nat));
    assert(t < 0x1_0000_0000_0000_0000);
    let ghost start = out@;
    push_decimal(out, (t / 10) as u64);
    out.push('.');
    let d = (t % 10) as u8;
    out.push((0x30u8 + d) as char);
    assert(out@ =~= start + (decimal((t / 10) as nat) + seq!['.', digit_char((t % 10) as nat)]));
}

/// The memory row's value for `used_mb` of `total_mb` megabytes.
pub fn ram_text(used_mb: u64, total_mb: u64) -> (r: String)
    ensures
        r@ == ram_text_spec(used_mb as nat, total_mb as nat),
{
    let mut out: Vec<char> = Vec::new();
    push_gb(&mut out, used_mb);
    append_str(&mut out, " / ");
    push_gb(&mut out, total_mb);
    append_str(&mut out, " GB");
    proof {
        reveal_strlit(" / ");
        reveal_strlit(" GB");
    }
    assert(out@ =~= ram_text_spec(used_mb as nat, total_mb as nat));
    string_of(&out)
}

/// The colour class of a row.
#[derive(Debug, Clone, Copy, PartialEq, Eq, Structural)]
pub enum LineKind {
    Fps,
    Low,
    Normal,
}

/// One overlay row: its text and colour class.
#[derive(Debug, Clone)]
pub struct Line {
    pub text: String,
    pub kind: LineKind,
}

/// The formatted latest values; nothing means "not available".
#[derive(Debug, Clone)]
pub struct StatValues {
    pub fps: Option<String>,
    pub low_1_percent: Option<String>,
    pub frame_time: Option<String>,
    pub cpu: Option<String>,
    pub gpu: Option<String>,
    /// Used and total memory; present only when both are known.
    pub ram: Option<String>,
}

/// RGB colour of a row kind.
pub open spec fn color_spec(kind: LineKind) -> (u8, u8, u8) {
    match kind {
        LineKind::Fps => (120, 230, 130),
        LineKind::Low => (230, 200, 120),
        LineKind::Normal => (225, 228, 235),
    }
}

/// RGB colour of a row kind.
pub fn color_for(kind: LineKind) -> (r: (u8, u8, u8))
    ensures
        r == color_spec(kind),
{
    match kind {
        LineKind::Fps => (120, 230, 130),
        LineKind::Low => (230, 200, 120),
        LineKind::Normal => (225, 228, 235),
    }
}

/// RGB colour of the row labels.
pub const LABEL_COLOR: (u8, u8, u8) = (150, 155, 165);

/// The width, in characters, of the label column.
pub const LABEL_WIDTH: usize = 8;

/// The text of a row: the label padded with spaces to the label column's
/// width, then the value.
pub open spec fn row_text(label: Seq<char>, value: Seq<char>) -> Seq<char> {
    pad_right(label, LABEL_WIDTH as nat, ' ') + value
}

/// A row with the label padded to the label column's width.
pub fn row(label: &str, value: String, kind: LineKind) -> (r: Line)
    ensures
        r.text@ == row_text(label@, value@),
        r.kind == kind,
{
    let mut out: Vec<char> = Vec::new();
    append_str(&mut out, label);
    let n = out.len();
    let mut k: usize = n;
    while k < LABEL_WIDTH
        invariant
            n <= k,
            n == label@.len(),
            k <= LABEL_WIDTH || k == n,
            out@ =~= label@ + Seq::new((k - n) as nat, |i: int| ' '),
        decreases LABEL_WIDTH - k,
    {
        out.push(' ');
        k = k + 1;
    }
    append_str(&mut out, value.as_str());
    Line { text: string_of(&out), kind }
}

/// A row as label, value and kind.
pub type RowSpec = (Seq<char>, Seq<char>, LineKind);

/// A row when it is enabled and its value known.
pub open spec fn value_row(enabled: bool, label: Seq<char>, value: Option<Seq<char>>) -> Seq<RowSpec> {
    match value {
        Some(v) => if enabled {
            seq![(label, v, LineKind::Normal)]
        } else {
            Seq::empty()
        },
        None => Seq::empty(),
    }
}

/// The FPS row: the value, or a notice when PresentMon is unavailable, or a
/// dash while no value is known.
pub open spec fn fps_rows(enabled: bool, fps: Option<Seq<char>>, fps_available: bool) -> Seq<RowSpec> {
    if !enabled {
        Seq::empty()
    } else {
        match fps {
            Some(v) => seq![("FPS"@, v, LineKind::Fps)],
            None => if !fps_available {
                seq![("FPS"@, "n/a (PresentMon)"@, LineKind::Normal)]
            } else {
                seq![("FPS"@, "—"@, LineKind::Fps)]
            },
        }
    }
}

/// A row derived from FPS telemetry: the value, a dash while no value is
/// known, and nothing at all when PresentMon is unavailable.
pub open spec fn telemetry_row(
    enabled: bool,
    label: Seq<char>,
    value: Option<Seq<char>>,
    kind: LineKind,
    fps_available: bool,
) -> Seq<RowSpec> {
    if !enabled {
        Seq::empty()
    } else {
        match value {
            Some(v) => seq![(label, v, kind)],
            None => if fps_available {
                seq![(label, "—"@, kind)]
            } else {
                Seq::empty()
            },
        }
    }
}

/// The view of an optional string.
pub open spec fn opt_view(s: Option<String>) -> Option<Seq<char>> {
    match s {
        Some(v) => Some(v@),
        None => None,
    }
}

/// The rows shown for the enabled stats and the available values, in order:
/// FPS, 1% low, frame time, CPU, GPU, RAM.
pub open spec fn rows_for(stats: Stats, values: StatValues, fps_available: bool) -> Seq<RowSpec> {
    fps_rows(stats.fps, opt_view(values.fps), fps_available) + telemetry_row(
        stats.low_1_percent,
        "1% low"@,
        opt_view(values.low_1_percent),
        LineKind::Low,
        fps_available,
    ) + telemetry_row(
        stats.frame_time,
        "Frame"@,
        opt_view(values.frame_time),
        LineKind::Normal,
        fps_available,
    ) + value_row(stats.cpu, "CPU"@, opt_view(values.cpu)) + value_row(
        stats.gpu,
        "GPU"@,
        opt_view(values.gpu),
    ) + value_row(stats.ram, "RAM"@, opt_view(values.ram))
}

/// The text and kind of each line.
pub open spec fn line_views(lines: Seq<Line>) -> Seq<(Seq<char>, LineKind)> {
    lines.map_values(|l: Line| (l.text@, l.kind))
}

/// The text and kind of each row.
pub open spec fn row_views(rows: Seq<RowSpec>) -> Seq<(Seq<char>, LineKind)> {
    rows.map_values(|r: RowSpec| (row_text(r.0, r.1), r.2))
}

fn push_rows(lines: &mut Vec<Line>, label: &str, value: Option<String>, kind: LineKind)
    ensures
        line_views(final(lines)@) == line_views(old(lines)@) + row_views(
            segment(label@, opt_view(value), kind),
        ),
{
    let ghost before = lines@;
    match value {
        Some(v) => {
            let ghost vv = v@;
            let l = row(label, v, kind);
            lines.push(l);
            assert(line_views(lines@) =~= line_views(before).push((row_text(label@, vv), kind)));
            assert(row_views(seq![(label@, vv, kind)]) =~= seq![(row_text(label@, vv), kind)]);
        },
        None => {
            assert(line_views(lines@) =~= line_views(before) + row_views(Seq::<RowSpec>::empty()));
        },
    }
}

fn cloned(s: &Option<String>) -> (r: Option<String>)
    ensures
        opt_view(r) == opt_view(*s),
{
    match s {
        Some(v) => Some(v.clone()),
        None => None,
    }
}

proof fn lemma_row_views_add(a: Seq<RowSpec>, b: Seq<RowSpec>)
    ensures
        row_views(a + b) == row_views(a) + row_views(b),
{
    assert(row_views(a + b) =~= row_views(a) + row_views(b));
}

/// The rows of one segment, as `push_rows` takes them.
pub open spec fn segment(label: Seq<char>, value: Option<Seq<char>>, kind: LineKind) -> Seq<RowSpec> {
    match value {
        Some(v) => seq![(label, v, kind)],
        None => Seq::empty(),
    }
}

/// Builds the visible overlay lines from the enabled stats and the latest
/// values. `fps_available` tells whether PresentMon is running.
pub fn build_lines(stats: &Stats, values: &StatValues, fps_available: bool) -> (r: Vec<Line>)
    ensures
        line_views(r@) == row_views(rows_for(*stats, *values, fps_available)),
{
    let mut lines: Vec<Line> = Vec::new();
    let fps: Option<String> = if !stats.fps {
        None
    } else {
        match &values.fps {
            Some(v) => Some(v.clone()),
            None => if !fps_available {
                Some(String::from_str("n/a (PresentMon)"))
            } else {
                Some(String::from_str("—"))
            },
        }
    };
    let fps_kind = if values.fps.is_none() && !fps_available {
        LineKind::Normal
    } else {
        LineKind::Fps
    };
    let ghost s1 = fps_rows(stats.fps, opt_view(values.fps), fps_available);
    assert(segment("FPS"@, opt_view(fps), fps_kind) =~= s1);
    assert(line_views(lines@) =~= Seq::empty());
    push_rows(&mut lines, "FPS", fps, fps_kind);
    assert(line_views(lines@) =~= row_views(s1));
    let low: Option<String> = if !stats.low_1_percent {
        None
    } else {
        match &values.low_1_percent {
            Some(v) => Some(v.clone()),
            None => if fps_available {
                Some(String::from_str("—"))
            } else {
                None
            },
        }
    };
    let ghost s2 = telemetry_row(
        stats.low_1_percent,
        "1% low"@,
        opt_view(values.low_1_percent),
        LineKind::Low,
        fps_available,
    );
    assert(segment("1% low"@, opt_view(low), LineKind::Low) =~= s2);
    push_rows(&mut lines, "1% low", low, LineKind::Low);
    proof {
        lemma_row_views_add(s1, s2);
    }
    let frame: Option<String> = if !stats.frame_time {
        None
    } else {
        match &values.frame_time {
            Some(v) => Some(v.clone()),
            None => if fps_available {
                Some(String::from_str("—"))
            } else {
                None
            },
        }
    };
    let ghost s3 = telemetry_row(
        stats.frame_time,
        "Frame"@,
        opt_view(values.frame_time),
        LineKind::Normal,
        fps_available,
    );
    assert(segment("Frame"@, opt_view(frame), LineKind::Normal) =~= s3);
    push_rows(&mut lines, "Frame", frame, LineKind::Normal);
    proof {
        lemma_row_views_add(s1 + s2, s3);
    }
    let cpu = if stats.cpu {
        cloned(&values.cpu)
    } else {
        None
    };
    let ghost s4 = value_row(stats.cpu, "CPU"@, opt_view(values.cpu));
    assert(segment("CPU"@, opt_view(cpu), LineKind::Normal) =~= s4);
    push_rows(&mut lines, "CPU", cpu, LineKind::Normal);
    proof {
        lemma_row_views_add(s1 + s2 + s3, s4);
    }
    let gpu = if stats.gpu {
        cloned(&values.gpu)
    } else {
        None
    };
    let ghost s5 = value_row(stats.gpu, "GPU"@, opt_view(values.gpu));
    assert(segment("GPU"@, opt_view(gpu), LineKind::Normal) =~= s5);
    push_rows(&mut lines, "GPU", gpu, LineKind::Normal);
    proof {
        lemma_row_views_add(s1 + s2 + s3 + s4, s5);
    }
    let ram = if stats.ram {
        cloned(&values.ram)
    } else {
        None
    };
    let ghost s6 = value_row(stats.ram, "RAM"@, opt_view(values.ram));
    assert(segment("RAM"@, opt_view(ram), LineKind::Normal) =~= s6);
    push_rows(&mut lines, "RAM", ram, LineKind::Normal);
    proof {
        lemma_row_views_add(s1 + s2 + s3 + s4 + s5, s6);
    }
    lines
}

/// Whether some row has the label.
pub open spec fn has_label(rows: Seq<RowSpec>, label: Seq<char>) -> bool {
    exists|i: int| 0 <= i < rows.len() && (#[trigger] rows[i]).0 == label
}

proof fn lemma_has_label_add(a: Seq<RowSpec>, b: Seq<RowSpec>, label: Seq<char>)
    ensures
        has_label(a + b, label) == (has_label(a, label) || has_label(b, label)),
{
    if has_label(a + b, label) {
        let i = choose|i: int| 0 <= i < (a + b).len() && (#[trigger] (a + b)[i]).0 == label;
        if i < a.len() {
            assert(a[i] == (a + b)[i]);
        } else {
            assert(b[i - a.len()] == (a + b)[i]);
        }
    }
    if has_label(a, label) {
        let i = choose|i: int| 0 <= i < a.len() && (#[trigger] a[i]).0 == label;
        assert((a + b)[i] == a[i]);
    }
    if has_label(b, label) {
        let i = choose|i: int| 0 <= i < b.len() && (#[trigger] b[i]).0 == label;
        assert((a + b)[a.len() + i] == b[i]);
    }
}

proof fn lemma_has_label_rows(stats: Stats, values: StatValues, fps_available: bool, label: Seq<char>)
    ensures
        has_label(rows_for(stats, values, fps_available), label) == (has_label(
            fps_rows(stats.fps, opt_view(values.fps), fps_available),
            label,
        ) || has_label(
            telemetry_row(
                stats.low_1_percent,
                "1% low"@,
                opt_view(values.low_1_percent),
                LineKind::Low,
                fps_available,
            ),
            label,
        ) || has_label(
            telemetry_row(
                stats.frame_time,
                "Frame"@,
                opt_view(values.frame_time),
                LineKind::Normal,
                fps_available,
            ),
            label,
        ) || has_label(value_row(stats.cpu, "CPU"@, opt_view(values.cpu)), label) || has_label(
            value_row(stats.gpu, "GPU"@, opt_view(values.gpu)),
            label,
        ) || has_label(value_row(stats.ram, "RAM"@, opt_view(values.ram)), label)),
{
    let s1 = fps_rows(stats.fps, opt_view(values.fps), fps_available);
    let s2 = telemetry_row(
        stats.low_1_percent,
        "1% low"@,
        opt_view(values.low_1_percent),
        LineKind::Low,
        fps_available,
    );
    let s3 = telemetry_row(
        stats.frame_time,
        "Frame"@,
        opt_view(values.frame_time),
        LineKind::Normal,
        fps_available,
    );
    let s4 = value_row(stats.cpu, "CPU"@, opt_view(values.cpu));
    let s5 = value_row(stats.gpu, "GPU"@, opt_view(values.gpu));
    let s6 = value_row(stats.ram, "RAM"@, opt_view(values.ram));
    lemma_has_label_add(s1, s2, label);
    lemma_has_label_add(s1 + s2, s3, label);
    lemma_has_label_add(s1 + s2 + s3, s4, label);
    lemma_has_label_add(s1 + s2 + s3 + s4, s5, label);
    lemma_has_label_add(s1 + s2 + s3 + s4 + s5, s6, label);
}

/// When FPS telemetry is unavailable, the rows derived from it (1% low and
/// frame time) that have no value are omitted rather than shown as unknown;
/// and a GPU whose utilization is unknown has no row.
pub proof fn lemma_unavailable_rows_hidden(stats: Stats, values: StatValues, fps_available: bool)
    ensures
        !fps_available && values.low_1_percent is None ==> !has_label(
            rows_for(stats, values, fps_available),
            "1% low"@,
        ),
        !fps_available && values.frame_time is None ==> !has_label(
            rows_for(stats, values, fps_available),
            "Frame"@,
        ),
        values.gpu is None ==> !has_label(rows_for(stats, values, fps_available), "GPU"@),
{
    reveal_strlit("1% low");
    reveal_strlit("Frame");
    reveal_strlit("GPU");
    reveal_strlit("FPS");
    reveal_strlit("CPU");
    reveal_strlit("RAM");
    lemma_has_label_rows(stats, values, fps_available, "1% low"@);
    lemma_has_label_rows(stats, values, fps_available, "Frame"@);
    lemma_has_label_rows(stats, values, fps_available, "GPU"@);
    assert("FPS"@.len() == 3 && "1% low"@.len() == 6 && "Frame"@.len() == 5);
    assert("GPU"@[0] == 'G' && "CPU"@[0] == 'C' && "RAM"@[0] == 'R' && "FPS"@[0] == 'F');
    assert("GPU"@.len() == 3);
    let e = Seq::<RowSpec>::empty();
    assert(!has_label(e, "1% low"@));
    assert(!has_label(e, "Frame"@));
    assert(!has_label(e, "GPU"@));
    let s1 = fps_rows(stats.fps, opt_view(values.fps), fps_available);
    assert(forall|i: int| 0 <= i < s1.len() ==> (#[trigger] s1[i]).0 == "FPS"@);
    let s2 = telemetry_row(
        stats.low_1_percent,
        "1% low"@,
        opt_view(values.low_1_percent),
        LineKind::Low,
        fps_available,
    );
    assert(forall|i: int| 0 <= i < s2.len() ==> (#[trigger] s2[i]).0 == "1% low"@);
    assert(!fps_available && values.low_1_percent is None ==> s2.len() == 0);
    let s3 = telemetry_row(
        stats.frame_time,
        "Frame"@,
        opt_view(values.frame_time),
        LineKind::Normal,
        fps_available,
    );
    assert(forall|i: int| 0 <= i < s3.len() ==> (#[trigger] s3[i]).0 == "Frame"@);
    assert(!fps_available && values.frame_time is None ==> s3.len() == 0);
    let s4 = value_row(stats.cpu, "CPU"@, opt_view(values.cpu));
    assert(forall|i: int| 0 <= i < s4.len() ==> (#[trigger] s4[i]).0 == "CPU"@);
    let s5 = value_row(stats.gpu, "GPU"@, opt_view(values.gpu));
    assert(forall|i: int| 0 <= i < s5.len() ==> (#[trigger] s5[i]).0 == "GPU"@);
    assert(values.gpu is None ==> s5.len() == 0);
    let s6 = value_row(stats.ram, "RAM"@, opt_view(values.ram));
    assert(forall|i: int| 0 <= i < s6.len() ==> (#[trigger] s6[i]).0 == "RAM"@);
}

} // verus!
