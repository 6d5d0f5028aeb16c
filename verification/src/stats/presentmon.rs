//! Reading PresentMon's CSV output: locating the process-id and frame-time
//! columns by header name (case-insensitively, to tolerate differences
//! between PresentMon versions) and turning each data row into a sample.

use vstd::prelude::*;
use vstd::string::*;
use crate::text::{
    chars_eq_ignore_ascii_case, chars_of, eq_ignore_ascii_case, parse_u32, parse_u32_spec,
    split_chars, split_on, string_of, string_views, trim, trim_chars, trim_str, views,
};

verus! {

/// The views of a sequence of string slices.
pub open spec fn str_views(v: Seq<&str>) -> Seq<Seq<char>> {
    v.map_values(|x: &str| x@)
}

/// Header names of the per-frame interval, newest PresentMon first.
pub open spec fn frame_time_columns() -> Seq<Seq<char>> {
    seq!["msbetweenpresents"@, "frametime"@, "msbetweendisplaychange"@]
}

/// Header names of the process id.
pub open spec fn pid_columns() -> Seq<Seq<char>> {
    seq!["processid"@, "processid()"@, "pid"@]
}

/// Whether a header equals one of the candidates, ignoring ASCII case.
pub open spec fn matches_any(h: Seq<char>, cands: Seq<Seq<char>>) -> bool {
    exists|j: int| 0 <= j < cands.len() && eq_ignore_ascii_case(h, #[trigger] cands[j])
}

/// Whether `i` is the first header that matches a candidate.
pub open spec fn is_first_match(headers: Seq<Seq<char>>, cands: Seq<Seq<char>>, i: int) -> bool {
    &&& 0 <= i < headers.len()
    &&& matches_any(headers[i], cands)
    &&& forall|k: int| 0 <= k < i ==> !matches_any(#[trigger] headers[k], cands)
}

/// The first header that matches one of the candidates.
pub open spec fn first_match(headers: Seq<Seq<char>>, cands: Seq<Seq<char>>) -> Option<int> {
    if exists|i: int| is_first_match(headers, cands, i) {
        Some(choose|i: int| is_first_match(headers, cands, i))
    } else {
        None
    }
}

proof fn lemma_first_match_unique(headers: Seq<Seq<char>>, cands: Seq<Seq<char>>, i: int)
    requires
        is_first_match(headers, cands, i),
    ensures
        first_match(headers, cands) == Some(i),
{
    let j = choose|j: int| is_first_match(headers, cands, j);
    assert(is_first_match(headers, cands, j));
    if j < i {
        assert(!matches_any(headers[j], cands));
    }
    if i < j {
        assert(!matches_any(headers[i], cands));
    }
}

proof fn lemma_first_match_none(headers: Seq<Seq<char>>, cands: Seq<Seq<char>>)
    requires
        forall|k: int| 0 <= k < headers.len() ==> !matches_any(#[trigger] headers[k], cands),
    ensures
        first_match(headers, cands) is None,
{
    if exists|i: int| is_first_match(headers, cands, i) {
        let i = choose|i: int| is_first_match(headers, cands, i);
        assert(!matches_any(headers[i], cands));
    }
}

/// Whether a header names the per-frame interval in some PresentMon version.
pub open spec fn is_frame_time_header(h: Seq<char>) -> bool {
    eq_ignore_ascii_case(h, "msbetweenpresents"@) || eq_ignore_ascii_case(h, "frametime"@)
        || eq_ignore_ascii_case(h, "msbetweendisplaychange"@)
}

/// Whether a header names the process id in some PresentMon version.
pub open spec fn is_pid_header(h: Seq<char>) -> bool {
    eq_ignore_ascii_case(h, "processid"@) || eq_ignore_ascii_case(h, "processid()"@)
        || eq_ignore_ascii_case(h, "pid"@)
}

/// The header step's frame-time column is the first header equal, ignoring
/// ASCII case, to "MsBetweenPresents" (PresentMon 1.x), "FrameTime"
/// (PresentMon 2.x) or "MsBetweenDisplayChange"; its process-id column is the
/// first equal to "ProcessID", "ProcessID()" or "PID". When no header names
/// one of them, there is no such column.
pub proof fn lemma_header_columns(headers: Seq<Seq<char>>)
    ensures
        forall|i: int|
            0 <= i < headers.len() && is_frame_time_header(headers[i]) && (forall|k: int|
                0 <= k < i ==> !is_frame_time_header(#[trigger] headers[k]))
                ==> #[trigger] first_match(headers, frame_time_columns()) == Some(i),
        (forall|k: int| 0 <= k < headers.len() ==> !is_frame_time_header(#[trigger] headers[k]))
            ==> first_match(headers, frame_time_columns()) is None,
        forall|i: int|
            0 <= i < headers.len() && is_pid_header(headers[i]) && (forall|k: int|
                0 <= k < i ==> !is_pid_header(#[trigger] headers[k]))
                ==> #[trigger] first_match(headers, pid_columns()) == Some(i),
        (forall|k: int| 0 <= k < headers.len() ==> !is_pid_header(#[trigger] headers[k]))
            ==> first_match(headers, pid_columns()) is None,
{
    let ft = frame_time_columns();
    let pc = pid_columns();
    assert forall|h: Seq<char>| matches_any(h, ft) <==> is_frame_time_header(h) by {
        if is_frame_time_header(h) {
            if eq_ignore_ascii_case(h, "msbetweenpresents"@) {
                assert(eq_ignore_ascii_case(h, ft[0]));
            } else if eq_ignore_ascii_case(h, "frametime"@) {
                assert(eq_ignore_ascii_case(h, ft[1]));
            } else {
                assert(eq_ignore_ascii_case(h, ft[2]));
            }
        }
    }
    assert forall|h: Seq<char>| matches_any(h, pc) <==> is_pid_header(h) by {
        if is_pid_header(h) {
            if eq_ignore_ascii_case(h, "processid"@) {
                assert(eq_ignore_ascii_case(h, pc[0]));
            } else if eq_ignore_ascii_case(h, "processid()"@) {
                assert(eq_ignore_ascii_case(h, pc[1]));
            } else {
                assert(eq_ignore_ascii_case(h, pc[2]));
            }
        }
    }
    assert forall|i: int|
        0 <= i < headers.len() && is_frame_time_header(headers[i]) && (forall|k: int|
            0 <= k < i ==> !is_frame_time_header(#[trigger] headers[k]))
            implies #[trigger] first_match(headers, frame_time_columns()) == Some(i) by {
        lemma_first_match_unique(headers, ft, i);
    }
    if forall|k: int| 0 <= k < headers.len() ==> !is_frame_time_header(#[trigger] headers[k]) {
        lemma_first_match_none(headers, ft);
    }
    assert forall|i: int|
        0 <= i < headers.len() && is_pid_header(headers[i]) && (forall|k: int|
            0 <= k < i ==> !is_pid_header(#[trigger] headers[k]))
            implies #[trigger] first_match(headers, pid_columns()) == Some(i) by {
        lemma_first_match_unique(headers, pc, i);
    }
    if forall|k: int| 0 <= k < headers.len() ==> !is_pid_header(#[trigger] headers[k]) {
        lemma_first_match_none(headers, pc);
    }
}

/// The index of the first header that equals one of the candidates, ignoring
/// ASCII case.
pub fn find_column(headers: &[String], candidates: &[&str]) -> (r: Option<usize>)
    ensures
        r matches Some(i) ==> first_match(string_views(headers@), str_views(candidates@)) == Some(
            i as int,
        ),
        r is None ==> first_match(string_views(headers@), str_views(candidates@)) is None,
{
    let ghost hs = string_views(headers@);
    let ghost cs = str_views(candidates@);
    let mut i: usize = 0;
    while i < headers.len()
        invariant
            i <= headers@.len(),
            hs == string_views(headers@),
            cs == str_views(candidates@),
            forall|k: int| 0 <= k < i ==> !matches_any(#[trigger] hs[k], cs),
        decreases headers@.len() - i,
    {
        let h = chars_of(headers[i].as_str());
        let mut j: usize = 0;
        let mut found = false;
        while j < candidates.len()
            invariant
                i < headers@.len(),
                j <= candidates@.len(),
                hs == string_views(headers@),
                cs == str_views(candidates@),
                h@ == hs[i as int],
                found == (exists|q: int| 0 <= q < j && eq_ignore_ascii_case(h@, #[trigger] cs[q])),
            decreases candidates@.len() - j,
        {
            let m = chars_eq_ignore_ascii_case(&h, candidates[j]);
            if m {
                assert(eq_ignore_ascii_case(h@, cs[j as int]));
            }
            found = found || m;
            j = j + 1;
        }
        if found {
            proof {
                lemma_first_match_unique(hs, cs, i as int);
            }
            return Some(i);
        }
        i = i + 1;
    }
    proof {
        lemma_first_match_none(hs, cs);
    }
    None
}

/// The header cells of a CSV line: split at commas, each trimmed.
pub open spec fn header_cells(line: Seq<char>) -> Seq<Seq<char>> {
    split_on(line, ',').map_values(|c: Seq<char>| trim(c))
}

/// The header cells of a CSV line: split at commas, each trimmed.
pub fn parse_header(line: &str) -> (r: Vec<String>)
    ensures
        string_views(r@) == header_cells(line@),
{
    let chars = chars_of(line);
    let parts = split_chars(&chars, ',');
    let ghost cells = header_cells(line@);
    let mut r: Vec<String> = Vec::new();
    let mut i: usize = 0;
    while i < parts.len()
        invariant
            i <= parts@.len(),
            views(parts@) == split_on(line@, ','),
            cells == header_cells(line@),
            string_views(r@) =~= cells.take(i as int),
        decreases parts@.len() - i,
    {
        let t = trim_chars(&parts[i]);
        assert(parts@[i as int]@ == split_on(line@, ',')[i as int]);
        let s = string_of(&t);
        let ghost before = r@;
        r.push(s);
        assert(string_views(r@) =~= string_views(before).push(s@));
        assert(cells[i as int] == trim(split_on(line@, ',')[i as int]));
        assert(cells.take(i + 1) =~= cells.take(i as int).push(cells[i as int]));
        i = i + 1;
    }
    assert(cells.take(parts@.len() as int) =~= cells);
    r
}

/// The process id and the frame-time text of a data row, when the row has
/// both columns and the process id is a number.
pub open spec fn sample_spec(line: Seq<char>, pid_column: nat, frame_time_column: nat) -> Option<
    (u32, Seq<char>),
> {
    let cols = split_on(line, ',');
    if cols.len() <= pid_column || cols.len() <= frame_time_column {
        None
    } else {
        match parse_u32_spec(trim(cols[pid_column as int])) {
            Some(pid) => Some((pid, trim(cols[frame_time_column as int]))),
            None => None,
        }
    }
}

/// What a line of PresentMon output means to the reader.
#[derive(Debug, Clone)]
pub enum ParserStep {
    /// Nothing to do: a blank line, or a row without a usable process id.
    Skip,
    /// The header was read, and these are the process-id and frame-time
    /// columns.
    Columns { pid_column: usize, frame_time_column: usize },
    /// The header lacks one of the two columns; reading stops.
    MissingColumns,
    /// A data row: the process id and the trimmed frame-time text.
    Sample { pid: u32, frame_time: String },
}

/// The state of a reader of PresentMon's output: whether the header has been
/// seen, and how many samples have been recorded since.
pub struct PresentMonParser {
    columns: Option<(usize, usize)>,
    recorded: u32,
}

/// How many recorded samples pass between two prunings of processes that
/// stopped presenting.
pub const PRUNE_EVERY: u32 = 2000;

impl PresentMonParser {
    /// The process-id and frame-time columns, once the header was read.
    pub closed spec fn columns_view(&self) -> Option<(usize, usize)> {
        self.columns
    }

    /// The count of recorded samples, modulo 2^32.
    pub closed spec fn recorded_view(&self) -> u32 {
        self.recorded
    }

    /// A reader that has seen nothing yet.
    pub fn new() -> (r: PresentMonParser)
        ensures
            r.columns_view() is None,
            r.recorded_view() == 0,
    {
        PresentMonParser { columns: None, recorded: 0 }
    }

    /// The process-id and frame-time columns, once the header was read.
    pub fn columns(&self) -> (r: Option<(usize, usize)>)
        ensures
            r == self.columns_view(),
    {
        self.columns
    }

    /// Reads one line. Blank lines are skipped. The first other line is the
    /// header; later lines are data rows.
    pub fn on_line(&mut self, line: &str) -> (r: ParserStep)
        ensures
            final(self).recorded_view() == old(self).recorded_view(),
            trim(line@).len() == 0 ==> r is Skip && final(self).columns_view() == old(
                self,
            ).columns_view(),
            trim(line@).len() > 0 && old(self).columns_view() is None ==> {
                let h = header_cells(line@);
                let p = first_match(h, pid_columns());
                let f = first_match(h, frame_time_columns());
                if p is Some && f is Some {
                    &&& (r matches ParserStep::Columns { pid_column, frame_time_column } && pid_column
                        == p->0 && frame_time_column == f->0 && final(self).columns_view() == Some(
                        (pid_column, frame_time_column),
                    ))
                } else {
                    r is MissingColumns && final(self).columns_view() is None
                }
            },
            trim(line@).len() > 0 && old(self).columns_view() is Some ==> {
                let (p, f) = old(self).columns_view()->0;
                &&& final(self).columns_view() == old(self).columns_view()
                &&& match sample_spec(line@, p as nat, f as nat) {
                    Some((pid, ft)) => (r matches ParserStep::Sample { pid: x, frame_time } && x
                        == pid && frame_time@ == ft),
                    None => r is Skip,
                }
            },
    {
        let t = trim_str(line);
        if t.len() == 0 {
            return ParserStep::Skip;
        }
        match self.columns {
            None => {
                let headers = parse_header(line);
                let pid_names: [&str; 3] = ["processid", "processid()", "pid"];
                let ft_names: [&str; 3] = ["msbetweenpresents", "frametime", "msbetweendisplaychange"];
                assert(str_views(pid_names@) =~= pid_columns());
                assert(str_views(ft_names@) =~= frame_time_columns());
                let p = find_column(headers.as_slice(), &pid_names);
                let f = find_column(headers.as_slice(), &ft_names);
                match (p, f) {
                    (Some(p), Some(f)) => {
                        self.columns = Some((p, f));
                        ParserStep::Columns { pid_column: p, frame_time_column: f }
                    },
                    _ => ParserStep::MissingColumns,
                }
            },
            Some((p, f)) => {
                let chars = chars_of(line);
                let cols = split_chars(&chars, ',');
                let ghost cs = split_on(line@, ',');
                if cols.len() <= p || cols.len() <= f {
                    return ParserStep::Skip;
                }
                assert(cols@[p as int]@ == cs[p as int]);
                assert(cols@[f as int]@ == cs[f as int]);
                let pid_text = trim_chars(&cols[p]);
                match parse_u32(&pid_text) {
                    Some(pid) => {
                        let ft = trim_chars(&cols[f]);
                        ParserStep::Sample { pid, frame_time: string_of(&ft) }
                    },
                    None => ParserStep::Skip,
                }
            },
        }
    }

    /// Notes that a sample was recorded; true when processes that stopped
    /// presenting should now be pruned (every 2000 samples).
    pub fn record_sample(&mut self) -> (prune: bool)
        ensures
            final(self).columns_view() == old(self).columns_view(),
            final(self).recorded_view() == (old(self).recorded_view() + 1) % 0x1_0000_0000,
            prune == (final(self).recorded_view() % PRUNE_EVERY == 0),
    {
        self.recorded = if self.recorded == u32::MAX {
            0
        } else {
            self.recorded + 1
        };
        self.recorded % PRUNE_EVERY == 0
    }
}

/// The command line PresentMon is started with: CSV to standard output,
/// taking over any existing session, then the configured extra arguments.
pub fn presentmon_args(extra: &Vec<String>) -> (r: Vec<String>)
    ensures
        string_views(r@) == seq!["--output_stdout"@, "--stop_existing_session"@] + string_views(
            extra@,
        ),
{
    let mut r: Vec<String> = Vec::new();
    r.push(String::from_str("--output_stdout"));
    r.push(String::from_str("--stop_existing_session"));
    let mut i: usize = 0;
    while i < extra.len()
        invariant
            i <= extra@.len(),
            string_views(r@) =~= seq!["--output_stdout"@, "--stop_existing_session"@]
                + string_views(extra@).take(i as int),
        decreases extra@.len() - i,
    {
        let a = extra[i].clone();
        let ghost before = r@;
        r.push(a);
        assert(string_views(r@) =~= string_views(before).push(a@));
        assert(string_views(extra@).take(i + 1) =~= string_views(extra@).take(i as int).push(
            extra@[i as int]@,
        ));
        i = i + 1;
    }
    assert(string_views(extra@).take(extra@.len() as int) =~= string_views(extra@));
    r
}

/// The configured PresentMon path, trimmed, unless it is blank.
pub fn configured_presentmon_path(path: &str) -> (r: Option<String>)
    ensures
        trim(path@).len() == 0 ==> r is None,
        trim(path@).len() > 0 ==> (r matches Some(p) && p@ == trim(path@)),
{
    let t = trim_str(path);
    if t.len() == 0 {
        None
    } else {
        Some(string_of(&t))
    }
}

/// Where PresentMon is started from: the configured path, or one of the
/// bundled names next to the executable, by its index in
/// `bundled_presentmon_names`.
#[derive(Debug, Clone, Copy, PartialEq, Eq, Structural)]
pub enum PresentMonSource {
    Configured,
    Bundled(usize),
}

/// How many bundled names are tried next to the executable.
pub const BUNDLED_PRESENTMON_COUNT: usize = 2;

/// The file names tried next to the executable, in order.
pub open spec fn bundled_presentmon_names() -> Seq<Seq<char>> {
    seq!["PresentMon.exe"@, "presentmon.exe"@]
}

/// The `i`-th file name tried next to the executable.
pub fn bundled_presentmon_name(i: usize) -> (r: &'static str)
    requires
        i < BUNDLED_PRESENTMON_COUNT,
    ensures
        r@ == bundled_presentmon_names()[i as int],
{
    if i == 0 {
        let r = "PresentMon.exe";
        proof {
            reveal_strlit("PresentMon.exe");
        }
        r
    } else {
        let r = "presentmon.exe";
        proof {
            reveal_strlit("presentmon.exe");
        }
        r
    }
}

/// Picks where to start PresentMon from. `configured_exists` is nothing when
/// no path is configured, else whether the configured file exists;
/// `bundled_exists[i]` is whether the `i`-th bundled name exists next to the
/// executable. An existing configured file wins; else the first bundled name
/// that exists; else there is none.
pub fn choose_presentmon(configured_exists: Option<bool>, bundled_exists: &Vec<bool>) -> (r: Option<PresentMonSource>)
    ensures
        configured_exists == Some(true) ==> r == Some(PresentMonSource::Configured),
        configured_exists != Some(true) ==> match r {
            Some(PresentMonSource::Configured) => false,
            Some(PresentMonSource::Bundled(i)) => i < bundled_exists@.len() && bundled_exists@[i as int]
                && forall|j: int| 0 <= j < i ==> !#[trigger] bundled_exists@[j],
            None => forall|j: int| 0 <= j < bundled_exists@.len() ==> !#[trigger] bundled_exists@[j],
        },
{
    if let Some(true) = configured_exists {
        return Some(PresentMonSource::Configured);
    }
    let mut i: usize = 0;
    while i < bundled_exists.len()
        invariant
            configured_exists != Some(true),
            i <= bundled_exists@.len(),
            forall|j: int| 0 <= j < i ==> !#[trigger] bundled_exists@[j],
        decreases bundled_exists@.len() - i,
    {
        if bundled_exists[i] {
            return Some(PresentMonSource::Bundled(i));
        }
        i = i + 1;
    }
    None
}

} // verus!
