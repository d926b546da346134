//! What the listing commands show: the rows of search results, contests,
//! training sets, rankings and records, with their truncated names,
//! formatted times and colors. The front end prints them.

use crate::labels::{
    difficulty_color_of, difficulty_name, language_text, method_text, problem_type_letter,
    search_difficulty_label, status_color, status_name, status_text, type_letter, user_color,
    user_style, difficulty_color, language_name, method_name, TermColor,
};
use crate::models::{
    EloRating, RecordDetails, Tag, UserSearchResult, ContestSummary, EloRatingDetails, GuRatingDetails, LegacyProblemWithStatus, ProblemSet,
    RecordBase,
};
use crate::problem::opt_string_view;
use crate::requests::{regex_replace_all, replace_matches};
use crate::text::{
    contains, lines, lines_of, str_contains, str_eq, to_lowercase, unicode_lower,
    chars_of, dec_int, int_chars, push_all, push_str, string_of, take_with_ellipsis,
    take_with_ellipsis_exec, starts_with, occurs_at_exec,
};
use vstd::prelude::*;
use vstd::utf8::encode_utf8;

verus! {

// ── Times ───────────────────────────────────────────────────────────

/// The formats the commands show times in.
pub open spec fn is_time_format(fmt: Seq<char>) -> bool {
    ||| fmt == "%Y-%m-%d %H:%M"@
    ||| fmt == "%m-%d %H:%M"@
    ||| fmt == "%Y-%m-%d %H:%M:%S"@
    ||| fmt == "%Y-%m-%d"@
}

/// What `chrono` writes for the UTC time `secs` seconds after the Unix
/// epoch in format `fmt`; `None` when `secs` is out of `chrono`'s range.
pub uninterp spec fn utc_text(secs: i64, fmt: Seq<char>) -> Option<Seq<char>>;

/// `chrono::DateTime::from_timestamp(secs, 0)`, then `format(fmt)` written out.
/// Trusted: the result is `utc_text(secs, fmt)`. Only the formats the
/// commands use are passed, all of which `chrono` accepts.
#[verifier::external_body]
pub(crate) fn format_utc(secs: i64, fmt: &str) -> (r: Option<String>)
    requires
        is_time_format(fmt@),
    ensures
        opt_string_view(r) == utc_text(secs, fmt@),
{
    match chrono::DateTime::from_timestamp(secs, 0) {
        Some(t) => Some(t.format(fmt).to_string()),
        None => None,
    }
}

pub open spec fn time_or(secs: i64, fmt: Seq<char>, fallback: Seq<char>) -> Seq<char> {
    match utc_text(secs, fmt) {
        Some(t) => t,
        None => fallback,
    }
}

/// A timestamp in `fmt`, or `fallback` when it is out of range.
pub fn timestamp_text(secs: i64, fmt: &str, fallback: &str) -> (r: String)
    requires
        is_time_format(fmt@),
    ensures
        r@ == time_or(secs, fmt@, fallback@),
{
    match format_utc(secs, fmt) {
        Some(t) => t,
        None => String::from_str(fallback),
    }
}

// ── Names ───────────────────────────────────────────────────────────

/// The length of `s` in UTF-8 bytes, `str::len`.
pub open spec fn byte_len(s: Seq<char>) -> nat {
    encode_utf8(s).len()
}

/// A name longer than `max_bytes` UTF-8 bytes is shown as its first
/// `keep` characters and `"..."`.
pub open spec fn shorten_bytes(s: Seq<char>, max_bytes: nat, keep: nat) -> Seq<char> {
    if byte_len(s) > max_bytes {
        take_with_ellipsis(s, keep)
    } else {
        s
    }
}

/// A title longer than `max_chars` characters is shown as its first
/// `keep` characters and `"..."`.
pub open spec fn shorten_chars(s: Seq<char>, max_chars: nat, keep: nat) -> Seq<char> {
    if s.len() > max_chars {
        take_with_ellipsis(s, keep)
    } else {
        s
    }
}

pub fn shorten_by_bytes(s: &str, max_bytes: usize, keep: usize) -> (r: String)
    ensures
        r@ == shorten_bytes(s@, max_bytes as nat, keep as nat),
{
    let bytes = s.as_bytes();
    if bytes.len() > max_bytes {
        let cs = chars_of(s);
        let t = take_with_ellipsis_exec(cs.as_slice(), keep);
        string_of(t.as_slice())
    } else {
        String::from_str(s)
    }
}

pub fn shorten_by_chars(s: &str, max_chars: usize, keep: usize) -> (r: String)
    ensures
        r@ == shorten_chars(s@, max_chars as nat, keep as nat),
{
    let cs = chars_of(s);
    if cs.len() > max_chars {
        let t = take_with_ellipsis_exec(cs.as_slice(), keep);
        string_of(t.as_slice())
    } else {
        String::from_str(s)
    }
}

// ── Paging ──────────────────────────────────────────────────────────

/// Whether a listing of `count` items has pages after `page` (20 per page).
pub fn has_more_pages(count: i64, page: i64) -> (r: bool)
    requires
        i64::MIN <= page * 20 <= i64::MAX,
    ensures
        r == (count > page * 20),
{
    count > page * 20
}

/// The position of entry `i` (from 0) of page `page` (from 1) in a
/// listing of 20 entries per page.
pub open spec fn position(page: i64, i: int) -> int {
    (page - 1) * 20 + i + 1
}

pub open spec fn position_in_range(page: i64, i: int) -> bool {
    &&& i64::MIN <= page - 1
    &&& i64::MIN <= (page - 1) * 20 <= i64::MAX
    &&& 0 <= i <= i64::MAX
    &&& (page - 1) * 20 + i + 1 <= i64::MAX
    &&& (page - 1) * 20 + i <= i64::MAX
}

pub fn position_of(page: i64, i: usize) -> (r: i64)
    requires
        position_in_range(page, i as int),
    ensures
        r == position(page, i as int),
{
    let base = (page - 1) * 20;
    base + (i as i64) + 1
}

// ── Search results ──────────────────────────────────────────────────

/// A row of problem search results.
pub struct SearchRow {
    pub title: String,
    pub difficulty: String,
    pub difficulty_color: TermColor,
    pub submits: i64,
    pub accepted: i64,
    pub type_letter: &'static str,
}

pub fn search_row(p: &LegacyProblemWithStatus) -> (r: SearchRow)
    ensures
        r.title@ == shorten_chars(p.title@, 27, 24),
        r.difficulty@ == (match p.difficulty {
            Some(l) => difficulty_name(l as int),
            None => "未知"@,
        }),
        r.difficulty_color == difficulty_color_of(r.difficulty@),
        r.submits == (match p.totalSubmit {
            Some(n) => n,
            None => 0,
        }),
        r.accepted == (match p.totalAccepted {
            Some(n) => n,
            None => 0,
        }),
        r.type_letter@ == type_letter(p.flag),
{
    let label = search_difficulty_label(p.difficulty);
    let color = difficulty_color(label.as_str());
    SearchRow {
        title: shorten_by_chars(p.title.as_str(), 27, 24),
        difficulty: label,
        difficulty_color: color,
        submits: match p.totalSubmit {
            Some(n) => n,
            None => 0,
        },
        accepted: match p.totalAccepted {
            Some(n) => n,
            None => 0,
        },
        type_letter: problem_type_letter(p.flag),
    }
}

// ── Contests and training sets ──────────────────────────────────────

/// A row of the contest listing.
pub struct ContestRow {
    pub name: String,
    pub start: String,
    pub end: String,
    pub method: &'static str,
}

pub fn contest_row(c: &ContestSummary) -> (r: ContestRow)
    ensures
        r.name@ == shorten_bytes(c.name@, 32, 29),
        r.start@ == time_or(c.startTime, "%m-%d %H:%M"@, "?"@),
        r.end@ == time_or(c.endTime, "%m-%d %H:%M"@, "?"@),
        r.method@ == method_text(c.method as int),
{
    ContestRow {
        name: shorten_by_bytes(c.name.as_str(), 32, 29),
        start: timestamp_text(c.startTime, "%m-%d %H:%M", "?"),
        end: timestamp_text(c.endTime, "%m-%d %H:%M", "?"),
        method: method_name(c.method),
    }
}

/// The start and end of a contest as shown on its page.
pub fn contest_period(start: i64, end: i64) -> (r: (String, String))
    ensures
        r.0@ == time_or(start, "%Y-%m-%d %H:%M"@, "unknown"@),
        r.1@ == time_or(end, "%Y-%m-%d %H:%M"@, "unknown"@),
{
    (
        timestamp_text(start, "%Y-%m-%d %H:%M", "unknown"),
        timestamp_text(end, "%Y-%m-%d %H:%M", "unknown"),
    )
}

/// The name shown for a training set in the listing.
pub fn training_row_name(t: &ProblemSet) -> (r: String)
    ensures
        r@ == shorten_bytes(t.name@, 37, 34),
{
    shorten_by_bytes(t.name.as_str(), 37, 34)
}

// ── Rankings ────────────────────────────────────────────────────────

/// A row of a ranking table.
pub struct RankRow {
    pub rank: i64,
    pub name: String,
    pub name_color: TermColor,
    /// The rating change, `+d` or `-d`; `N/A` when unknown.
    pub change: String,
    pub change_color: TermColor,
}

/// A rating change as shown: `+d` for a gain or no change, `-d` for a loss.
pub open spec fn signed_change(d: i64) -> Seq<char> {
    if d >= 0 {
        "+"@ + dec_int(d as int)
    } else {
        dec_int(d as int)
    }
}

pub fn signed_change_text(d: i64) -> (r: String)
    ensures
        r@ == signed_change(d),
{
    let digits = int_chars(d);
    if d >= 0 {
        let mut out: Vec<char> = chars_of("+");
        push_all(&mut out, digits.as_slice());
        string_of(out.as_slice())
    } else {
        string_of(digits.as_slice())
    }
}

fn rank_row(page: i64, i: usize, name: &str, color: &str, change: Option<i64>) -> (r: RankRow)
    requires
        position_in_range(page, i as int),
    ensures
        r.rank == position(page, i as int),
        r.name@ == shorten_bytes(name@, 18, 15),
        r.name_color == user_style(color@, false),
        r.change@ == (match change {
            Some(d) => signed_change(d),
            None => "N/A"@,
        }),
        r.change_color == (match change {
            Some(d) => if d >= 0 {
                TermColor::Green
            } else {
                TermColor::Red
            },
            None => TermColor::Normal,
        }),
{
    let (text, tc) = match change {
        Some(d) => (signed_change_text(d), if d >= 0 {
            TermColor::Green
        } else {
            TermColor::Red
        }),
        None => (String::from_str("N/A"), TermColor::Normal),
    };
    RankRow {
        rank: position_of(page, i),
        name: shorten_by_bytes(name, 18, 15),
        name_color: user_color(color, false),
        change: text,
        change_color: tc,
    }
}

/// The row of entry `i` of page `page` of the gu rating ranking.
pub fn gu_rank_row(page: i64, i: usize, entry: &GuRatingDetails) -> (r: RankRow)
    requires
        position_in_range(page, i as int),
    ensures
        r.rank == position(page, i as int),
        r.name@ == shorten_bytes(entry.user.name@, 18, 15),
        r.name_color == user_style(entry.user.color@, false),
        r.change@ == "N/A"@,
        r.change_color == TermColor::Normal,
{
    rank_row(page, i, entry.user.name.as_str(), entry.user.color.as_str(), None)
}

/// The row of entry `i` of page `page` of the elo ranking.
pub fn elo_rank_row(page: i64, i: usize, entry: &EloRatingDetails) -> (r: RankRow)
    requires
        position_in_range(page, i as int),
    ensures
        r.rank == position(page, i as int),
        r.name@ == shorten_bytes(entry.user.name@, 18, 15),
        r.name_color == user_style(entry.user.color@, false),
        r.change@ == (match entry.prevDiff {
            Some(d) => signed_change(d),
            None => "N/A"@,
        }),
        r.change_color == (match entry.prevDiff {
            Some(d) => if d >= 0 {
                TermColor::Green
            } else {
                TermColor::Red
            },
            None => TermColor::Normal,
        }),
{
    rank_row(page, i, entry.user.name.as_str(), entry.user.color.as_str(), entry.prevDiff)
}

/// How many rows of a ranking are shown: the entries on the page, at most
/// `limit` of them (`--limit`).
pub fn shown_rows(entries: usize, limit: usize) -> (r: usize)
    ensures
        r == if entries <= limit {
            entries
        } else {
            limit
        },
{
    if entries <= limit {
        entries
    } else {
        limit
    }
}

// ── Records ─────────────────────────────────────────────────────────

/// `<n><unit>`, or `?` when the value is unknown.
pub open spec fn amount_or_unknown(v: Option<i64>, unit: Seq<char>) -> Seq<char> {
    match v {
        Some(n) => dec_int(n as int) + unit,
        None => "?"@,
    }
}

pub fn amount_text(v: Option<i64>, unit: &str) -> (r: String)
    ensures
        r@ == amount_or_unknown(v, unit@),
{
    match v {
        Some(n) => {
            let mut out = int_chars(n);
            push_str(&mut out, unit);
            string_of(out.as_slice())
        },
        None => String::from_str("?"),
    }
}

/// A row of the record listing.
pub struct RecordRow {
    pub status: String,
    pub status_color: TermColor,
    pub score: String,
    pub time: String,
    pub memory: String,
    pub submitted: String,
    pub language: &'static str,
}

pub fn record_row(r: &RecordBase) -> (row: RecordRow)
    ensures
        row.status@ == status_text(r.status as int),
        row.status_color == status_color(r.status as int),
        row.score@ == amount_or_unknown(r.score, "/100"@),
        row.time@ == amount_or_unknown(r.time, "ms"@),
        row.memory@ == amount_or_unknown(r.memory, "KB"@),
        row.submitted@ == time_or(r.submitTime, "%m-%d %H:%M"@, "?"@),
        row.language@ == language_text(r.language as int),
{
    let (status, color) = status_name(r.status);
    RecordRow {
        status,
        status_color: color,
        score: amount_text(r.score, "/100"),
        time: amount_text(r.time, "ms"),
        memory: amount_text(r.memory, "KB"),
        submitted: timestamp_text(r.submitTime, "%m-%d %H:%M", "?"),
        language: language_name(r.language),
    }
}


/// What the record page shows of a submission.
pub struct RecordDetailView {
    pub status: String,
    pub status_color: TermColor,
    pub score: String,
    pub time: String,
    pub memory: String,
    pub language: &'static str,
    pub submitted: String,
    /// `Some(true)` when compilation succeeded, `Some(false)` when it
    /// failed, `None` when the record has no compile result.
    pub compiled: Option<bool>,
    /// The compiler message shown for a failed compilation, when not empty.
    pub compile_message: Option<String>,
    /// The lines of the source code, when the record includes it.
    pub source_lines: Option<Vec<String>>,
    pub url: String,
}

pub open spec fn lines_view(v: Seq<String>) -> Seq<Seq<char>> {
    v.map_values(|l: String| l@)
}

/// The lines of a text, `str::lines`.
pub fn text_lines(s: &str) -> (r: Vec<String>)
    ensures
        lines_view(r@) == lines(s@),
{
    let cs = chars_of(s);
    let ls = lines_of(cs.as_slice());
    let mut out: Vec<String> = Vec::new();
    let mut i: usize = 0;
    while i < ls.len()
        invariant
            i <= ls@.len(),
            ls@.len() == lines(s@).len(),
            forall|k: int| 0 <= k < ls@.len() ==> #[trigger] ls@[k]@ == lines(s@)[k],
            out@.len() == i,
            forall|k: int| 0 <= k < i ==> #[trigger] out@[k]@ == lines(s@)[k],
        decreases ls.len() - i,
    {
        out.push(string_of(ls[i].as_slice()));
        i = i + 1;
    }
    assert(lines_view(out@) =~= lines(s@));
    out
}

pub open spec fn compile_message_of(r: RecordDetails) -> Option<Seq<char>> {
    match r.detail {
        Some(d) => match d.compileResult {
            Some(c) => if !c.success {
                match c.message {
                    Some(m) => if m@.len() > 0 {
                        Some(m@)
                    } else {
                        None
                    },
                    None => None,
                }
            } else {
                None
            },
            None => None,
        },
        None => None,
    }
}

pub fn record_detail_view(rid: i64, record: &RecordDetails) -> (v: RecordDetailView)
    ensures
        v.status@ == status_text(record.status as int),
        v.status_color == status_color(record.status as int),
        v.score@ == amount_or_unknown(record.score, ""@),
        v.time@ == amount_or_unknown(record.time, "ms"@),
        v.memory@ == amount_or_unknown(record.memory, "KB"@),
        v.language@ == language_text(record.language as int),
        v.submitted@ == time_or(record.submitTime, "%Y-%m-%d %H:%M:%S"@, "?"@),
        v.compiled == (match record.detail {
            Some(d) => match d.compileResult {
                Some(c) => Some(c.success),
                None => None,
            },
            None => None,
        }),
        opt_string_view(v.compile_message) == compile_message_of(*record),
        match record.sourceCode {
            Some(src) => v.source_lines matches Some(ls) && lines_view(ls@) == lines(src@),
            None => v.source_lines is None,
        },
        v.url@ == "https://www.luogu.com.cn/record/"@ + dec_int(rid as int),
{
    let (status, color) = status_name(record.status);
    let compiled = match &record.detail {
        Some(d) => match &d.compileResult {
            Some(c) => Some(c.success),
            None => None,
        },
        None => None,
    };
    let compile_message = match &record.detail {
        Some(d) => match &d.compileResult {
            Some(c) => if !c.success {
                match &c.message {
                    Some(m) => if m.as_str().is_empty() {
                        None
                    } else {
                        Some(m.clone())
                    },
                    None => None,
                }
            } else {
                None
            },
            None => None,
        },
        None => None,
    };
    let source_lines = match &record.sourceCode {
        Some(src) => Some(text_lines(src.as_str())),
        None => None,
    };
    let mut url: Vec<char> = chars_of("https://www.luogu.com.cn/record/");
    let d = int_chars(rid);
    push_all(&mut url, d.as_slice());
    RecordDetailView {
        status,
        status_color: color,
        score: amount_text(record.score, ""),
        time: amount_text(record.time, "ms"),
        memory: amount_text(record.memory, "KB"),
        language: language_name(record.language),
        submitted: timestamp_text(record.submitTime, "%Y-%m-%d %H:%M:%S", "?"),
        compiled,
        compile_message,
        source_lines,
        url: string_of(url.as_slice()),
    }
}

// ── Solutions ───────────────────────────────────────────────────────

/// Whether the content of solution number `idx` is shown: with `--full`,
/// or when `--index` names it.
pub fn show_solution_content(full: bool, index: Option<usize>, idx: i64) -> (r: bool)
    ensures
        r == (full || index == Some(idx as usize)),
{
    full || match index {
        Some(n) => n == idx as usize,
        None => false,
    }
}

/// The file a saved solution is written to: `solution_<idx>.md`.
pub fn solution_file_name(idx: i64) -> (r: String)
    ensures
        r@ == "solution_"@ + dec_int(idx as int) + ".md"@,
{
    let mut out: Vec<char> = chars_of("solution_");
    let d = int_chars(idx);
    push_all(&mut out, d.as_slice());
    push_str(&mut out, ".md");
    string_of(out.as_slice())
}

/// Whether a failure to fetch solutions means that logging in is required.
pub fn requires_login(message: &str) -> (r: bool)
    ensures
        r == (contains(message@, "401"@) || contains(message@, "login"@) || contains(
            message@,
            "Unauthorized"@,
        )),
{
    str_contains(message, "401") || str_contains(message, "login") || str_contains(
        message,
        "Unauthorized",
    )
}

/// The common HTML entities, each with the text it stands for, in the
/// order they are tried: `&amp;`, `&lt;`, `&gt;`, `&quot;`, `&#39;`, `&nbsp;`.
pub open spec fn entities() -> Seq<(Seq<char>, Seq<char>)> {
    seq![
        (seq!['&', 'a', 'm', 'p', ';'], seq!['&']),
        (seq!['&', 'l', 't', ';'], seq!['<']),
        (seq!['&', 'g', 't', ';'], seq!['>']),
        (seq!['&', 'q', 'u', 'o', 't', ';'], seq!['"']),
        (seq!['&', '#', '3', '9', ';'], seq!['\'']),
        (seq!['&', 'n', 'b', 's', 'p', ';'], seq![' ']),
    ]
}

/// The first entity, from position `k` of `entities()` on, that `s` starts
/// with: its length and the text it stands for.
pub open spec fn entity_from(s: Seq<char>, k: int) -> Option<(nat, Seq<char>)>
    decreases 6 - k,
{
    if k < 0 || k >= 6 {
        None
    } else if starts_with(s, entities()[k].0) {
        Some((entities()[k].0.len(), entities()[k].1))
    } else {
        entity_from(s, k + 1)
    }
}

pub proof fn lemma_entity_from(s: Seq<char>, k: int)
    ensures
        entity_from(s, k) matches Some((n, t)) ==> 4 <= n <= s.len(),
    decreases 6 - k,
{
    if 0 <= k < 6 && !starts_with(s, entities()[k].0) {
        lemma_entity_from(s, k + 1);
    }
}

/// The text of `s` with the common HTML entities decoded in one pass from
/// left to right: an entity becomes the text it stands for, and that text
/// is not read again.
pub open spec fn decode_entities(s: Seq<char>) -> Seq<char>
    decreases s.len(),
{
    if s.len() == 0 {
        s
    } else {
        match entity_from(s, 0) {
            Some((n, t)) => {
                proof {
                    lemma_entity_from(s, 0);
                }
                t + decode_entities(s.skip(n as int))
            },
            None => seq![s[0]] + decode_entities(s.drop_first()),
        }
    }
}

fn entity_text(k: usize) -> (r: (Vec<char>, char))
    requires
        k < 6,
    ensures
        r.0@ == entities()[k as int].0,
        seq![r.1] == entities()[k as int].1,
{
    let (e, c) = if k == 0 {
        (vec!['&', 'a', 'm', 'p', ';'], '&')
    } else if k == 1 {
        (vec!['&', 'l', 't', ';'], '<')
    } else if k == 2 {
        (vec!['&', 'g', 't', ';'], '>')
    } else if k == 3 {
        (vec!['&', 'q', 'u', 'o', 't', ';'], '"')
    } else if k == 4 {
        (vec!['&', '#', '3', '9', ';'], '\'')
    } else {
        (vec!['&', 'n', 'b', 's', 'p', ';'], ' ')
    };
    assert(e@ =~= entities()[k as int].0);
    (e, c)
}

/// The entity at position `i` of `s`: its length and the character it stands for.
fn entity_at(s: &[char], i: usize) -> (r: Option<(usize, char)>)
    requires
        i <= s@.len(),
    ensures
        match r {
            Some((n, c)) => entity_from(s@.skip(i as int), 0) == Some((n as nat, seq![c])),
            None => entity_from(s@.skip(i as int), 0) is None,
        },
{
    let ghost rest = s@.skip(i as int);
    let mut k: usize = 0;
    while k < 6
        invariant
            k <= 6,
            i <= s@.len(),
            rest == s@.skip(i as int),
            entity_from(rest, 0) == entity_from(rest, k as int),
        decreases 6 - k,
    {
        let (e, c) = entity_text(k);
        let hit = occurs_at_exec(s, e.as_slice(), i);
        proof {
            if e@.len() <= rest.len() {
                assert(s@.subrange(i as int, i + e@.len()) =~= rest.take(e@.len() as int));
            }
        }
        if hit {
            return Some((e.len(), c));
        }
        k = k + 1;
    }
    None
}

/// Decodes the common HTML entities of a solution's text; see `decode_entities`.
pub fn decode_entities_of(text: &str) -> (r: String)
    ensures
        r@ == decode_entities(text@),
{
    let s = chars_of(text);
    let n = s.len();
    let mut out: Vec<char> = Vec::new();
    let mut i: usize = 0;
    assert(s@.skip(0) =~= s@);
    while i < n
        invariant
            n == s@.len(),
            s@ == text@,
            i <= n,
            decode_entities(text@) == out@ + decode_entities(s@.skip(i as int)),
        decreases n - i,
    {
        let ghost rest = s@.skip(i as int);
        match entity_at(s.as_slice(), i) {
            Some((len, c)) => {
                proof {
                    lemma_entity_from(rest, 0);
                    assert(rest.skip(len as int) =~= s@.skip(i + len));
                }
                out.push(c);
                i = i + len;
            },
            None => {
                proof {
                    assert(rest.drop_first() =~= s@.skip(i + 1));
                    assert(rest[0] == s@[i as int]);
                }
                out.push(s[i]);
                i = i + 1;
            },
        }
    }
    proof {
        assert(s@.skip(n as int) =~= Seq::<char>::empty());
        assert(out@ + Seq::<char>::empty() =~= out@);
    }
    string_of(out.as_slice())
}

/// The pattern of an HTML tag.
pub open spec fn tag_pattern() -> Seq<char> {
    "<[^>]*>"@
}

/// A solution's HTML as plain text for the terminal: every tag removed
/// (the `regex` crate's `replace_all` of `<[^>]*>`), then the common
/// entities decoded. `None` only if the tag pattern were refused by the
/// `regex` crate.
pub fn strip_html(html: &str) -> (r: Option<String>)
    ensures
        match regex_replace_all(tag_pattern(), html@, ""@) {
            Some(t) => r matches Some(s) && s@ == decode_entities(t),
            None => r is None,
        },
{
    match replace_matches("<[^>]*>", html, "") {
        Some(t) => Some(decode_entities_of(t.as_str())),
        None => None,
    }
}

// ── Judge history and the problem index ─────────────────────────────

/// Index of the first `'T'` in `s`, or its length.
pub open spec fn t_index(s: Seq<char>) -> nat
    decreases s.len(),
{
    if s.len() == 0 || s[0] == 'T' {
        0
    } else {
        1 + t_index(s.drop_first())
    }
}

pub proof fn lemma_t_index(s: Seq<char>, k: int)
    requires
        0 <= k <= s.len(),
        forall|i: int| 0 <= i < k ==> #[trigger] s[i] != 'T',
        k == s.len() || s[k] == 'T',
    ensures
        t_index(s) == k,
    decreases k,
{
    if k > 0 {
        let t = s.drop_first();
        assert forall|i: int| 0 <= i < k - 1 implies #[trigger] t[i] != 'T' by {
            assert(t[i] == s[i + 1]);
        }
        if k < s.len() {
            assert(t[k - 1] == s[k]);
        }
        lemma_t_index(t, k - 1);
    }
}

/// The date part of a judge log timestamp: the text before the first `T`.
pub fn history_date(timestamp: &str) -> (r: String)
    ensures
        r@ == timestamp@.take(t_index(timestamp@) as int),
{
    let cs = chars_of(timestamp);
    let mut k: usize = 0;
    while k < cs.len() && cs[k] != 'T'
        invariant
            k <= cs@.len(),
            forall|i: int| 0 <= i < k ==> #[trigger] cs@[i] != 'T',
        decreases cs.len() - k,
    {
        k = k + 1;
    }
    proof {
        lemma_t_index(cs@, k as int);
    }
    string_of(&cs.as_slice()[0..k])
}

/// The color of a judge log status.
pub open spec fn history_color(status: Seq<char>) -> TermColor {
    if status == "AC"@ {
        TermColor::Green
    } else if status == "FAILED"@ || status == "COMPILE_ERROR"@ {
        TermColor::Red
    } else {
        TermColor::Yellow
    }
}

pub fn history_status_color(status: &str) -> (r: TermColor)
    ensures
        r == history_color(status@),
{
    if str_eq(status, "AC") {
        TermColor::Green
    } else if str_eq(status, "FAILED") || str_eq(status, "COMPILE_ERROR") {
        TermColor::Red
    } else {
        TermColor::Yellow
    }
}

/// Whether an entry for `pid` passes the optional pid filter.
pub fn passes_pid_filter(filter: Option<&str>, pid: &str) -> (r: bool)
    ensures
        r == (match filter {
            Some(f) => f@ == pid@,
            None => true,
        }),
{
    match filter {
        Some(f) => str_eq(f, pid),
        None => true,
    }
}

/// The title shown in the problem index: a title of more than 28 UTF-8
/// bytes is cut to its first 25 bytes and followed by `"..."`. The cut
/// must fall between characters.
pub fn catalog_title(title: &str) -> (r: String)
    requires
        byte_len(title@) > 28 ==> vstd::utf8::is_char_boundary(encode_utf8(title@), 25),
    ensures
        byte_len(title@) <= 28 ==> r@ == title@,
        byte_len(title@) > 28 ==> exists|p: Seq<char>|
            encode_utf8(p) == encode_utf8(title@).take(25) && r@ == p + "..."@,
{
    let bytes = title.as_bytes();
    if bytes.len() > 28 {
        let (head, _tail) = title.split_at(25);
        let mut out: Vec<char> = chars_of(head);
        push_str(&mut out, "...");
        proof {
            assert(encode_utf8(head@) == encode_utf8(title@).subrange(0, 25));
            assert(encode_utf8(title@).take(25) =~= encode_utf8(title@).subrange(0, 25));
        }
        string_of(out.as_slice())
    } else {
        String::from_str(title)
    }
}

// ── Tags ────────────────────────────────────────────────────────────

/// The positions of the tags of type `type_id`, in order.
pub open spec fn tags_of_type_spec(tags: Seq<Tag>, type_id: i64) -> Seq<int>
    decreases tags.len(),
{
    if tags.len() == 0 {
        seq![]
    } else if tags.last().ptype == type_id {
        tags_of_type_spec(tags.drop_last(), type_id).push(tags.len() - 1)
    } else {
        tags_of_type_spec(tags.drop_last(), type_id)
    }
}

pub fn tags_of_type(tags: &Vec<Tag>, type_id: i64) -> (r: Vec<usize>)
    ensures
        r@.map_values(|i: usize| i as int) == tags_of_type_spec(tags@, type_id),
{
    let mut out: Vec<usize> = Vec::new();
    let mut i: usize = 0;
    while i < tags.len()
        invariant
            i <= tags@.len(),
            out@.map_values(|k: usize| k as int) == tags_of_type_spec(tags@.take(i as int), type_id),
        decreases tags.len() - i,
    {
        proof {
            assert(tags@.take(i + 1).drop_last() =~= tags@.take(i as int));
            assert(tags@.take(i + 1).last() == tags@[i as int]);
        }
        if tags[i].ptype == type_id {
            let ghost before = out@;
            out.push(i);
            assert(out@.map_values(|k: usize| k as int) =~= before.map_values(|k: usize| k as int).push(
                i as int,
            ));
        }
        i = i + 1;
    }
    assert(tags@.take(tags@.len() as int) =~= tags@);
    out
}

/// The name of the first tag whose id is `parent`, or `?`.
pub open spec fn parent_name_spec(tags: Seq<Tag>, parent: i64) -> Seq<char>
    decreases tags.len(),
{
    if tags.len() == 0 {
        "?"@
    } else if tags[0].id == parent {
        tags[0].name@
    } else {
        parent_name_spec(tags.drop_first(), parent)
    }
}

pub fn parent_name(tags: &Vec<Tag>, parent: i64) -> (r: String)
    ensures
        r@ == parent_name_spec(tags@, parent),
{
    let mut i: usize = 0;
    assert(tags@.skip(0) =~= tags@);
    while i < tags.len()
        invariant
            i <= tags@.len(),
            parent_name_spec(tags@, parent) == parent_name_spec(tags@.skip(i as int), parent),
        decreases tags.len() - i,
    {
        proof {
            assert(tags@.skip(i as int).drop_first() =~= tags@.skip(i + 1));
            assert(tags@.skip(i as int)[0] == tags@[i as int]);
        }
        if tags[i].id == parent {
            return tags[i].name.clone();
        }
        i = i + 1;
    }
    String::from_str("?")
}

// ── Users and rankings ──────────────────────────────────────────────

/// The users of a search result that are present, as positions.
pub open spec fn present_users(users: Seq<Option<crate::models::UserSummary>>) -> Seq<int>
    decreases users.len(),
{
    if users.len() == 0 {
        seq![]
    } else if users.last() is Some {
        present_users(users.drop_last()).push(users.len() - 1)
    } else {
        present_users(users.drop_last())
    }
}

/// What a user search found.
pub enum UserMatch {
    NotFound,
    One(i64),
    /// Several users; their positions in the result.
    Many(Vec<usize>),
}

/// Decides from a user search result: no user, exactly one (its uid), or several.
pub fn match_users(result: &UserSearchResult) -> (r: UserMatch)
    ensures
        present_users(result.users@).len() == 0 ==> r is NotFound,
        present_users(result.users@).len() == 1 ==> (r matches UserMatch::One(uid)
            && result.users@[present_users(result.users@)[0]] matches Some(u) && u.uid == uid),
        present_users(result.users@).len() > 1 ==> (r matches UserMatch::Many(v)
            && v@.map_values(|i: usize| i as int) == present_users(result.users@)),
{
    let users = &result.users;
    let mut found: Vec<usize> = Vec::new();
    let mut i: usize = 0;
    while i < users.len()
        invariant
            i <= users@.len(),
            found@.map_values(|k: usize| k as int) == present_users(users@.take(i as int)),
        decreases users.len() - i,
    {
        proof {
            assert(users@.take(i + 1).drop_last() =~= users@.take(i as int));
            assert(users@.take(i + 1).last() == users@[i as int]);
        }
        if users[i].is_some() {
            let ghost before = found@;
            found.push(i);
            assert(found@.map_values(|k: usize| k as int) =~= before.map_values(
                |k: usize| k as int,
            ).push(i as int));
        }
        i = i + 1;
    }
    assert(users@.take(users@.len() as int) =~= users@);
    if found.len() == 0 {
        UserMatch::NotFound
    } else if found.len() == 1 {
        let k = found[0];
        assert(found@.map_values(|k: usize| k as int)[0] == k as int);
        proof {
            lemma_present_users_some(users@);
        }
        match &users[k] {
            Some(u) => UserMatch::One(u.uid),
            None => UserMatch::NotFound,
        }
    } else {
        UserMatch::Many(found)
    }
}

pub proof fn lemma_present_users_some(users: Seq<Option<crate::models::UserSummary>>)
    ensures
        forall|j: int|
            0 <= j < present_users(users).len() ==> 0 <= #[trigger] present_users(users)[j]
                < users.len() && users[present_users(users)[j]] is Some,
    decreases users.len(),
{
    if users.len() > 0 {
        let p = users.drop_last();
        lemma_present_users_some(p);
        assert forall|j: int| 0 <= j < present_users(users).len() implies 0
            <= #[trigger] present_users(users)[j] < users.len()
            && users[present_users(users)[j]] is Some by {
            if j < present_users(p).len() {
                assert(present_users(users)[j] == present_users(p)[j]);
                assert(users[present_users(p)[j]] == p[present_users(p)[j]]);
            }
        }
    }
}

/// The position of the first elo rating marked latest.
pub open spec fn latest_elo_spec(elo: Seq<EloRating>) -> Option<int>
    decreases elo.len(),
{
    if elo.len() == 0 {
        None
    } else if elo[0].latest {
        Some(0)
    } else {
        match latest_elo_spec(elo.drop_first()) {
            Some(k) => Some(k + 1),
            None => None,
        }
    }
}

pub fn latest_elo(elo: &Vec<EloRating>) -> (r: Option<usize>)
    ensures
        match r {
            Some(k) => latest_elo_spec(elo@) == Some(k as int),
            None => latest_elo_spec(elo@) is None,
        },
{
    let mut i: usize = 0;
    while i < elo.len()
        invariant
            i <= elo@.len(),
            forall|k: int| 0 <= k < i ==> !(#[trigger] elo@[k]).latest,
        decreases elo.len() - i,
    {
        if elo[i].latest {
            proof {
                lemma_latest_elo(elo@, i as int);
            }
            return Some(i);
        }
        i = i + 1;
    }
    proof {
        lemma_latest_elo(elo@, elo@.len() as int);
    }
    None
}

pub proof fn lemma_latest_elo(elo: Seq<EloRating>, k: int)
    requires
        0 <= k <= elo.len(),
        forall|j: int| 0 <= j < k ==> !(#[trigger] elo[j]).latest,
        k < elo.len() ==> elo[k].latest,
    ensures
        k < elo.len() ==> latest_elo_spec(elo) == Some(k),
        k == elo.len() ==> latest_elo_spec(elo) is None,
    decreases k,
{
    if k > 0 {
        let t = elo.drop_first();
        assert forall|j: int| 0 <= j < k - 1 implies !(#[trigger] t[j]).latest by {
            assert(t[j] == elo[j + 1]);
        }
        if k < elo.len() {
            assert(t[k - 1] == elo[k]);
        }
        lemma_latest_elo(t, k - 1);
    }
}

/// The ranking a `--type` value asks for.
#[derive(PartialEq, Eq, Structural, Clone, Copy, Debug)]
pub enum RankKind {
    Gu,
    Elo,
    Unknown,
}

/// The ranking kind, from the type name in lower case (`str::to_lowercase`).
pub open spec fn rank_kind_of(rtype: Seq<char>) -> RankKind {
    let l = unicode_lower(rtype);
    if l == "gu"@ || l == "咕值"@ {
        RankKind::Gu
    } else if l == "elo"@ || l == "等级分"@ {
        RankKind::Elo
    } else {
        RankKind::Unknown
    }
}

pub fn rank_kind(rtype: &str) -> (r: RankKind)
    ensures
        r == rank_kind_of(rtype@),
{
    let l = to_lowercase(rtype);
    if str_eq(l.as_str(), "gu") || str_eq(l.as_str(), "咕值") {
        RankKind::Gu
    } else if str_eq(l.as_str(), "elo") || str_eq(l.as_str(), "等级分") {
        RankKind::Elo
    } else {
        RankKind::Unknown
    }
}

} // verus!
