//! Names shown for Luogu's numeric codes, and the terminal colors used for them.

use crate::text::{chars_of, contains, dec_int, int_chars, push_all, str_contains, str_eq, string_of};
use vstd::prelude::*;

verus! {

/// A terminal style, rendered by the front end.
#[derive(PartialEq, Eq, Structural, Clone, Copy, Debug)]
pub enum TermColor {
    Normal,
    Cyan,
    Green,
    Yellow,
    Magenta,
    Red,
    Blue,
    /// Dimmed white.
    Gray,
    /// Red, struck through.
    RedStruck,
}

// ── Difficulty ──────────────────────────────────────────────────────

/// The name of a difficulty level (0 = not rated, 1..7 = 入门 .. NOI/NOI+/CTSC).
pub open spec fn difficulty_name(level: int) -> Seq<char> {
    if level == 0 {
        "暂无评定"@
    } else if level == 1 {
        "入门"@
    } else if level == 2 {
        "普及-"@
    } else if level == 3 {
        "普及/提高-"@
    } else if level == 4 {
        "普及+/提高"@
    } else if level == 5 {
        "提高+/省选-"@
    } else if level == 6 {
        "省选/NOI-"@
    } else if level == 7 {
        "NOI/NOI+/CTSC"@
    } else {
        "未知"@
    }
}

fn difficulty_name_exec(level: i64) -> (r: String)
    ensures
        r@ == difficulty_name(level as int),
{
    if level == 0 {
        String::from_str("暂无评定")
    } else if level == 1 {
        String::from_str("入门")
    } else if level == 2 {
        String::from_str("普及-")
    } else if level == 3 {
        String::from_str("普及/提高-")
    } else if level == 4 {
        String::from_str("普及+/提高")
    } else if level == 5 {
        String::from_str("提高+/省选-")
    } else if level == 6 {
        String::from_str("省选/NOI-")
    } else if level == 7 {
        String::from_str("NOI/NOI+/CTSC")
    } else {
        String::from_str("未知")
    }
}

/// The difficulty label stored with a fetched problem; a missing
/// difficulty counts as level 0 (not rated).
pub fn difficulty_label(level: Option<i32>) -> (r: String)
    ensures
        r@ == difficulty_name(
            match level {
                Some(l) => l as int,
                None => 0,
            },
        ),
{
    match level {
        Some(l) => difficulty_name_exec(l as i64),
        None => difficulty_name_exec(0),
    }
}

/// The difficulty label shown in search results; a missing difficulty is
/// shown as unknown.
pub fn search_difficulty_label(level: Option<i64>) -> (r: String)
    ensures
        r@ == (match level {
            Some(l) => difficulty_name(l as int),
            None => "未知"@,
        }),
{
    match level {
        Some(l) => difficulty_name_exec(l),
        None => difficulty_name_exec(-1),
    }
}

/// The color of a difficulty label, by the first tier name it contains.
pub open spec fn difficulty_color_of(label: Seq<char>) -> TermColor {
    if contains(label, "入门"@) {
        TermColor::Cyan
    } else if contains(label, "普及"@) {
        TermColor::Green
    } else if contains(label, "提高"@) {
        TermColor::Yellow
    } else if contains(label, "省选"@) {
        TermColor::Magenta
    } else if contains(label, "NOI"@) {
        TermColor::Red
    } else {
        TermColor::Normal
    }
}

pub fn difficulty_color(label: &str) -> (r: TermColor)
    ensures
        r == difficulty_color_of(label@),
{
    if str_contains(label, "入门") {
        TermColor::Cyan
    } else if str_contains(label, "普及") {
        TermColor::Green
    } else if str_contains(label, "提高") {
        TermColor::Yellow
    } else if str_contains(label, "省选") {
        TermColor::Magenta
    } else if str_contains(label, "NOI") {
        TermColor::Red
    } else {
        TermColor::Normal
    }
}

// ── Contest method ──────────────────────────────────────────────────

pub open spec fn method_text(m: int) -> Seq<char> {
    if m == 1 {
        "OI"@
    } else if m == 2 {
        "ICPC"@
    } else if m == 3 {
        "乐多"@
    } else if m == 4 {
        "IOI"@
    } else {
        "未知"@
    }
}

/// The name of a contest method (1 = OI, 2 = ICPC, 3 = 乐多, 4 = IOI).
pub fn method_name(m: i64) -> (r: &'static str)
    ensures
        r@ == method_text(m as int),
{
    if m == 1 {
        "OI"
    } else if m == 2 {
        "ICPC"
    } else if m == 3 {
        "乐多"
    } else if m == 4 {
        "IOI"
    } else {
        "未知"
    }
}

// ── Record status and language ──────────────────────────────────────

/// The short name of a record status, or `STT(n)` for an unknown code.
pub open spec fn status_text(status: int) -> Seq<char> {
    if status == 0 {
        "WA"@
    } else if status == 1 {
        "TLE"@
    } else if status == 2 {
        "MLE"@
    } else if status == 3 {
        "RE"@
    } else if status == 4 {
        "CE"@
    } else if status == 6 {
        "UKE"@
    } else if status == 7 {
        "AC"@
    } else if status == 8 {
        "noip"@
    } else if status == 11 {
        "JGF"@
    } else if status == 12 {
        "FLE"@
    } else {
        "STT("@ + dec_int(status) + ")"@
    }
}

pub open spec fn status_color(status: int) -> TermColor {
    if status == 0 || status == 3 || status == 6 {
        TermColor::Red
    } else if status == 1 || status == 12 {
        TermColor::Yellow
    } else if status == 2 {
        TermColor::Magenta
    } else if status == 4 {
        TermColor::Cyan
    } else if status == 7 {
        TermColor::Green
    } else {
        TermColor::Normal
    }
}

/// The short name and color of a record status.
pub fn status_name(status: i64) -> (r: (String, TermColor))
    ensures
        r.0@ == status_text(status as int),
        r.1 == status_color(status as int),
{
    if status == 0 {
        (String::from_str("WA"), TermColor::Red)
    } else if status == 1 {
        (String::from_str("TLE"), TermColor::Yellow)
    } else if status == 2 {
        (String::from_str("MLE"), TermColor::Magenta)
    } else if status == 3 {
        (String::from_str("RE"), TermColor::Red)
    } else if status == 4 {
        (String::from_str("CE"), TermColor::Cyan)
    } else if status == 6 {
        (String::from_str("UKE"), TermColor::Red)
    } else if status == 7 {
        (String::from_str("AC"), TermColor::Green)
    } else if status == 8 {
        (String::from_str("noip"), TermColor::Normal)
    } else if status == 11 {
        (String::from_str("JGF"), TermColor::Normal)
    } else if status == 12 {
        (String::from_str("FLE"), TermColor::Yellow)
    } else {
        let mut out: Vec<char> = chars_of("STT(");
        let d = int_chars(status);
        push_all(&mut out, d.as_slice());
        out.push(')');
        proof {
            reveal_strlit(")");
            assert(out@ =~= "STT("@ + dec_int(status as int) + ")"@);
        }
        (string_of(out.as_slice()), TermColor::Normal)
    }
}

pub open spec fn language_text(lang: int) -> Seq<char> {
    if lang == 0 {
        "C"@
    } else if lang == 1 {
        "C++11"@
    } else if lang == 2 {
        "C++14"@
    } else if lang == 3 {
        "C++17"@
    } else if lang == 4 {
        "C++20"@
    } else if lang == 5 {
        "C++23"@
    } else if lang == 6 {
        "Python 2"@
    } else if lang == 7 {
        "Python 3"@
    } else if lang == 8 {
        "Java"@
    } else if lang == 9 {
        "Pascal"@
    } else if lang == 10 {
        "C++98"@
    } else if lang == 11 {
        "C++11(O2)"@
    } else if lang == 12 {
        "C++14(O2) / C++17(O2)"@
    } else if lang == 13 {
        "C++20(O2)"@
    } else if lang == 14 {
        "C++23(O2)"@
    } else {
        "unknown"@
    }
}

/// The name of a submission language code.
pub fn language_name(lang: i64) -> (r: &'static str)
    ensures
        r@ == language_text(lang as int),
{
    if lang == 0 {
        "C"
    } else if lang == 1 {
        "C++11"
    } else if lang == 2 {
        "C++14"
    } else if lang == 3 {
        "C++17"
    } else if lang == 4 {
        "C++20"
    } else if lang == 5 {
        "C++23"
    } else if lang == 6 {
        "Python 2"
    } else if lang == 7 {
        "Python 3"
    } else if lang == 8 {
        "Java"
    } else if lang == 9 {
        "Pascal"
    } else if lang == 10 {
        "C++98"
    } else if lang == 11 {
        "C++11(O2)"
    } else if lang == 12 {
        "C++14(O2) / C++17(O2)"
    } else if lang == 13 {
        "C++20(O2)"
    } else if lang == 14 {
        "C++23(O2)"
    } else {
        "unknown"
    }
}

// ── Users and problem types ─────────────────────────────────────────

/// The style of a user name by the user's color; `cheater_struck` tells
/// whether the `Cheater` color gets its own style (profile pages) or the
/// plain one (ranking tables).
pub open spec fn user_style(color: Seq<char>, cheater_struck: bool) -> TermColor {
    if color == "Gray"@ {
        TermColor::Gray
    } else if color == "Blue"@ {
        TermColor::Blue
    } else if color == "Green"@ {
        TermColor::Green
    } else if color == "Orange"@ {
        TermColor::Yellow
    } else if color == "Red"@ {
        TermColor::Red
    } else if color == "Purple"@ {
        TermColor::Magenta
    } else if cheater_struck && color == "Cheater"@ {
        TermColor::RedStruck
    } else {
        TermColor::Normal
    }
}

pub fn user_color(color: &str, cheater_struck: bool) -> (r: TermColor)
    ensures
        r == user_style(color@, cheater_struck),
{
    if str_eq(color, "Gray") {
        TermColor::Gray
    } else if str_eq(color, "Blue") {
        TermColor::Blue
    } else if str_eq(color, "Green") {
        TermColor::Green
    } else if str_eq(color, "Orange") {
        TermColor::Yellow
    } else if str_eq(color, "Red") {
        TermColor::Red
    } else if str_eq(color, "Purple") {
        TermColor::Magenta
    } else if cheater_struck && str_eq(color, "Cheater") {
        TermColor::RedStruck
    } else {
        TermColor::Normal
    }
}

/// The problem type letter shown for a problem's flag: P, B, T or `?`.
pub open spec fn type_letter(flag: Option<i64>) -> Seq<char> {
    match flag {
        Some(f) => if f == 0 {
            "P"@
        } else if f == 1 {
            "B"@
        } else if f == 2 {
            "T"@
        } else {
            "?"@
        },
        None => "?"@,
    }
}

pub fn problem_type_letter(flag: Option<i64>) -> (r: &'static str)
    ensures
        r@ == type_letter(flag),
{
    match flag {
        Some(f) => if f == 0 {
            "P"
        } else if f == 1 {
            "B"
        } else if f == 2 {
            "T"
        } else {
            "?"
        },
        None => "?",
    }
}

// ── The scales of Luogu ─────────────────────────────────────────────

/// Luogu's difficulty scale, from level 0 (not rated yet) to level 7.
pub open spec fn difficulty_scale() -> Seq<Seq<char>> {
    seq![
        "暂无评定"@,
        "入门"@,
        "普及-"@,
        "普及/提高-"@,
        "普及+/提高"@,
        "提高+/省选-"@,
        "省选/NOI-"@,
        "NOI/NOI+/CTSC"@,
    ]
}

/// A difficulty level is named by its place on Luogu's scale; a level off
/// the scale is unknown.
pub proof fn law_difficulty_names_follow_the_scale(level: int)
    ensures
        0 <= level < 8 ==> difficulty_name(level) == difficulty_scale()[level],
        !(0 <= level < 8) ==> difficulty_name(level) == "未知"@,
{
}

/// Luogu's record status codes, each with its short name and color.
pub open spec fn record_statuses() -> Seq<(int, Seq<char>, TermColor)> {
    seq![
        (0, "WA"@, TermColor::Red),
        (1, "TLE"@, TermColor::Yellow),
        (2, "MLE"@, TermColor::Magenta),
        (3, "RE"@, TermColor::Red),
        (4, "CE"@, TermColor::Cyan),
        (6, "UKE"@, TermColor::Red),
        (7, "AC"@, TermColor::Green),
        (8, "noip"@, TermColor::Normal),
        (11, "JGF"@, TermColor::Normal),
        (12, "FLE"@, TermColor::Yellow),
    ]
}

/// Every record status code of Luogu is shown by its name and color; any
/// other code is shown as `STT(<code>)`, uncolored.
pub proof fn law_statuses_follow_luogu_codes(status: int)
    ensures
        forall|i: int|
            0 <= i < record_statuses().len() && #[trigger] record_statuses()[i].0 == status ==> (
            status_text(status) == record_statuses()[i].1 && status_color(status)
                == record_statuses()[i].2),
        (forall|i: int| 0 <= i < record_statuses().len() ==> #[trigger] record_statuses()[i].0 != status)
            ==> status_text(status) == "STT("@ + dec_int(status) + ")"@ && status_color(status)
            == TermColor::Normal,
{
    let t = record_statuses();
    if !(status == 0 || status == 1 || status == 2 || status == 3 || status == 4 || status == 6
        || status == 7 || status == 8 || status == 11 || status == 12) {
        assert(forall|i: int| 0 <= i < t.len() ==> #[trigger] t[i].0 != status) by {
            assert forall|i: int| 0 <= i < t.len() implies #[trigger] t[i].0 != status by {
                assert(t[i].0 == 0 || t[i].0 == 1 || t[i].0 == 2 || t[i].0 == 3 || t[i].0 == 4
                    || t[i].0 == 6 || t[i].0 == 7 || t[i].0 == 8 || t[i].0 == 11 || t[i].0 == 12);
            }
        }
    } else {
        assert(t[0].0 == 0 && t[1].0 == 1 && t[2].0 == 2 && t[3].0 == 3 && t[4].0 == 4 && t[5].0 == 6
            && t[6].0 == 7 && t[7].0 == 8 && t[8].0 == 11 && t[9].0 == 12);
    }
}

/// A time limit is shown in yellow and a memory limit in magenta, whatever
/// other codes are named.
pub proof fn law_limit_statuses_colored(status: int)
    ensures
        status_text(status) == "TLE"@ ==> status_color(status) == TermColor::Yellow,
        status_text(status) == "MLE"@ ==> status_color(status) == TermColor::Magenta,
        status_text(status) == "AC"@ ==> status_color(status) == TermColor::Green,
{
    reveal_strlit("TLE");
    reveal_strlit("MLE");
    reveal_strlit("AC");
    reveal_strlit("STT(");
    reveal_strlit("WA");
    reveal_strlit("RE");
    reveal_strlit("CE");
    reveal_strlit("UKE");
    reveal_strlit("noip");
    reveal_strlit("JGF");
    reveal_strlit("FLE");
    let x = status_text(status);
    if !(status == 0 || status == 1 || status == 2 || status == 3 || status == 4 || status == 6
        || status == 7 || status == 8 || status == 11 || status == 12) {
        assert(x[0] == 'S');
        assert(x != "TLE"@ && x != "MLE"@ && x != "AC"@) by {
            assert("TLE"@[0] == 'T');
            assert("MLE"@[0] == 'M');
            assert("AC"@[0] == 'A');
        }
    } else if status == 0 || status == 3 || status == 6 || status == 4 || status == 8 || status
        == 11 || status == 12 {
        assert(x != "TLE"@ && x != "MLE"@ && x != "AC"@) by {
            assert("TLE"@[0] == 'T' && "TLE"@[1] == 'L');
            assert("MLE"@[0] == 'M');
            assert("AC"@[0] == 'A' && "AC"@.len() == 2);
            assert("WA"@[0] == 'W');
            assert("RE"@[0] == 'R');
            assert("UKE"@[0] == 'U');
            assert("CE"@[0] == 'C');
            assert("noip"@[0] == 'n');
            assert("JGF"@[0] == 'J');
            assert("FLE"@[0] == 'F');
        }
    } else {
        assert("TLE"@ != "MLE"@) by {
            assert("TLE"@[0] != "MLE"@[0]);
        }
        assert("TLE"@ != "AC"@ && "MLE"@ != "AC"@) by {
            assert("TLE"@.len() != "AC"@.len());
        }
    }
}

/// Luogu's contest rule codes, each with its name.
pub open spec fn contest_methods() -> Seq<(int, Seq<char>)> {
    seq![(1, "OI"@), (2, "ICPC"@), (3, "乐多"@), (4, "IOI"@)]
}

/// Every contest rule code of Luogu is shown by its name; any other code is unknown.
pub proof fn law_methods_follow_luogu_codes(m: int)
    ensures
        forall|i: int|
            0 <= i < contest_methods().len() && #[trigger] contest_methods()[i].0 == m ==> method_text(m)
                == contest_methods()[i].1,
        !(1 <= m <= 4) ==> method_text(m) == "未知"@,
{
    let t = contest_methods();
    assert(t[0].0 == 1 && t[1].0 == 2 && t[2].0 == 3 && t[3].0 == 4);
}

} // verus!
