//! Local judging: comparing program output with the expected sample output,
//! describing the difference, and choosing the source file and the compiler
//! command line.

use crate::paths::{join_path, join_paths};
use crate::text::{
    ascii_upper_seq, dec_int, ends_with, int_chars, starts_with, str_ends_with, str_starts_with,
    str_trim, to_ascii_uppercase, trim,
    chars_of, debug_list, debug_list_exec, dec, dec_chars, eq_chars, join, lemma_join_push, lines,
    lines_of, pad_left, pad_left_chars, push_all, push_str, split_whitespace, str_eq, string_of,
    tokens, truncate_chars, truncate_chars_exec, is_ws, word_len, lemma_word_len_bound,
    lemma_word_len_exact,
};
use vstd::prelude::*;

verus! {

// ── Output comparison ───────────────────────────────────────────────

/// The whitespace separated tokens of a program output; two outputs are
/// judged equal when their token lists are equal.
pub fn normalize_text(s: &str) -> (r: Vec<String>)
    ensures
        r@.map_values(|t: String| t@) == tokens(s@),
{
    let v = split_whitespace(s);
    assert(v@.map_values(|t: String| t@) =~= tokens(s@));
    v
}

/// `true` when `a` and `b` have the same tokens.
pub fn same_tokens(a: &str, b: &str) -> (r: bool)
    ensures
        r == (tokens(a@) == tokens(b@)),
{
    let x = normalize_text(a);
    let y = normalize_text(b);
    if x.len() != y.len() {
        assert(x@.map_values(|t: String| t@).len() == x@.len());
        return false;
    }
    let mut i: usize = 0;
    while i < x.len()
        invariant
            x@.len() == y@.len(),
            i <= x@.len(),
            x@.map_values(|t: String| t@) == tokens(a@),
            y@.map_values(|t: String| t@) == tokens(b@),
            forall|k: int| 0 <= k < i ==> x@[k]@ == y@[k]@,
        decreases x.len() - i,
    {
        if !str_eq(x[i].as_str(), y[i].as_str()) {
            assert(tokens(a@)[i as int] != tokens(b@)[i as int]);
            return false;
        }
        i = i + 1;
    }
    assert(tokens(a@) =~= tokens(b@));
    true
}

/// Text made of whitespace only has no tokens.
pub proof fn lemma_tokens_of_whitespace(w: Seq<char>)
    requires
        forall|i: int| 0 <= i < w.len() ==> is_ws(#[trigger] w[i]),
    ensures
        tokens(w) == Seq::<Seq<char>>::empty(),
    decreases w.len(),
{
    if w.len() > 0 {
        let t = w.drop_first();
        assert forall|i: int| 0 <= i < t.len() implies is_ws(#[trigger] t[i]) by {
            assert(t[i] == w[i + 1]);
        }
        lemma_tokens_of_whitespace(t);
    }
}

/// Whitespace after an output does not change its tokens: an output with
/// a trailing newline or trailing spaces is judged like the output without.
pub proof fn law_trailing_whitespace_ignored(s: Seq<char>, w: Seq<char>)
    requires
        forall|i: int| 0 <= i < w.len() ==> is_ws(#[trigger] w[i]),
    ensures
        tokens(s + w) == tokens(s),
    decreases s.len(),
{
    let sw = s + w;
    if s.len() == 0 {
        assert(sw =~= w);
        lemma_tokens_of_whitespace(w);
    } else if is_ws(s[0]) {
        assert(sw[0] == s[0]);
        assert(sw.drop_first() =~= s.drop_first() + w);
        law_trailing_whitespace_ignored(s.drop_first(), w);
    } else {
        lemma_word_len_bound(s);
        let n = word_len(s);
        assert forall|i: int| 0 <= i < n implies !is_ws(#[trigger] sw[i]) by {
            assert(sw[i] == s[i]);
        }
        if n < s.len() {
            assert(sw[n as int] == s[n as int]);
        } else if w.len() > 0 {
            assert(sw[n as int] == w[0]);
        }
        lemma_word_len_exact(sw, n as int);
        assert(sw[0] == s[0]);
        assert(sw.take(n as int) =~= s.take(n as int));
        assert(sw.skip(n as int) =~= s.skip(n as int) + w);
        law_trailing_whitespace_ignored(s.skip(n as int), w);
    }
}

/// Whitespace before an output does not change its tokens either.
pub proof fn law_leading_whitespace_ignored(w: Seq<char>, s: Seq<char>)
    requires
        forall|i: int| 0 <= i < w.len() ==> is_ws(#[trigger] w[i]),
    ensures
        tokens(w + s) == tokens(s),
    decreases w.len(),
{
    if w.len() == 0 {
        assert(w + s =~= s);
    } else {
        let t = w.drop_first();
        assert forall|i: int| 0 <= i < t.len() implies is_ws(#[trigger] t[i]) by {
            assert(t[i] == w[i + 1]);
        }
        assert((w + s)[0] == w[0]);
        assert((w + s).drop_first() =~= t + s);
        law_leading_whitespace_ignored(t, s);
    }
}

/// A line cut to `limit` characters, with `"..."` appended when it was longer.
pub fn truncate_line(s: &str, limit: usize) -> (r: String)
    ensures
        r@ == truncate_chars(s@, limit as nat),
{
    let cs = chars_of(s);
    let t = truncate_chars_exec(cs.as_slice(), limit);
    string_of(t.as_slice())
}

// ── Difference report ───────────────────────────────────────────────

pub open spec fn line_or_empty(ls: Seq<Seq<char>>, i: int) -> Seq<char> {
    if 0 <= i < ls.len() {
        ls[i]
    } else {
        seq![]
    }
}

/// What a diff row shows of one side: the line cut to 200 characters, or
/// `<EOF>` for an empty or missing line.
pub open spec fn side_text(l: Seq<char>) -> Seq<char> {
    if l.len() > 0 {
        truncate_chars(l, 200)
    } else {
        "<EOF>"@
    }
}

/// One row of the report: `-   3 | text` or `+   3 | text` for line `i + 1`.
pub open spec fn diff_row(sign: char, i: nat, l: Seq<char>) -> Seq<char> {
    seq![sign] + pad_left(dec(i + 1), 4) + " | "@ + side_text(l)
}

/// The report rows for the first `n` line positions: two rows for every
/// position where the expected and the actual line differ.
pub open spec fn diff_rows(e: Seq<Seq<char>>, a: Seq<Seq<char>>, n: nat) -> Seq<Seq<char>>
    decreases n,
{
    if n == 0 {
        seq![]
    } else {
        let i = (n - 1) as nat;
        let prev = diff_rows(e, a, i);
        let x = line_or_empty(e, i as int);
        let y = line_or_empty(a, i as int);
        if x == y {
            prev
        } else {
            prev + seq![diff_row('-', i, x), diff_row('+', i, y)]
        }
    }
}

pub open spec fn max_nat(a: nat, b: nat) -> nat {
    if a >= b {
        a
    } else {
        b
    }
}

pub open spec fn all_diff_rows(expected: Seq<char>, actual: Seq<char>) -> Seq<Seq<char>> {
    let e = lines(expected);
    let a = lines(actual);
    diff_rows(e, a, max_nat(e.len(), a.len()))
}

/// The wrong answer report: a line by line diff when some line differs,
/// otherwise (the outputs differ only in whitespace within lines) the two
/// token lists.
pub open spec fn diff_message(expected: Seq<char>, actual: Seq<char>) -> Seq<char> {
    let rows = all_diff_rows(expected, actual);
    if rows.len() > 0 {
        join(seq!["--- expected"@, "+++ actual"@] + rows, seq!['\n'])
    } else {
        "token mismatch\nexpected(tokens): "@ + debug_list(tokens(expected))
            + "\nactual(tokens):   "@ + debug_list(tokens(actual))
    }
}

/// The first `n` positions give no report rows exactly when the expected
/// and the actual line agree at each of them.
pub proof fn lemma_diff_rows_empty(e: Seq<Seq<char>>, a: Seq<Seq<char>>, n: nat)
    ensures
        diff_rows(e, a, n).len() == 0 <==> forall|i: int|
            0 <= i < n ==> #[trigger] line_or_empty(e, i) == line_or_empty(a, i),
    decreases n,
{
    if n > 0 {
        lemma_diff_rows_empty(e, a, (n - 1) as nat);
    }
}

/// The wrong answer report is a line diff exactly when some line of the
/// expected output differs from the actual line at the same position (a
/// missing line counting as empty); otherwise it compares the tokens.
pub proof fn law_line_diff_exactly_when_lines_differ(expected: Seq<char>, actual: Seq<char>)
    ensures
        all_diff_rows(expected, actual).len() > 0 <==> exists|i: int|
            0 <= i < max_nat(lines(expected).len(), lines(actual).len()) && #[trigger] line_or_empty(
                lines(expected),
                i,
            ) != line_or_empty(lines(actual), i),
{
    lemma_diff_rows_empty(
        lines(expected),
        lines(actual),
        max_nat(lines(expected).len(), lines(actual).len()),
    );
}

fn side_text_exec(l: &[char]) -> (r: Vec<char>)
    ensures
        r@ == side_text(l@),
{
    if l.len() > 0 {
        truncate_chars_exec(l, 200)
    } else {
        chars_of("<EOF>")
    }
}

fn diff_row_exec(sign: char, i: usize, l: &[char]) -> (r: Vec<char>)
    requires
        i < usize::MAX,
    ensures
        r@ == diff_row(sign, i as nat, l@),
{
    let mut out: Vec<char> = Vec::new();
    out.push(sign);
    let num = dec_chars((i + 1) as u64);
    let padded = pad_left_chars(num.as_slice(), 4);
    push_all(&mut out, padded.as_slice());
    push_str(&mut out, " | ");
    let side = side_text_exec(l);
    push_all(&mut out, side.as_slice());
    out
}

fn line_at(ls: &Vec<Vec<char>>, i: usize) -> (r: Vec<char>)
    ensures
        r@ == line_or_empty(ls@.map_values(|l: Vec<char>| l@), i as int),
{
    if i < ls.len() {
        let mut out: Vec<char> = Vec::new();
        push_all(&mut out, ls[i].as_slice());
        out
    } else {
        Vec::new()
    }
}

/// The report shown for a wrong answer.
pub fn build_diff_message(expected: &str, actual: &str) -> (r: String)
    ensures
        r@ == diff_message(expected@, actual@),
{
    let ec = chars_of(expected);
    let ac = chars_of(actual);
    let el = lines_of(ec.as_slice());
    let al = lines_of(ac.as_slice());
    let ghost e = lines(expected@);
    let ghost a = lines(actual@);
    assert(el@.map_values(|l: Vec<char>| l@) =~= e);
    assert(al@.map_values(|l: Vec<char>| l@) =~= a);
    let max_len = if el.len() >= al.len() {
        el.len()
    } else {
        al.len()
    };
    let ghost header = seq!["--- expected"@, "+++ actual"@];
    let mut out: Vec<char> = chars_of("--- expected");
    out.push('\n');
    push_str(&mut out, "+++ actual");
    proof {
        lemma_join_push(seq!["--- expected"@], seq!['\n'], "+++ actual"@);
        assert(seq!["--- expected"@].push("+++ actual"@) =~= header);
        assert(join(seq!["--- expected"@], seq!['\n']) == "--- expected"@);
        assert(header + diff_rows(e, a, 0) =~= header);
    }
    let mut changed: bool = false;
    let mut i: usize = 0;
    while i < max_len
        invariant
            i <= max_len,
            header == seq!["--- expected"@, "+++ actual"@],
            max_len == max_nat(e.len(), a.len()),
            el@.map_values(|l: Vec<char>| l@) == e,
            al@.map_values(|l: Vec<char>| l@) == a,
            out@ == join(header + diff_rows(e, a, i as nat), seq!['\n']),
            changed == (diff_rows(e, a, i as nat).len() > 0),
        decreases max_len - i,
    {
        let x = line_at(&el, i);
        let y = line_at(&al, i);
        let ghost prev = header + diff_rows(e, a, i as nat);
        if !eq_chars(x.as_slice(), y.as_slice()) {
            let minus = diff_row_exec('-', i, x.as_slice());
            let plus = diff_row_exec('+', i, y.as_slice());
            out.push('\n');
            push_all(&mut out, minus.as_slice());
            out.push('\n');
            push_all(&mut out, plus.as_slice());
            proof {
                assert(header.len() == 2);
                assert(prev.len() >= 2);
                lemma_join_push(prev, seq!['\n'], minus@);
                lemma_join_push(prev.push(minus@), seq!['\n'], plus@);
                assert(header + diff_rows(e, a, (i + 1) as nat) =~= prev.push(minus@).push(
                    plus@,
                ));
            }
            changed = true;
        } else {
            assert(diff_rows(e, a, (i + 1) as nat) == diff_rows(e, a, i as nat));
        }
        i = i + 1;
    }
    if changed {
        string_of(out.as_slice())
    } else {
        let et = normalize_text(expected);
        let at = normalize_text(actual);
        let mut msg: Vec<char> = chars_of("token mismatch\nexpected(tokens): ");
        let ed = debug_list_exec(&et);
        push_all(&mut msg, ed.as_slice());
        push_str(&mut msg, "\nactual(tokens):   ");
        let ad = debug_list_exec(&at);
        push_all(&mut msg, ad.as_slice());
        string_of(msg.as_slice())
    }
}


// ── Errors ──────────────────────────────────────────────────────────

/// Why a sample run cannot be prepared.
pub enum JudgeError {
    /// The optimization level is none of none/O0/O1/O2/O3/Os.
    UnsupportedOpt(String),
    /// The explicitly chosen source file does not exist.
    SourceNotFound(String),
    /// The explicitly chosen source file has an extension that cannot be judged.
    UnsupportedExtension(String),
    /// The requested language is neither C++ nor Python.
    UnsupportedLanguage(String),
    /// No source file for the requested language exists.
    NoSourceForLanguage(String),
    /// Neither `main.cpp` nor `main.py` exists.
    NoSource,
    /// The problem directory does not exist.
    ProblemDirMissing,
    /// The problem directory holds no `*.in` sample.
    NoSamples,
}

pub open spec fn judge_error_text(e: JudgeError, problem_dir: Seq<char>) -> Seq<char> {
    match e {
        JudgeError::UnsupportedOpt(raw) => "unsupported --opt value: "@ + raw@
            + " (supported: none/O1/O2/O3/Os)"@,
        JudgeError::SourceNotFound(src) => "source file not found: "@ + join_path(
            problem_dir,
            src@,
        ),
        JudgeError::UnsupportedExtension(src) => "unsupported file extension: "@ + src@,
        JudgeError::UnsupportedLanguage(lang) => "unsupported language: "@ + lang@,
        JudgeError::NoSourceForLanguage(lang) => "no source file found for language: "@ + lang@,
        JudgeError::NoSource => "no source file found (main.cpp or main.py)"@,
        JudgeError::ProblemDirMissing => "problem dir not found: "@ + problem_dir,
        JudgeError::NoSamples => "no sample *.in files in "@ + problem_dir,
    }
}

fn concat2(a: &str, b: &str) -> (r: String)
    ensures
        r@ == a@ + b@,
{
    let mut out: Vec<char> = Vec::new();
    push_str(&mut out, a);
    push_str(&mut out, b);
    string_of(out.as_slice())
}

fn concat3(a: &str, b: &str, c: &str) -> (r: String)
    ensures
        r@ == a@ + b@ + c@,
{
    let mut out: Vec<char> = Vec::new();
    push_str(&mut out, a);
    push_str(&mut out, b);
    push_str(&mut out, c);
    string_of(out.as_slice())
}

impl JudgeError {
    /// The error text, with paths shown under `problem_dir`.
    pub fn message(&self, problem_dir: &str) -> (r: String)
        ensures
            r@ == judge_error_text(*self, problem_dir@),
    {
        match self {
            JudgeError::UnsupportedOpt(raw) => concat3(
                "unsupported --opt value: ",
                raw.as_str(),
                " (supported: none/O1/O2/O3/Os)",
            ),
            JudgeError::SourceNotFound(src) => {
                let p = join_paths(problem_dir, src.as_str());
                concat2("source file not found: ", p.as_str())
            },
            JudgeError::UnsupportedExtension(src) => concat2("unsupported file extension: ", src.as_str()),
            JudgeError::UnsupportedLanguage(lang) => concat2("unsupported language: ", lang.as_str()),
            JudgeError::NoSourceForLanguage(lang) => concat2("no source file found for language: ", lang.as_str()),
            JudgeError::NoSource => String::from_str("no source file found (main.cpp or main.py)"),
            JudgeError::ProblemDirMissing => concat2("problem dir not found: ", problem_dir),
            JudgeError::NoSamples => concat2("no sample *.in files in ", problem_dir),
        }
    }
}

// ── Optimization level ──────────────────────────────────────────────

/// The `-O` flag for an optimization level name, compared after trimming
/// and ASCII upper-casing; `None` for an unknown name.
pub open spec fn opt_flag_of(raw: Seq<char>) -> Option<Seq<char>> {
    let u = ascii_upper_seq(trim(raw));
    if u == "NONE"@ || u == "O0"@ {
        Some("O0"@)
    } else if u == "O1"@ {
        Some("O1"@)
    } else if u == "O2"@ {
        Some("O2"@)
    } else if u == "O3"@ {
        Some("O3"@)
    } else if u == "OS"@ {
        Some("Os"@)
    } else {
        None
    }
}

pub fn parse_opt_level(raw: &str) -> (r: Result<String, JudgeError>)
    ensures
        match r {
            Ok(flag) => opt_flag_of(raw@) == Some(flag@),
            Err(e) => opt_flag_of(raw@) is None && (e matches JudgeError::UnsupportedOpt(x) && x@
                == raw@),
        },
{
    let t = str_trim(raw);
    let u = to_ascii_uppercase(t.as_str());
    let us = u.as_str();
    if str_eq(us, "NONE") || str_eq(us, "O0") {
        Ok(String::from_str("O0"))
    } else if str_eq(us, "O1") {
        Ok(String::from_str("O1"))
    } else if str_eq(us, "O2") {
        Ok(String::from_str("O2"))
    } else if str_eq(us, "O3") {
        Ok(String::from_str("O3"))
    } else if str_eq(us, "OS") {
        Ok(String::from_str("Os"))
    } else {
        Err(JudgeError::UnsupportedOpt(String::from_str(raw)))
    }
}

// ── Source and language ─────────────────────────────────────────────

/// The language, source file, C++ standard and optimization level to judge with.
pub struct CompileConfig {
    pub language: String,
    pub source: String,
    pub cpp_std: String,
    pub optimization: String,
}

pub open spec fn config_view(c: CompileConfig) -> (Seq<char>, Seq<char>, Seq<char>, Seq<char>) {
    (c.language@, c.source@, c.cpp_std@, c.optimization@)
}

pub open spec fn opt_str_view(o: Option<&str>) -> Option<Seq<char>> {
    match o {
        Some(s) => Some(s@),
        None => None,
    }
}

/// Whether `name` is among the files known to exist.
pub open spec fn has_file(files: Seq<String>, name: Seq<char>) -> bool {
    exists|i: int| 0 <= i < files.len() && #[trigger] files[i]@ == name
}

pub fn has_file_exec(files: &Vec<String>, name: &str) -> (r: bool)
    ensures
        r == has_file(files@, name@),
{
    let mut i: usize = 0;
    while i < files.len()
        invariant
            i <= files@.len(),
            forall|k: int| 0 <= k < i ==> files@[k]@ != name@,
        decreases files.len() - i,
    {
        if str_eq(files[i].as_str(), name) {
            return true;
        }
        i = i + 1;
    }
    false
}

pub open spec fn is_cpp_language(lang: Seq<char>) -> bool {
    starts_with(lang, "c++"@) || lang == "cpp"@
}

pub open spec fn is_python_language(lang: Seq<char>) -> bool {
    lang == "python"@ || lang == "py"@
}

pub open spec fn is_cpp_source(src: Seq<char>) -> bool {
    ends_with(src, ".cpp"@) || ends_with(src, ".cc"@) || ends_with(src, ".cxx"@)
}

pub open spec fn cfg(lang: Seq<char>, src: Seq<char>) -> (Seq<char>, Seq<char>, Seq<char>, Seq<char>) {
    (lang, src, "c++17"@, "O2"@)
}

/// The first of the C++ candidates `main.cpp`, `main.cc`, `main.cxx` that exists.
pub open spec fn first_cpp_candidate(files: Seq<String>) -> Option<Seq<char>> {
    if has_file(files, "main.cpp"@) {
        Some("main.cpp"@)
    } else if has_file(files, "main.cc"@) {
        Some("main.cc"@)
    } else if has_file(files, "main.cxx"@) {
        Some("main.cxx"@)
    } else {
        None
    }
}

/// Whether `detect_language_and_source` succeeds with exactly this configuration.
pub open spec fn detected(
    files: Seq<String>,
    lang: Option<Seq<char>>,
    src: Option<Seq<char>>,
    c: (Seq<char>, Seq<char>, Seq<char>, Seq<char>),
) -> bool {
    match src {
        Some(s) => has_file(files, s) && is_cpp_source(s) && c == cfg("cpp"@, s),
        None => match lang {
            Some(l) => if is_cpp_language(l) {
                (first_cpp_candidate(files) matches Some(name) && c == cfg("cpp"@, name))
            } else {
                is_python_language(l) && has_file(files, "main.py"@) && c == cfg(
                    "python"@,
                    "main.py"@,
                )
            },
            None => match first_cpp_candidate(files) {
                Some(name) => c == cfg("cpp"@, name),
                None => has_file(files, "main.py"@) && c == ("python"@, "main.py"@, ""@, ""@),
            },
        },
    }
}

/// The error `detect_language_and_source` reports when it does not succeed.
pub open spec fn detect_error(
    files: Seq<String>,
    lang: Option<Seq<char>>,
    src: Option<Seq<char>>,
    e: JudgeError,
) -> bool {
    match src {
        Some(s) => if !has_file(files, s) {
            (e matches JudgeError::SourceNotFound(x) && x@ == s)
        } else {
            !is_cpp_source(s) && (e matches JudgeError::UnsupportedExtension(x) && x@ == s)
        },
        None => match lang {
            Some(l) => if is_cpp_language(l) {
                first_cpp_candidate(files) is None && (e matches JudgeError::NoSourceForLanguage(x)
                    && x@ == l)
            } else if is_python_language(l) {
                !has_file(files, "main.py"@) && (e matches JudgeError::NoSourceForLanguage(x) && x@
                    == l)
            } else {
                (e matches JudgeError::UnsupportedLanguage(x) && x@ == l)
            },
            None => first_cpp_candidate(files) is None && !has_file(files, "main.py"@)
                && e is NoSource,
        },
    }
}

fn make_config(lang: &str, src: &str, cpp_std: &str, opt: &str) -> (c: CompileConfig)
    ensures
        config_view(c) == (lang@, src@, cpp_std@, opt@),
{
    CompileConfig {
        language: String::from_str(lang),
        source: String::from_str(src),
        cpp_std: String::from_str(cpp_std),
        optimization: String::from_str(opt),
    }
}

/// Chooses the language and source file: an explicit source file must be a
/// C++ file (`.cpp`, `.cc` or `.cxx`); an explicit language picks its first
/// existing candidate; otherwise the first of `main.cpp`, `main.cc`,
/// `main.cxx`, then `main.py`. `files` lists the paths, relative
/// to the problem directory, that exist there: its entries, and the
/// explicit source file when it exists.
pub fn detect_language_and_source(
    files: &Vec<String>,
    language_override: Option<&str>,
    source_override: Option<&str>,
) -> (r: Result<CompileConfig, JudgeError>)
    ensures
        match r {
            Ok(c) => detected(
                files@,
                opt_str_view(language_override),
                opt_str_view(source_override),
                config_view(c),
            ),
            Err(e) => detect_error(
                files@,
                opt_str_view(language_override),
                opt_str_view(source_override),
                e,
            ),
        },
{
    if let Some(src) = source_override {
        if !has_file_exec(files, src) {
            return Err(JudgeError::SourceNotFound(String::from_str(src)));
        }
        if str_ends_with(src, ".cpp") || str_ends_with(src, ".cc") || str_ends_with(src, ".cxx") {
            return Ok(make_config("cpp", src, "c++17", "O2"));
        } else {
            return Err(JudgeError::UnsupportedExtension(String::from_str(src)));
        }
    }
    if let Some(lang) = language_override {
        if str_starts_with(lang, "c++") || str_eq(lang, "cpp") {
            if has_file_exec(files, "main.cpp") {
                return Ok(make_config("cpp", "main.cpp", "c++17", "O2"));
            }
            if has_file_exec(files, "main.cc") {
                return Ok(make_config("cpp", "main.cc", "c++17", "O2"));
            }
            if has_file_exec(files, "main.cxx") {
                return Ok(make_config("cpp", "main.cxx", "c++17", "O2"));
            }
            return Err(JudgeError::NoSourceForLanguage(String::from_str(lang)));
        } else if str_eq(lang, "python") || str_eq(lang, "py") {
            if has_file_exec(files, "main.py") {
                return Ok(make_config("python", "main.py", "c++17", "O2"));
            }
            return Err(JudgeError::NoSourceForLanguage(String::from_str(lang)));
        } else {
            return Err(JudgeError::UnsupportedLanguage(String::from_str(lang)));
        }
    }
    if has_file_exec(files, "main.cpp") {
        return Ok(make_config("cpp", "main.cpp", "c++17", "O2"));
    }
    if has_file_exec(files, "main.cc") {
        return Ok(make_config("cpp", "main.cc", "c++17", "O2"));
    }
    if has_file_exec(files, "main.cxx") {
        return Ok(make_config("cpp", "main.cxx", "c++17", "O2"));
    }
    if has_file_exec(files, "main.py") {
        return Ok(make_config("python", "main.py", "", ""));
    }
    Err(JudgeError::NoSource)
}


// ── Commands ────────────────────────────────────────────────────────

/// Where the compiled C++ solution is written inside the problem directory.
pub fn binary_path(problem_dir: &str) -> (r: String)
    ensures
        r@ == join_path(problem_dir@, ".luogu_solution"@),
{
    join_paths(problem_dir, ".luogu_solution")
}

/// The C++ compilation settings of `judge_cpp.json`.
pub struct CompileSettings {
    /// The compiler program.
    pub compiler: String,
    /// The C++ standard, as given to `-std=`.
    pub cpp_standard: String,
    /// The optimization level: none, O0, O1, O2, O3 or Os.
    pub optimization: String,
    /// Flags given to every compilation, before those of the command line.
    pub extra_flags: Vec<String>,
}

pub open spec fn strings_view(v: Seq<String>) -> Seq<Seq<char>> {
    v.map_values(|f: String| f@)
}

pub open spec fn text_or(v: Option<String>, d: Seq<char>) -> Seq<char> {
    match v {
        Some(s) => s@,
        None => d,
    }
}

fn string_or(v: Option<String>, d: &str) -> (r: String)
    ensures
        r@ == text_or(v, d@),
{
    match v {
        Some(s) => s,
        None => String::from_str(d),
    }
}

/// The settings as read from `judge_cpp.json`, each missing entry at its
/// default: `g++`, `c++17`, `O2` and no extra flags. All `None` gives the
/// settings the file is created with.
pub fn compile_settings(
    compiler: Option<String>,
    cpp_standard: Option<String>,
    optimization: Option<String>,
    extra_flags: Option<Vec<String>>,
) -> (r: CompileSettings)
    ensures
        r.compiler@ == text_or(compiler, "g++"@),
        r.cpp_standard@ == text_or(cpp_standard, "c++17"@),
        r.optimization@ == text_or(optimization, "O2"@),
        strings_view(r.extra_flags@) == match extra_flags {
            Some(f) => strings_view(f@),
            None => Seq::<Seq<char>>::empty(),
        },
{
    let flags = match extra_flags {
        Some(f) => f,
        None => Vec::new(),
    };
    proof {
        if flags@.len() == 0 {
            assert(strings_view(flags@) =~= Seq::<Seq<char>>::empty());
        }
    }
    CompileSettings {
        compiler: string_or(compiler, "g++"),
        cpp_standard: string_or(cpp_standard, "c++17"),
        optimization: string_or(optimization, "O2"),
        extra_flags: flags,
    }
}

/// The configuration with the settings applied: a C++ source is compiled
/// with the configured standard and optimization level; a Python source
/// is left as it is.
pub fn apply_settings(config: CompileConfig, settings: &CompileSettings) -> (r: CompileConfig)
    ensures
        r.language@ == config.language@,
        r.source@ == config.source@,
        config.language@ == "cpp"@ ==> r.cpp_std@ == settings.cpp_standard@ && r.optimization@
            == settings.optimization@,
        config.language@ != "cpp"@ ==> r.cpp_std@ == config.cpp_std@ && r.optimization@
            == config.optimization@,
{
    if str_eq(config.language.as_str(), "cpp") {
        CompileConfig {
            language: config.language,
            source: config.source,
            cpp_std: settings.cpp_standard.clone(),
            optimization: settings.optimization.clone(),
        }
    } else {
        config
    }
}

/// The compiler arguments: the source, `-std=`, the `-O` flag, warnings,
/// the `LOCAL` define, the output binary, the configured extra flags, then
/// the flags of the command line.
pub open spec fn cpp_args(
    problem_dir: Seq<char>,
    c: CompileConfig,
    flag: Seq<char>,
    extra_flags: Seq<String>,
    cflags: Seq<String>,
) -> Seq<Seq<char>> {
    seq![
        join_path(problem_dir, c.source@),
        "-std="@ + c.cpp_std@,
        "-"@ + flag,
        "-pipe"@,
        "-Wall"@,
        "-Wextra"@,
        "-DLOCAL=1"@,
        "-o"@,
        join_path(problem_dir, ".luogu_solution"@),
    ] + strings_view(extra_flags) + strings_view(cflags)
}

fn append_strings(args: &mut Vec<String>, xs: &Vec<String>)
    ensures
        strings_view(final(args)@) == strings_view(old(args)@) + strings_view(xs@),
{
    let ghost start = strings_view(args@);
    let mut i: usize = 0;
    while i < xs.len()
        invariant
            i <= xs@.len(),
            strings_view(args@) == start + strings_view(xs@.take(i as int)),
        decreases xs.len() - i,
    {
        let ghost before = args@;
        args.push(xs[i].clone());
        proof {
            assert(strings_view(args@) =~= strings_view(before).push(xs@[i as int]@));
            assert(strings_view(xs@.take(i + 1)) =~= strings_view(xs@.take(i as int)).push(
                xs@[i as int]@,
            ));
        }
        i = i + 1;
    }
    assert(xs@.take(xs@.len() as int) =~= xs@);
}

/// The arguments of the compiler call that compiles the configured source.
pub fn cpp_compile_args(
    problem_dir: &str,
    config: &CompileConfig,
    extra_flags: &Vec<String>,
    cflags: &Vec<String>,
) -> (r: Result<Vec<String>, JudgeError>)
    ensures
        match r {
            Ok(args) => opt_flag_of(config.optimization@) matches Some(flag) && strings_view(args@)
                == cpp_args(problem_dir@, *config, flag, extra_flags@, cflags@),
            Err(e) => opt_flag_of(config.optimization@) is None && (
            e matches JudgeError::UnsupportedOpt(x) && x@ == config.optimization@),
        },
{
    let flag = parse_opt_level(config.optimization.as_str())?;
    let mut args: Vec<String> = Vec::new();
    args.push(join_paths(problem_dir, config.source.as_str()));
    args.push(concat2("-std=", config.cpp_std.as_str()));
    args.push(concat2("-", flag.as_str()));
    args.push(String::from_str("-pipe"));
    args.push(String::from_str("-Wall"));
    args.push(String::from_str("-Wextra"));
    args.push(String::from_str("-DLOCAL=1"));
    args.push(String::from_str("-o"));
    args.push(binary_path(problem_dir));
    assert(strings_view(args@) =~= seq![
        join_path(problem_dir@, config.source@),
        "-std="@ + config.cpp_std@,
        "-"@ + flag@,
        "-pipe"@,
        "-Wall"@,
        "-Wextra"@,
        "-DLOCAL=1"@,
        "-o"@,
        join_path(problem_dir@, ".luogu_solution"@),
    ]);
    append_strings(&mut args, extra_flags);
    append_strings(&mut args, cflags);
    Ok(args)
}

/// The arguments of the `python3` syntax check.
pub fn python_check_args(problem_dir: &str, config: &CompileConfig) -> (r: Vec<String>)
    ensures
        r@.map_values(|a: String| a@) == seq!["-m"@, "py_compile"@, join_path(
            problem_dir@,
            config.source@,
        )],
{
    let mut args: Vec<String> = Vec::new();
    args.push(String::from_str("-m"));
    args.push(String::from_str("py_compile"));
    args.push(join_paths(problem_dir, config.source.as_str()));
    assert(args@.map_values(|a: String| a@) =~= seq!["-m"@, "py_compile"@, join_path(
        problem_dir@,
        config.source@,
    )]);
    args
}

/// How a sample is run: the compiled binary for C++, `python3 <source>` otherwise.
pub fn run_command(problem_dir: &str, config: &CompileConfig) -> (r: (String, Vec<String>))
    ensures
        config.language@ == "cpp"@ ==> r.0@ == join_path(problem_dir@, ".luogu_solution"@)
            && r.1@.len() == 0,
        config.language@ != "cpp"@ ==> r.0@ == "python3"@ && r.1@.len() == 1 && r.1@[0]@
            == join_path(problem_dir@, config.source@),
{
    if str_eq(config.language.as_str(), "cpp") {
        (binary_path(problem_dir), Vec::new())
    } else {
        let mut args: Vec<String> = Vec::new();
        args.push(join_paths(problem_dir, config.source.as_str()));
        (String::from_str("python3"), args)
    }
}

// ── Verdicts ────────────────────────────────────────────────────────

/// What happened when a sample was run.
pub enum RunOutcome {
    /// The sample has no `.out` file.
    MissingExpected,
    /// The program did not finish within the time limit.
    TimedOut,
    /// The program exited; `code` is its exit code when it has one.
    Exited { success: bool, code: Option<i32> },
}

/// The verdict for one sample.
pub enum Verdict {
    NoExpected,
    TimeLimit,
    RuntimeError { code: Option<i32> },
    Accepted,
    WrongAnswer { diff: String },
}

/// The verdict for a run: accepted exactly when the program exited
/// successfully and its output has the same tokens as the expected output.
pub open spec fn verdict_for(o: RunOutcome, expected: Seq<char>, actual: Seq<char>, v: Verdict) -> bool {
    match o {
        RunOutcome::MissingExpected => v is NoExpected,
        RunOutcome::TimedOut => v is TimeLimit,
        RunOutcome::Exited { success, code } => if !success {
            v == Verdict::RuntimeError { code }
        } else if tokens(actual) == tokens(expected) {
            v is Accepted
        } else {
            v matches Verdict::WrongAnswer { diff } && diff@ == diff_message(expected, actual)
        },
    }
}

/// A program that exits successfully is accepted exactly when its output
/// has the same whitespace separated tokens as the expected output: a
/// missing, extra or different token is a wrong answer, reported with the
/// difference.
pub proof fn law_accepted_exactly_when_tokens_equal(
    code: Option<i32>,
    expected: Seq<char>,
    actual: Seq<char>,
    v: Verdict,
)
    requires
        verdict_for(RunOutcome::Exited { success: true, code }, expected, actual, v),
    ensures
        v is Accepted <==> tokens(actual) == tokens(expected),
        !(v is Accepted) ==> (v matches Verdict::WrongAnswer { diff } && diff@ == diff_message(
            expected,
            actual,
        )),
        tokens(actual).len() != tokens(expected).len() ==> !(v is Accepted),
{
}

/// A program that fails or runs out of time is never accepted, whatever it printed.
pub proof fn law_failed_run_never_accepted(o: RunOutcome, expected: Seq<char>, actual: Seq<char>, v: Verdict)
    requires
        verdict_for(o, expected, actual, v),
        !(o matches RunOutcome::Exited { success: true, .. }),
    ensures
        !(v is Accepted),
{
}

pub fn judge_sample(outcome: &RunOutcome, expected: &str, actual: &str) -> (v: Verdict)
    ensures
        verdict_for(*outcome, expected@, actual@, v),
{
    match outcome {
        RunOutcome::MissingExpected => Verdict::NoExpected,
        RunOutcome::TimedOut => Verdict::TimeLimit,
        RunOutcome::Exited { success, code } => {
            if !*success {
                Verdict::RuntimeError { code: *code }
            } else if same_tokens(actual, expected) {
                Verdict::Accepted
            } else {
                Verdict::WrongAnswer { diff: build_diff_message(expected, actual) }
            }
        },
    }
}

pub open spec fn verdict_status(v: Verdict) -> Seq<char> {
    match v {
        Verdict::NoExpected => "NO_EXPECTED"@,
        Verdict::TimeLimit => "TLE"@,
        Verdict::RuntimeError { .. } => "RE"@,
        Verdict::Accepted => "AC"@,
        Verdict::WrongAnswer { .. } => "WA"@,
    }
}

/// `format!("{:?}", code)` for an optional exit code.
pub open spec fn debug_exit_code(code: Option<i32>) -> Seq<char> {
    match code {
        Some(c) => "Some("@ + dec_int(c as int) + ")"@,
        None => "None"@,
    }
}

/// The message shown for a verdict; `missing_path` names the absent
/// expected output file and `timeout_text` is the time limit in seconds.
pub open spec fn verdict_message(v: Verdict, missing_path: Seq<char>, timeout_text: Seq<char>) -> Seq<
    char,
> {
    match v {
        Verdict::NoExpected => "missing "@ + missing_path,
        Verdict::TimeLimit => "timeout after "@ + timeout_text + "s"@,
        Verdict::RuntimeError { code } => "exit code "@ + debug_exit_code(code),
        Verdict::Accepted => "accepted"@,
        Verdict::WrongAnswer { diff } => "wrong answer\n"@ + diff@,
    }
}

impl Verdict {
    pub fn status(&self) -> (r: String)
        ensures
            r@ == verdict_status(*self),
    {
        match self {
            Verdict::NoExpected => String::from_str("NO_EXPECTED"),
            Verdict::TimeLimit => String::from_str("TLE"),
            Verdict::RuntimeError { .. } => String::from_str("RE"),
            Verdict::Accepted => String::from_str("AC"),
            Verdict::WrongAnswer { .. } => String::from_str("WA"),
        }
    }

    pub fn is_accepted(&self) -> (r: bool)
        ensures
            r == (*self is Accepted),
    {
        match self {
            Verdict::Accepted => true,
            _ => false,
        }
    }

    pub fn message(&self, missing_path: &str, timeout_text: &str) -> (r: String)
        ensures
            r@ == verdict_message(*self, missing_path@, timeout_text@),
    {
        match self {
            Verdict::NoExpected => concat2("missing ", missing_path),
            Verdict::TimeLimit => concat3("timeout after ", timeout_text, "s"),
            Verdict::RuntimeError { code } => {
                let mut out: Vec<char> = chars_of("exit code ");
                match code {
                    Some(c) => {
                        push_str(&mut out, "Some(");
                        let d = int_chars(*c as i64);
                        push_all(&mut out, d.as_slice());
                        out.push(')');
                        proof {
                            reveal_strlit(")");
                            assert(out@ =~= "exit code "@ + debug_exit_code(*code));
                        }
                    },
                    None => {
                        push_str(&mut out, "None");
                    },
                }
                string_of(out.as_slice())
            },
            Verdict::Accepted => String::from_str("accepted"),
            Verdict::WrongAnswer { diff } => concat2("wrong answer\n", diff.as_str()),
        }
    }
}

// ── Summary ─────────────────────────────────────────────────────────

pub open spec fn count_accepted(vs: Seq<Verdict>) -> nat
    decreases vs.len(),
{
    if vs.len() == 0 {
        0
    } else {
        count_accepted(vs.drop_last()) + if vs.last() is Accepted {
            1nat
        } else {
            0nat
        }
    }
}

/// The outcome of a judge run, as recorded in the judge log.
pub struct JudgeSummary {
    pub pass_count: usize,
    pub test_count: usize,
    pub success: bool,
    pub status: String,
    /// The process exit code: 0 when every sample passed, 2 otherwise.
    pub exit_code: i32,
}

pub proof fn lemma_count_accepted_bound(vs: Seq<Verdict>)
    ensures
        count_accepted(vs) <= vs.len(),
        count_accepted(vs) == vs.len() <==> forall|i: int| 0 <= i < vs.len() ==> #[trigger] vs[i] is Accepted,
    decreases vs.len(),
{
    if vs.len() > 0 {
        let p = vs.drop_last();
        lemma_count_accepted_bound(p);
        if count_accepted(vs) == vs.len() {
            assert forall|i: int| 0 <= i < vs.len() implies #[trigger] vs[i] is Accepted by {
                if i < vs.len() - 1 {
                    assert(vs[i] == p[i]);
                }
            }
        }
        if forall|i: int| 0 <= i < vs.len() ==> #[trigger] vs[i] is Accepted {
            assert forall|i: int| 0 <= i < p.len() implies #[trigger] p[i] is Accepted by {
                assert(p[i] == vs[i]);
            }
            assert(vs[vs.len() - 1] is Accepted);
        }
    }
}

/// Counts the accepted samples; the run succeeds when all of them are accepted.
pub fn summarize(verdicts: &Vec<Verdict>) -> (r: JudgeSummary)
    ensures
        r.pass_count == count_accepted(verdicts@),
        r.test_count == verdicts@.len(),
        r.success == (r.pass_count == r.test_count),
        r.success <==> forall|i: int| 0 <= i < verdicts@.len() ==> #[trigger] verdicts@[i] is Accepted,
        r.status@ == (if r.success {
            "AC"@
        } else {
            "FAILED"@
        }),
        r.exit_code == (if r.success {
            0i32
        } else {
            2i32
        }),
{
    let mut pass: usize = 0;
    let mut i: usize = 0;
    while i < verdicts.len()
        invariant
            i <= verdicts@.len(),
            pass == count_accepted(verdicts@.take(i as int)),
            pass <= i,
        decreases verdicts.len() - i,
    {
        proof {
            assert(verdicts@.take(i + 1).drop_last() =~= verdicts@.take(i as int));
            assert(verdicts@.take(i + 1).last() == verdicts@[i as int]);
        }
        if verdicts[i].is_accepted() {
            pass = pass + 1;
        }
        i = i + 1;
    }
    proof {
        assert(verdicts@.take(verdicts@.len() as int) =~= verdicts@);
        lemma_count_accepted_bound(verdicts@);
    }
    let success = pass == verdicts.len();
    JudgeSummary {
        pass_count: pass,
        test_count: verdicts.len(),
        success,
        status: if success {
            String::from_str("AC")
        } else {
            String::from_str("FAILED")
        },
        exit_code: if success {
            0
        } else {
            2
        },
    }
}

/// The summary recorded when compilation fails; the process exits with 1.
pub fn compile_error_summary() -> (r: JudgeSummary)
    ensures
        r.pass_count == 0,
        r.test_count == 0,
        !r.success,
        r.status@ == "COMPILE_ERROR"@,
        r.exit_code == 1,
{
    JudgeSummary {
        pass_count: 0,
        test_count: 0,
        success: false,
        status: String::from_str("COMPILE_ERROR"),
        exit_code: 1,
    }
}


// ── Samples ─────────────────────────────────────────────────────────

/// `a` comes before or equals `b` in character (code point) order, which
/// is the byte order of their UTF-8 encodings and so the order of paths
/// that differ only in their file name.
pub open spec fn name_le(a: Seq<char>, b: Seq<char>) -> bool
    decreases a.len(),
{
    if a.len() == 0 {
        true
    } else if b.len() == 0 {
        false
    } else if (a[0] as u32) < (b[0] as u32) {
        true
    } else if (a[0] as u32) > (b[0] as u32) {
        false
    } else {
        name_le(a.drop_first(), b.drop_first())
    }
}

pub proof fn lemma_name_le_total(a: Seq<char>, b: Seq<char>)
    ensures
        name_le(a, b) || name_le(b, a),
    decreases a.len(),
{
    if a.len() > 0 && b.len() > 0 && a[0] as u32 == b[0] as u32 {
        lemma_name_le_total(a.drop_first(), b.drop_first());
    }
}

pub proof fn lemma_name_le_trans(a: Seq<char>, b: Seq<char>, c: Seq<char>)
    requires
        name_le(a, b),
        name_le(b, c),
    ensures
        name_le(a, c),
    decreases a.len(),
{
    if a.len() > 0 && b.len() > 0 && c.len() > 0 && a[0] as u32 == b[0] as u32 && b[0] as u32
        == c[0] as u32 {
        lemma_name_le_trans(a.drop_first(), b.drop_first(), c.drop_first());
    }
}

pub fn name_le_exec(a: &[char], b: &[char]) -> (r: bool)
    ensures
        r == name_le(a@, b@),
{
    let mut i: usize = 0;
    proof {
        assert(a@.skip(0) =~= a@);
        assert(b@.skip(0) =~= b@);
    }
    while i < a.len() && i < b.len() && (a[i] as u32) == (b[i] as u32)
        invariant
            i <= a@.len(),
            i <= b@.len(),
            name_le(a@, b@) == name_le(a@.skip(i as int), b@.skip(i as int)),
        decreases a.len() - i,
    {
        proof {
            assert(a@.skip(i as int).drop_first() =~= a@.skip(i + 1));
            assert(b@.skip(i as int).drop_first() =~= b@.skip(i + 1));
            assert(a@.skip(i as int)[0] == a@[i as int]);
            assert(b@.skip(i as int)[0] == b@[i as int]);
        }
        i = i + 1;
    }
    proof {
        if i < a@.len() {
            assert(a@.skip(i as int)[0] == a@[i as int]);
        }
        if i < b@.len() {
            assert(b@.skip(i as int)[0] == b@[i as int]);
        }
    }
    if i == a.len() {
        true
    } else if i == b.len() {
        false
    } else {
        (a[i] as u32) < (b[i] as u32)
    }
}

fn insertion_point(out: &Vec<(String, String)>, x: &[char]) -> (p: usize)
    ensures
        p <= out@.len(),
        forall|k: int| 0 <= k < p ==> name_le(#[trigger] out@[k].0@, x@),
        p < out@.len() ==> !name_le(out@[p as int].0@, x@),
{
    let mut p: usize = 0;
    while p < out.len()
        invariant
            p <= out@.len(),
            forall|k: int| 0 <= k < p ==> name_le(#[trigger] out@[k].0@, x@),
        decreases out.len() - p,
    {
        let k = chars_of(out[p].0.as_str());
        if !name_le_exec(k.as_slice(), x) {
            return p;
        }
        p = p + 1;
    }
    p
}

/// A file name with the extension `in` (`Path::extension`): it ends in
/// `.in` and has a non-empty stem.
pub open spec fn is_sample_input(name: Seq<char>) -> bool {
    name.len() >= 4 && ends_with(name, ".in"@)
}

/// The expected output file of a sample input (`Path::with_extension("out")`).
pub open spec fn expected_output_name(input: Seq<char>) -> Seq<char> {
    input.take(input.len() - 3) + ".out"@
}

/// The sample inputs among `names`, in order.
pub open spec fn sample_inputs(names: Seq<String>) -> Seq<Seq<char>>
    decreases names.len(),
{
    if names.len() == 0 {
        seq![]
    } else if is_sample_input(names.last()@) {
        sample_inputs(names.drop_last()).push(names.last()@)
    } else {
        sample_inputs(names.drop_last())
    }
}

pub open spec fn firsts(v: Seq<(String, String)>) -> Seq<Seq<char>> {
    v.map_values(|p: (String, String)| p.0@)
}

/// The samples of a problem directory whose file names are `names`: each
/// `.in` file with its `.out` file, ordered by name.
pub fn collect_samples(names: &Vec<String>) -> (r: Vec<(String, String)>)
    ensures
        firsts(r@).to_multiset() == sample_inputs(names@).to_multiset(),
        forall|k: int| 0 <= k < r@.len() ==> #[trigger] r@[k].1@ == expected_output_name(r@[k].0@),
        forall|i: int, j: int| 0 <= i < j < r@.len() ==> name_le(r@[i].0@, r@[j].0@),
{
    broadcast use vstd::seq_lib::to_multiset_build, vstd::seq_lib::to_multiset_insert;

    let mut out: Vec<(String, String)> = Vec::new();
    let mut i: usize = 0;
    proof {
        assert(names@.take(0) =~= Seq::<String>::empty());
        assert(firsts(out@) =~= Seq::<Seq<char>>::empty());
    }
    while i < names.len()
        invariant
            i <= names@.len(),
            firsts(out@).to_multiset() == sample_inputs(names@.take(i as int)).to_multiset(),
            forall|k: int| 0 <= k < out@.len() ==> #[trigger] out@[k].1@ == expected_output_name(
                out@[k].0@,
            ),
            forall|a: int, b: int| 0 <= a < b < out@.len() ==> name_le(out@[a].0@, out@[b].0@),
        decreases names.len() - i,
    {
        proof {
            assert(names@.take(i + 1).drop_last() =~= names@.take(i as int));
            assert(names@.take(i + 1).last() == names@[i as int]);
        }
        let name = names[i].as_str();
        let cs = chars_of(name);
        if cs.len() >= 4 && str_ends_with(name, ".in") {
            let mut stem: Vec<char> = Vec::new();
            let mut m: usize = 0;
            while m < cs.len() - 3
                invariant
                    cs@.len() >= 4,
                    m <= cs@.len() - 3,
                    stem@ =~= cs@.take(m as int),
                decreases cs.len() - 3 - m,
            {
                stem.push(cs[m]);
                m = m + 1;
            }
            push_str(&mut stem, ".out");
            let ghost x = name@;
            let p = insertion_point(&out, cs.as_slice());
            let ghost before = out@;
            proof {
                if p < before.len() {
                    lemma_name_le_total(before[p as int].0@, x);
                    assert forall|k: int| p <= k < before.len() implies name_le(x, #[trigger] before[k].0@) by {
                        if k > p {
                            lemma_name_le_trans(x, before[p as int].0@, before[k].0@);
                        }
                    }
                }
            }
            out.insert(p, (String::from_str(name), string_of(stem.as_slice())));
            proof {
                assert(firsts(out@) =~= firsts(before).insert(p as int, x));
                assert(is_sample_input(x));
                assert(sample_inputs(names@.take(i + 1)) == sample_inputs(names@.take(i as int)).push(x));
                vstd::seq_lib::to_multiset_insert(firsts(before), p as int, x);
                vstd::seq_lib::to_multiset_build(sample_inputs(names@.take(i as int)), x);
                assert forall|a: int, b: int| 0 <= a < b < out@.len() implies name_le(
                    out@[a].0@,
                    out@[b].0@,
                ) by {
                    if a < p && b == p {
                    } else if a < p && b > p {
                        assert(out@[b] == before[b - 1]);
                        assert(name_le(before[a].0@, x));
                        lemma_name_le_trans(before[a].0@, x, before[b - 1].0@);
                    } else if a == p {
                        assert(out@[b] == before[b - 1]);
                    } else if a > p {
                        assert(out@[a] == before[a - 1]);
                        assert(out@[b] == before[b - 1]);
                    } else {
                        assert(out@[a] == before[a]);
                        assert(out@[b] == before[b]);
                    }
                }
                assert forall|k: int| 0 <= k < out@.len() implies #[trigger] out@[k].1@
                    == expected_output_name(out@[k].0@) by {
                    if k < p {
                        assert(out@[k] == before[k]);
                    } else if k > p {
                        assert(out@[k] == before[k - 1]);
                    } else {
                        assert(stem@ =~= x.take(x.len() - 3) + ".out"@);
                    }
                }
            }
        } else {
            proof {
                assert(!is_sample_input(name@));
                assert(sample_inputs(names@.take(i + 1)) == sample_inputs(names@.take(i as int)));
            }
        }
        i = i + 1;
    }
    assert(names@.take(names@.len() as int) =~= names@);
    out
}

} // verus!
