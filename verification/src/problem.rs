//! Turning a fetched problem into its Markdown statement and metadata.

use crate::json::{
    json_at, json_get, json_i64, opt_get, opt_i64, opt_ref, opt_str, opt_str_ref,
    JsonValue,
};
use crate::labels::{difficulty_label, difficulty_name};
use crate::models::{ParsedProblem, ProblemData, ProblemRecord};
use crate::text::{chars_of, dec, dec_chars, is_blank, push_all, push_str, string_of, trim};
use vstd::prelude::*;

verus! {

pub open spec fn pair_view(p: (String, String)) -> (Seq<char>, Seq<char>) {
    (p.0@, p.1@)
}

pub open spec fn pairs_view(v: Seq<(String, String)>) -> Seq<(Seq<char>, Seq<char>)> {
    v.map_values(|p: (String, String)| pair_view(p))
}

/// The Markdown of sample `i` (shown as sample `i + 1`).
pub open spec fn sample_block(i: nat, input: Seq<char>, output: Seq<char>) -> Seq<char> {
    "\n\n## 样例 #"@ + dec(i + 1) + "\n\n"@ + "### 输入\n\n```text\n"@ + input
        + "\n```\n\n### 输出\n\n```text\n"@ + output + "\n```\n"@
}

/// The Markdown of the first `n` samples, in order.
pub open spec fn sample_blocks(s: Seq<(Seq<char>, Seq<char>)>, n: nat) -> Seq<char>
    decreases n,
{
    if n == 0 {
        seq![]
    } else {
        sample_blocks(s, (n - 1) as nat) + sample_block(
            (n - 1) as nat,
            s[n - 1].0,
            s[n - 1].1,
        )
    }
}

/// A section that is present only when its text is not blank.
pub open spec fn optional_section(head: Seq<char>, body: Seq<char>, tail: Seq<char>) -> Seq<char> {
    if trim(body).len() > 0 {
        head + body + tail
    } else {
        seq![]
    }
}

/// The problem statement in Markdown: title, background (when not blank),
/// description, input and output formats, the samples in order, and the
/// hint (when not blank).
pub open spec fn statement_markdown(
    title: Seq<char>,
    background: Seq<char>,
    description: Seq<char>,
    input_format: Seq<char>,
    output_format: Seq<char>,
    samples: Seq<(Seq<char>, Seq<char>)>,
    hint: Seq<char>,
) -> Seq<char> {
    "# "@ + title + "\n\n"@ + optional_section("## 题目背景\n\n"@, background, "\n\n"@)
        + "## 题目描述\n\n"@ + description + "\n\n## 输入格式\n\n"@ + input_format
        + "\n\n## 输出格式\n\n"@ + output_format + sample_blocks(samples, samples.len())
        + optional_section("\n\n## 提示\n\n"@, hint, "\n"@)
}

fn push_sample_block(out: &mut Vec<char>, i: usize, input: &str, output: &str)
    requires
        i < usize::MAX,
    ensures
        final(out)@ == old(out)@ + sample_block(i as nat, input@, output@),
{
    push_str(out, "\n\n## 样例 #");
    let d = dec_chars((i + 1) as u64);
    push_all(out, d.as_slice());
    push_str(out, "\n\n");
    push_str(out, "### 输入\n\n```text\n");
    push_str(out, input);
    push_str(out, "\n```\n\n### 输出\n\n```text\n");
    push_str(out, output);
    push_str(out, "\n```\n");
}

fn push_optional_section(out: &mut Vec<char>, head: &str, body: &str, tail: &str)
    ensures
        final(out)@ == old(out)@ + optional_section(head@, body@, tail@),
{
    if !is_blank(body) {
        push_str(out, head);
        push_str(out, body);
        push_str(out, tail);
    } else {
        assert(old(out)@ + Seq::<char>::empty() =~= old(out)@);
    }
}

/// Renders the statement; see `statement_markdown`.
pub fn render_statement(
    title: &str,
    background: &str,
    description: &str,
    input_format: &str,
    output_format: &str,
    samples: &Vec<(String, String)>,
    hint: &str,
) -> (r: String)
    ensures
        r@ == statement_markdown(
            title@,
            background@,
            description@,
            input_format@,
            output_format@,
            pairs_view(samples@),
            hint@,
        ),
{
    let ghost sv = pairs_view(samples@);
    let mut out: Vec<char> = chars_of("# ");
    push_str(&mut out, title);
    push_str(&mut out, "\n\n");
    push_optional_section(&mut out, "## 题目背景\n\n", background, "\n\n");
    push_str(&mut out, "## 题目描述\n\n");
    push_str(&mut out, description);
    push_str(&mut out, "\n\n## 输入格式\n\n");
    push_str(&mut out, input_format);
    push_str(&mut out, "\n\n## 输出格式\n\n");
    push_str(&mut out, output_format);
    let ghost before = out@;
    let mut i: usize = 0;
    while i < samples.len()
        invariant
            i <= samples@.len(),
            sv == pairs_view(samples@),
            out@ == before + sample_blocks(sv, i as nat),
        decreases samples.len() - i,
    {
        push_sample_block(&mut out, i, samples[i].0.as_str(), samples[i].1.as_str());
        i = i + 1;
    }
    push_optional_section(&mut out, "\n\n## 提示\n\n", hint, "\n");
    string_of(out.as_slice())
}

fn str_or_empty(s: &Option<String>) -> (r: &str)
    ensures
        r@ == (match s {
            Some(x) => x@,
            None => ""@,
        }),
{
    match s {
        Some(x) => x.as_str(),
        None => "",
    }
}

/// The largest value, `iter().max()`.
pub open spec fn seq_max(s: Seq<i64>) -> Option<i64>
    decreases s.len(),
{
    if s.len() == 0 {
        None
    } else {
        match seq_max(s.drop_last()) {
            Some(m) => if s.last() >= m {
                Some(s.last())
            } else {
                Some(m)
            },
            None => Some(s.last()),
        }
    }
}

/// The largest limit is one of the limits and no limit exceeds it; there is
/// none exactly when there are no limits.
pub proof fn law_seq_max_is_maximum(s: Seq<i64>)
    ensures
        s.len() == 0 ==> seq_max(s) is None,
        s.len() > 0 ==> (seq_max(s) matches Some(m) && s.contains(m) && forall|i: int|
            0 <= i < s.len() ==> #[trigger] s[i] <= m),
    decreases s.len(),
{
    if s.len() > 0 {
        let p = s.drop_last();
        law_seq_max_is_maximum(p);
        let m = seq_max(s)->0;
        assert(s[s.len() - 1] == s.last());
        if p.len() > 0 {
            let pm = seq_max(p)->0;
            let j = choose|j: int| 0 <= j < p.len() && p[j] == pm;
            assert(s[j] == p[j]);
        }
        assert(s.contains(m));
        assert forall|i: int| 0 <= i < s.len() implies #[trigger] s[i] <= m by {
            if i < s.len() - 1 {
                assert(s[i] == p[i]);
            }
        }
    }
}

pub fn max_of(v: &Vec<i64>) -> (r: Option<i64>)
    ensures
        r == seq_max(v@),
{
    let mut best: Option<i64> = None;
    let mut i: usize = 0;
    while i < v.len()
        invariant
            i <= v@.len(),
            best == seq_max(v@.take(i as int)),
        decreases v.len() - i,
    {
        proof {
            assert(v@.take(i + 1).drop_last() =~= v@.take(i as int));
            assert(v@.take(i + 1).last() == v@[i as int]);
        }
        best = match best {
            Some(m) => if v[i] >= m {
                Some(v[i])
            } else {
                Some(m)
            },
            None => Some(v[i]),
        };
        i = i + 1;
    }
    assert(v@.take(v@.len() as int) =~= v@);
    best
}

pub open spec fn opt_i32(d: Option<i64>) -> Option<i32> {
    match d {
        Some(v) => Some(v as i32),
        None => None,
    }
}

fn cast_i32(d: Option<i64>) -> (r: Option<i32>)
    ensures
        r == opt_i32(d),
{
    match d {
        Some(v) => Some(v as i32),
        None => None,
    }
}

/// The provider's name, `provider.get("name").as_str()`.
pub open spec fn provider_name(p: Option<JsonValue>) -> Option<Seq<char>> {
    opt_str(opt_get(p, "name"@))
}

pub open spec fn opt_string_view(o: Option<String>) -> Option<Seq<char>> {
    match o {
        Some(s) => Some(s@),
        None => None,
    }
}

/// What the problem API's `data` gives as a problem: its id, title,
/// difficulty, largest limits, tags and samples, the statement built from
/// its content, and the provider's name.
pub open spec fn converted_problem(data: ProblemData, r: ParsedProblem) -> bool {
    &&& r.pid@ == data.problem.pid@
    &&& r.title@ == data.problem.content.name@
    &&& r.difficulty == opt_i32(data.problem.difficulty)
    &&& r.limits_time_ms == seq_max(data.problem.limits.time@)
    &&& r.limits_memory_kb == seq_max(data.problem.limits.memory@)
    &&& r.tags@ == data.problem.tags@
    &&& r.samples@ == data.problem.samples@
    &&& r.markdown@ == statement_markdown(
        data.problem.content.name@,
        opt_string_view(data.problem.content.background).unwrap_or(""@),
        opt_string_view(data.problem.content.description).unwrap_or(""@),
        opt_string_view(data.problem.content.formatI).unwrap_or(""@),
        opt_string_view(data.problem.content.formatO).unwrap_or(""@),
        pairs_view(data.problem.samples@),
        opt_string_view(data.problem.content.hint).unwrap_or(""@),
    )
    &&& opt_string_view(r.provider) == provider_name(data.problem.provider)
    &&& r.total_accepted == data.problem.totalAccepted
    &&& r.total_submit == data.problem.totalSubmit
}

/// Builds the statement and metadata of a problem from the problem API's data.
pub fn convert_problem_data(data: ProblemData) -> (r: ParsedProblem)
    ensures
        converted_problem(data, r),
{
    let p = data.problem;
    let content = p.content;
    let markdown = render_statement(
        content.name.as_str(),
        str_or_empty(&content.background),
        str_or_empty(&content.description),
        str_or_empty(&content.formatI),
        str_or_empty(&content.formatO),
        &p.samples,
        str_or_empty(&content.hint),
    );
    let time_limit = max_of(&p.limits.time);
    let memory_limit = max_of(&p.limits.memory);
    let provider = match &p.provider {
        Some(v) => match v.get("name") {
            Some(n) => match n.as_str() {
                Some(s) => Some(String::from_str(s)),
                None => None,
            },
            None => None,
        },
        None => None,
    };
    ParsedProblem {
        pid: p.pid,
        title: content.name,
        difficulty: cast_i32(p.difficulty),
        limits_time_ms: time_limit,
        limits_memory_kb: memory_limit,
        tags: p.tags,
        markdown,
        samples: p.samples,
        provider,
        total_accepted: p.totalAccepted,
        total_submit: p.totalSubmit,
    }
}


// ── Reading the page payload ────────────────────────────────────────

/// Why a problem page payload cannot be read.
pub enum PayloadError {
    /// The page has no `lentille-context` script.
    NoLentilleContext,
    /// The payload has no problem under `data` or `currentData`.
    MissingProblemData,
}

impl PayloadError {
    pub fn message(&self) -> (r: &'static str)
        ensures
            r@ == (match *self {
                PayloadError::NoLentilleContext => "cannot find lentille-context payload"@,
                PayloadError::MissingProblemData => "payload missing problem data"@,
            }),
    {
        match self {
            PayloadError::NoLentilleContext => "cannot find lentille-context payload",
            PayloadError::MissingProblemData => "payload missing problem data",
        }
    }
}

/// The problem object of a page payload: `data.problem`, else `currentData.problem`.
pub open spec fn problem_node(root: JsonValue) -> Option<JsonValue> {
    match opt_get(json_get(root, "data"@), "problem"@) {
        Some(p) => Some(p),
        None => opt_get(json_get(root, "currentData"@), "problem"@),
    }
}

/// The integers among `items`, in order (`filter_map(as_i64)`).
pub open spec fn ints_of(items: Seq<JsonValue>) -> Seq<i64>
    decreases items.len(),
{
    if items.len() == 0 {
        seq![]
    } else {
        match json_i64(items.last()) {
            Some(n) => ints_of(items.drop_last()).push(n),
            None => ints_of(items.drop_last()),
        }
    }
}

pub open spec fn array_items(v: Option<JsonValue>) -> Option<Seq<JsonValue>> {
    match v {
        Some(JsonValue::Array(items)) => Some(items@),
        _ => None,
    }
}

pub open spec fn payload_tags(problem: JsonValue) -> Seq<i64> {
    match array_items(json_get(problem, "tags"@)) {
        Some(items) => ints_of(items),
        None => seq![],
    }
}

/// The largest integer limit under `limits.<key>`, when that is an array.
pub open spec fn payload_limit(problem: JsonValue, key: Seq<char>) -> Option<i64> {
    match json_get(problem, "limits"@) {
        Some(l) => match array_items(json_get(l, key)) {
            Some(items) => seq_max(ints_of(items)),
            None => None,
        },
        None => None,
    }
}

pub open spec fn str_or(v: Option<JsonValue>, d: Seq<char>) -> Seq<char> {
    match opt_str(v) {
        Some(s) => s,
        None => d,
    }
}

/// A sample pair `[input, output]`; a missing or non-string side is empty.
pub open spec fn payload_pair(x: JsonValue) -> (Seq<char>, Seq<char>) {
    (str_or(json_at(x, 0), ""@), str_or(json_at(x, 1), ""@))
}

/// The samples: the first of `samples` and `content.samples` that is an array.
pub open spec fn payload_samples(problem: JsonValue) -> Seq<(Seq<char>, Seq<char>)> {
    match array_items(json_get(problem, "samples"@)) {
        Some(items) => items.map_values(|x: JsonValue| payload_pair(x)),
        None => match array_items(opt_get(json_get(problem, "content"@), "samples"@)) {
            Some(items) => items.map_values(|x: JsonValue| payload_pair(x)),
            None => seq![],
        },
    }
}

/// The object the statement texts are read from: `content`, unless it is
/// missing or null, in which case the problem object itself.
pub open spec fn text_source(problem: JsonValue) -> JsonValue {
    match json_get(problem, "content"@) {
        Some(c) => if c is Null {
            problem
        } else {
            c
        },
        None => problem,
    }
}

/// The string under `key` when it is not blank.
pub open spec fn nonblank_text(src: JsonValue, key: Seq<char>) -> Option<Seq<char>> {
    match opt_str(json_get(src, key)) {
        Some(t) => if trim(t).len() > 0 {
            Some(t)
        } else {
            None
        },
        None => None,
    }
}

/// The first non-blank text under one of `keys`, or the empty text.
pub open spec fn pick_text(src: JsonValue, keys: Seq<Seq<char>>) -> Seq<char>
    decreases keys.len(),
{
    if keys.len() == 0 {
        ""@
    } else {
        match nonblank_text(src, keys[0]) {
            Some(t) => t,
            None => pick_text(src, keys.drop_first()),
        }
    }
}

fn nonblank_text_exec<'a>(src: &'a JsonValue, key: &str) -> (r: Option<&'a str>)
    ensures
        opt_str_ref(r) == nonblank_text(*src, key@),
{
    match src.get(key) {
        Some(v) => match v.as_str() {
            Some(t) => if !is_blank(t) {
                Some(t)
            } else {
                None
            },
            None => None,
        },
        None => None,
    }
}

fn ints_of_exec(items: &Vec<JsonValue>) -> (r: Vec<i64>)
    ensures
        r@ == ints_of(items@),
{
    let mut out: Vec<i64> = Vec::new();
    let mut i: usize = 0;
    while i < items.len()
        invariant
            i <= items@.len(),
            out@ == ints_of(items@.take(i as int)),
        decreases items.len() - i,
    {
        proof {
            assert(items@.take(i + 1).drop_last() =~= items@.take(i as int));
            assert(items@.take(i + 1).last() == items@[i as int]);
        }
        match items[i].as_i64() {
            Some(n) => out.push(n),
            None => {},
        }
        i = i + 1;
    }
    assert(items@.take(items@.len() as int) =~= items@);
    out
}

fn pair_exec(x: &JsonValue) -> (r: (String, String))
    ensures
        pair_view(r) == payload_pair(*x),
{
    let a = match x.at(0) {
        Some(v) => match v.as_str() {
            Some(s) => String::from_str(s),
            None => String::from_str(""),
        },
        None => String::from_str(""),
    };
    let b = match x.at(1) {
        Some(v) => match v.as_str() {
            Some(s) => String::from_str(s),
            None => String::from_str(""),
        },
        None => String::from_str(""),
    };
    (a, b)
}

fn pairs_exec(items: &Vec<JsonValue>) -> (r: Vec<(String, String)>)
    ensures
        pairs_view(r@) == items@.map_values(|x: JsonValue| payload_pair(x)),
{
    let mut out: Vec<(String, String)> = Vec::new();
    let mut i: usize = 0;
    while i < items.len()
        invariant
            i <= items@.len(),
            out@.len() == i,
            forall|k: int| 0 <= k < i ==> pair_view(#[trigger] out@[k]) == payload_pair(items@[k]),
        decreases items.len() - i,
    {
        out.push(pair_exec(&items[i]));
        i = i + 1;
    }
    assert(pairs_view(out@) =~= items@.map_values(|x: JsonValue| payload_pair(x)));
    out
}

fn limit_exec(problem: &JsonValue, key: &str) -> (r: Option<i64>)
    ensures
        r == payload_limit(*problem, key@),
{
    match problem.get("limits") {
        Some(l) => match l.get(key) {
            Some(v) => match v.as_array() {
                Some(items) => {
                    let ints = ints_of_exec(items);
                    max_of(&ints)
                },
                None => None,
            },
            None => None,
        },
        None => None,
    }
}

fn text_or_empty<'a>(t: Option<&'a str>) -> (r: &'a str)
    ensures
        r@ == (match t {
            Some(x) => x@,
            None => ""@,
        }),
{
    match t {
        Some(x) => x,
        None => "",
    }
}

fn find_problem(root: &JsonValue) -> (r: Option<&JsonValue>)
    ensures
        opt_ref(r) == problem_node(*root),
{
    let by_data = match root.get("data") {
        Some(d) => d.get("problem"),
        None => None,
    };
    match by_data {
        Some(p) => Some(p),
        None => match root.get("currentData") {
            Some(d) => d.get("problem"),
            None => None,
        },
    }
}

fn string_member_or(v: Option<&JsonValue>, d: &str) -> (r: String)
    ensures
        r@ == str_or(opt_ref(v), d@),
{
    match v {
        Some(x) => match x.as_str() {
            Some(s) => String::from_str(s),
            None => String::from_str(d),
        },
        None => String::from_str(d),
    }
}

fn title_of(problem: &JsonValue) -> (r: String)
    ensures
        r@ == str_or(opt_get(json_get(*problem, "content"@), "name"@), "Unknown Title"@),
{
    match problem.get("content") {
        Some(c) => string_member_or(c.get("name"), "Unknown Title"),
        None => string_member_or(None, "Unknown Title"),
    }
}

fn tags_of(problem: &JsonValue) -> (r: Vec<i64>)
    ensures
        r@ == payload_tags(*problem),
{
    match problem.get("tags") {
        Some(v) => match v.as_array() {
            Some(items) => ints_of_exec(items),
            None => Vec::new(),
        },
        None => Vec::new(),
    }
}

fn samples_of(problem: &JsonValue) -> (r: Vec<(String, String)>)
    ensures
        pairs_view(r@) == payload_samples(*problem),
{
    let from_problem = match problem.get("samples") {
        Some(v) => v.as_array(),
        None => None,
    };
    match from_problem {
        Some(items) => pairs_exec(items),
        None => {
            let from_content = match problem.get("content") {
                Some(c) => match c.get("samples") {
                    Some(v) => v.as_array(),
                    None => None,
                },
                None => None,
            };
            match from_content {
                Some(items) => pairs_exec(items),
                None => {
                    let v: Vec<(String, String)> = Vec::new();
                    assert(pairs_view(v@) =~= seq![]);
                    v
                },
            }
        },
    }
}

fn text_source_exec(problem: &JsonValue) -> (r: &JsonValue)
    ensures
        *r == text_source(*problem),
{
    match problem.get("content") {
        Some(c) => if c.is_null() {
            problem
        } else {
            c
        },
        None => problem,
    }
}

fn pick1<'a>(src: &'a JsonValue, k1: &str) -> (r: &'a str)
    ensures
        r@ == pick_text(*src, seq![k1@]),
{
    proof {
        reveal_with_fuel(pick_text, 2);
        assert(seq![k1@].drop_first() =~= Seq::<Seq<char>>::empty());
    }
    text_or_empty(nonblank_text_exec(src, k1))
}

fn pick2<'a>(src: &'a JsonValue, k1: &str, k2: &str) -> (r: &'a str)
    ensures
        r@ == pick_text(*src, seq![k1@, k2@]),
{
    proof {
        assert(seq![k1@, k2@].drop_first() =~= seq![k2@]);
    }
    match nonblank_text_exec(src, k1) {
        Some(t) => t,
        None => pick1(src, k2),
    }
}

fn pick3<'a>(src: &'a JsonValue, k1: &str, k2: &str, k3: &str) -> (r: &'a str)
    ensures
        r@ == pick_text(*src, seq![k1@, k2@, k3@]),
{
    proof {
        assert(seq![k1@, k2@, k3@].drop_first() =~= seq![k2@, k3@]);
    }
    match nonblank_text_exec(src, k1) {
        Some(t) => t,
        None => pick2(src, k2, k3),
    }
}

/// What the problem object `node` of a page payload gives as a problem,
/// with `pid` standing in for a missing id.
pub open spec fn payload_problem(node: JsonValue, pid: Seq<char>, p: ParsedProblem) -> bool {
    &&& p.pid@ == str_or(json_get(node, "pid"@), pid)
    &&& p.title@ == str_or(opt_get(json_get(node, "content"@), "name"@), "Unknown Title"@)
    &&& p.difficulty == opt_i32(opt_i64(json_get(node, "difficulty"@)))
    &&& p.tags@ == payload_tags(node)
    &&& p.limits_time_ms == payload_limit(node, "time"@)
    &&& p.limits_memory_kb == payload_limit(node, "memory"@)
    &&& pairs_view(p.samples@) == payload_samples(node)
    &&& p.markdown@ == statement_markdown(
        p.title@,
        pick_text(text_source(node), seq!["background"@]),
        pick_text(text_source(node), seq!["description"@, "statement"@]),
        pick_text(text_source(node), seq!["inputFormat"@, "formatI"@, "input"@]),
        pick_text(text_source(node), seq!["outputFormat"@, "formatO"@, "output"@]),
        payload_samples(node),
        pick_text(text_source(node), seq!["hint"@]),
    )
    &&& p.provider is None
    &&& p.total_accepted is None
    &&& p.total_submit is None
}

/// Reads a problem from the `lentille-context` payload of its page, for
/// when the problem API cannot be used. `pid` stands in for a missing id.
pub fn parse_problem_payload(root: &JsonValue, pid: &str) -> (r: Result<ParsedProblem, PayloadError>)
    ensures
        match r {
            Ok(p) => problem_node(*root) matches Some(node) && payload_problem(node, pid@, p),
            Err(e) => problem_node(*root) is None && e is MissingProblemData,
        },
{
    let problem = match find_problem(root) {
        Some(p) => p,
        None => {
            return Err(PayloadError::MissingProblemData);
        },
    };
    let pid_out = string_member_or(problem.get("pid"), pid);
    let title = title_of(problem);
    let difficulty = match problem.get("difficulty") {
        Some(v) => cast_i32(v.as_i64()),
        None => None,
    };
    let tags = tags_of(problem);
    let time_limit = limit_exec(problem, "time");
    let memory_limit = limit_exec(problem, "memory");
    let samples = samples_of(problem);
    let src = text_source_exec(problem);
    let background = pick1(src, "background");
    let description = pick2(src, "description", "statement");
    let input_format = pick3(src, "inputFormat", "formatI", "input");
    let output_format = pick3(src, "outputFormat", "formatO", "output");
    let hint = pick1(src, "hint");
    let markdown = render_statement(
        title.as_str(),
        background,
        description,
        input_format,
        output_format,
        &samples,
        hint,
    );
    Ok(
        ParsedProblem {
            pid: pid_out,
            title,
            difficulty,
            limits_time_ms: time_limit,
            limits_memory_kb: memory_limit,
            tags,
            markdown,
            samples,
            provider: None,
            total_accepted: None,
            total_submit: None,
        },
    )
}


// ── The two sources of a problem ───────────────────────────────────

/// The text under `key` of a payload's content mirrors an optional text of
/// the problem API: the same string, not blank, or absent on both sides.
pub open spec fn mirrored_text(content: JsonValue, key: Seq<char>, t: Option<String>) -> bool {
    match t {
        Some(x) => opt_str(json_get(content, key)) == Some(x@) && trim(x@).len() > 0,
        None => json_get(content, key) is None,
    }
}

/// A page payload's problem object holds what the problem API's `data`
/// holds: a content object with the same name and the same texts (each
/// absent or not blank) under the API's keys and none of the other keys
/// a page may use, and the same samples as pairs of strings.
pub open spec fn payload_mirrors(node: JsonValue, d: ProblemData) -> bool {
    let c = d.problem.content;
    let s = d.problem.samples@;
    &&& json_get(node, "content"@) matches Some(co) && {
        &&& opt_str(json_get(co, "name"@)) == Some(c.name@)
        &&& mirrored_text(co, "background"@, c.background)
        &&& mirrored_text(co, "description"@, c.description)
        &&& mirrored_text(co, "formatI"@, c.formatI)
        &&& mirrored_text(co, "formatO"@, c.formatO)
        &&& mirrored_text(co, "hint"@, c.hint)
        &&& json_get(co, "statement"@) is None
        &&& json_get(co, "inputFormat"@) is None
        &&& json_get(co, "input"@) is None
        &&& json_get(co, "outputFormat"@) is None
        &&& json_get(co, "output"@) is None
    }
    &&& array_items(json_get(node, "samples"@)) matches Some(items) && items.len() == s.len() && (
    forall|i: int|
        0 <= i < items.len() ==> opt_str(json_at(#[trigger] items[i], 0)) == Some(s[i].0@)
            && opt_str(json_at(items[i], 1)) == Some(s[i].1@))
}

/// When no key but the first is present, the picked text is that key's.
pub proof fn lemma_pick_mirrored(co: JsonValue, keys: Seq<Seq<char>>, t: Option<String>)
    requires
        keys.len() >= 1,
        mirrored_text(co, keys[0], t),
        forall|j: int| 1 <= j < keys.len() ==> json_get(co, #[trigger] keys[j]) is None,
    ensures
        pick_text(co, keys) == opt_string_view(t).unwrap_or(""@),
    decreases keys.len(),
{
    if t is Some {
        let x = t->0;
        assert(nonblank_text(co, keys[0]) == Some(x@));
    } else {
        let rest = keys.drop_first();
        if rest.len() > 0 {
            assert(json_get(co, rest[0]) is None) by {
                assert(rest[0] == keys[1]);
            }
            assert forall|j: int| 1 <= j < rest.len() implies json_get(co, #[trigger] rest[j])
                is None by {
                assert(rest[j] == keys[j + 1]);
            }
            lemma_pick_mirrored(co, rest, t);
        }
    }
}

/// A problem read from its page payload has the same title, samples and
/// statement (`T.md`) as the same problem read from the problem API, when
/// the payload holds what the API's data holds.
pub proof fn law_same_statement_from_api_and_page(
    d: ProblemData,
    node: JsonValue,
    pid: Seq<char>,
    a: ParsedProblem,
    b: ParsedProblem,
)
    requires
        converted_problem(d, a),
        payload_problem(node, pid, b),
        payload_mirrors(node, d),
    ensures
        a.title@ == b.title@,
        pairs_view(a.samples@) == pairs_view(b.samples@),
        a.markdown@ == b.markdown@,
{
    let c = d.problem.content;
    let co = json_get(node, "content"@)->0;
    assert(!(co is Null));
    assert(text_source(node) == co);
    lemma_pick_mirrored(co, seq!["background"@], c.background);
    lemma_pick_mirrored(co, seq!["description"@, "statement"@], c.description);
    let ik = seq!["inputFormat"@, "formatI"@, "input"@];
    assert(ik.drop_first() =~= seq!["formatI"@, "input"@]);
    lemma_pick_mirrored(co, seq!["formatI"@, "input"@], c.formatI);
    assert(pick_text(co, ik) == pick_text(co, ik.drop_first()));
    let ok = seq!["outputFormat"@, "formatO"@, "output"@];
    assert(ok.drop_first() =~= seq!["formatO"@, "output"@]);
    lemma_pick_mirrored(co, seq!["formatO"@, "output"@], c.formatO);
    assert(pick_text(co, ok) == pick_text(co, ok.drop_first()));
    assert(b.title@ == c.name@);
    lemma_pick_mirrored(co, seq!["hint"@], c.hint);
    assert(payload_samples(node) =~= pairs_view(d.problem.samples@));
}

// ── The local index and the problem directory ───────────────────────

pub open spec fn problem_url(pid: Seq<char>) -> Seq<char> {
    "https://www.luogu.com.cn/problem/"@ + pid
}

/// The web page of a problem.
pub fn problem_url_of(pid: &str) -> (r: String)
    ensures
        r@ == problem_url(pid@),
{
    let mut out: Vec<char> = chars_of("https://www.luogu.com.cn/problem/");
    push_str(&mut out, pid);
    string_of(out.as_slice())
}

fn copy_ints(v: &Vec<i64>) -> (r: Vec<i64>)
    ensures
        r@ == v@,
{
    let mut out: Vec<i64> = Vec::new();
    let mut i: usize = 0;
    while i < v.len()
        invariant
            i <= v@.len(),
            out@ =~= v@.take(i as int),
        decreases v.len() - i,
    {
        out.push(v[i]);
        i = i + 1;
    }
    assert(v@.take(v@.len() as int) =~= v@);
    out
}

pub open spec fn level_or_zero(d: Option<i32>) -> int {
    match d {
        Some(l) => l as int,
        None => 0,
    }
}

/// The index entry for a fetched problem.
pub fn problem_record(problem: &ParsedProblem, fetched_at: &str) -> (r: ProblemRecord)
    ensures
        r.pid@ == problem.pid@,
        r.title@ == problem.title@,
        r.difficulty == problem.difficulty,
        r.difficulty_label@ == difficulty_name(level_or_zero(problem.difficulty)),
        r.time_limit_ms == problem.limits_time_ms,
        r.memory_limit_kb == problem.limits_memory_kb,
        r.tags@ == problem.tags@,
        r.fetched_at@ == fetched_at@,
        r.url@ == problem_url(problem.pid@),
{
    ProblemRecord {
        pid: problem.pid.clone(),
        title: problem.title.clone(),
        difficulty: problem.difficulty,
        difficulty_label: difficulty_label(problem.difficulty),
        time_limit_ms: problem.limits_time_ms,
        memory_limit_kb: problem.limits_memory_kb,
        tags: copy_ints(&problem.tags),
        fetched_at: String::from_str(fetched_at),
        url: problem_url_of(problem.pid.as_str()),
    }
}

/// The index entry for a listed problem that was not fetched again because
/// its directory exists: no limits are known.
pub fn listed_problem_record(
    pid: &str,
    title: &str,
    difficulty: Option<i64>,
    tags: &Vec<i64>,
    fetched_at: &str,
) -> (r: ProblemRecord)
    ensures
        r.pid@ == pid@,
        r.title@ == title@,
        r.difficulty == opt_i32(difficulty),
        r.difficulty_label@ == difficulty_name(level_or_zero(opt_i32(difficulty))),
        r.time_limit_ms is None,
        r.memory_limit_kb is None,
        r.tags@ == tags@,
        r.fetched_at@ == fetched_at@,
        r.url@ == problem_url(pid@),
{
    let d = cast_i32(difficulty);
    ProblemRecord {
        pid: String::from_str(pid),
        title: String::from_str(title),
        difficulty: d,
        difficulty_label: difficulty_label(d),
        time_limit_ms: None,
        memory_limit_kb: None,
        tags: copy_ints(tags),
        fetched_at: String::from_str(fetched_at),
        url: problem_url_of(pid),
    }
}

/// A problem whose directory already exists is left alone unless `force` is set.
pub fn skip_existing(dir_exists: bool, force: bool) -> (r: bool)
    ensures
        r == (dir_exists && !force),
{
    dir_exists && !force
}

pub open spec fn sample_file_name(i: nat, ext: Seq<char>) -> Seq<char> {
    "sample"@ + dec(i + 1) + ext
}

/// The sample files for the first `n` samples: `sample<k>.in` and
/// `sample<k>.out` for sample `k`, counted from 1.
pub open spec fn sample_files(s: Seq<(Seq<char>, Seq<char>)>, n: nat) -> Seq<(Seq<char>, Seq<char>)>
    decreases n,
{
    if n == 0 {
        seq![]
    } else {
        let i = (n - 1) as nat;
        sample_files(s, i) + seq![
            (sample_file_name(i, ".in"@), s[i as int].0),
            (sample_file_name(i, ".out"@), s[i as int].1),
        ]
    }
}

/// The files written into a problem's directory, as (name, contents):
/// the statement `T.md`; `main.cpp` from the configured template, when one
/// is configured and the file is absent or `force` is set; then the samples.
pub open spec fn scaffold(
    markdown: Seq<char>,
    samples: Seq<(Seq<char>, Seq<char>)>,
    main_exists: bool,
    force: bool,
    template: Option<Seq<char>>,
) -> Seq<(Seq<char>, Seq<char>)> {
    seq![("T.md"@, markdown)] + (match template {
        Some(t) => if !main_exists || force {
            seq![("main.cpp"@, t)]
        } else {
            seq![]
        },
        None => seq![],
    }) + sample_files(samples, samples.len())
}

/// Every sample file is named `sample...`.
pub proof fn lemma_sample_files_named(s: Seq<(Seq<char>, Seq<char>)>, n: nat)
    requires
        n <= s.len(),
    ensures
        sample_files(s, n).len() == 2 * n,
        forall|k: int|
            0 <= k < sample_files(s, n).len() ==> #[trigger] sample_files(s, n)[k].0.len() > 0
                && sample_files(s, n)[k].0[0] == 's',
    decreases n,
{
    reveal_strlit("sample");
    if n > 0 {
        let i = (n - 1) as nat;
        lemma_sample_files_named(s, i);
        let prev = sample_files(s, i);
        let whole = sample_files(s, n);
        assert forall|k: int| 0 <= k < whole.len() implies #[trigger] whole[k].0.len() > 0
            && whole[k].0[0] == 's' by {
            if k < prev.len() {
                assert(whole[k] == prev[k]);
            } else if k == prev.len() {
                assert(whole[k].0 == sample_file_name(i, ".in"@));
                assert(sample_file_name(i, ".in"@)[0] == "sample"@[0]);
            } else {
                assert(whole[k].0 == sample_file_name(i, ".out"@));
                assert(sample_file_name(i, ".out"@)[0] == "sample"@[0]);
            }
        }
    }
}

/// Without a configured template no `main.cpp` is written: the problem
/// directory then holds only the statement and the samples.
pub proof fn law_no_main_without_template(
    markdown: Seq<char>,
    samples: Seq<(Seq<char>, Seq<char>)>,
    main_exists: bool,
    force: bool,
)
    ensures
        forall|k: int|
            0 <= k < scaffold(markdown, samples, main_exists, force, None).len()
                ==> #[trigger] scaffold(markdown, samples, main_exists, force, None)[k].0
                != "main.cpp"@,
{
    reveal_strlit("main.cpp");
    reveal_strlit("T.md");
    let files = scaffold(markdown, samples, main_exists, force, None);
    let rest = sample_files(samples, samples.len());
    lemma_sample_files_named(samples, samples.len());
    assert(files =~= seq![("T.md"@, markdown)] + rest);
    assert("main.cpp"@[0] == 'm');
    assert("T.md"@[0] == 'T');
    assert forall|k: int| 0 <= k < files.len() implies #[trigger] files[k].0 != "main.cpp"@ by {
        if k == 0 {
            assert(files[k].0 == "T.md"@);
        } else {
            assert(files[k] == rest[k - 1]);
        }
        assert(files[k].0.len() > 0 && files[k].0[0] != 'm');
    }
}

/// With a template, `main.cpp` holds it whenever the file is absent or
/// `force` is set, and sits right after the statement.
pub proof fn law_main_from_template(
    markdown: Seq<char>,
    samples: Seq<(Seq<char>, Seq<char>)>,
    main_exists: bool,
    force: bool,
    template: Seq<char>,
)
    requires
        !main_exists || force,
    ensures
        scaffold(markdown, samples, main_exists, force, Some(template))[1] == ("main.cpp"@, template),
{
}

fn named(name: &str, contents: &str) -> (r: (String, String))
    ensures
        pair_view(r) == (name@, contents@),
{
    (String::from_str(name), String::from_str(contents))
}

fn sample_name_exec(i: usize, ext: &str) -> (r: String)
    requires
        i < usize::MAX,
    ensures
        r@ == sample_file_name(i as nat, ext@),
{
    let mut out: Vec<char> = chars_of("sample");
    let d = dec_chars((i + 1) as u64);
    push_all(&mut out, d.as_slice());
    push_str(&mut out, ext);
    string_of(out.as_slice())
}

/// The files to write for a problem; see `scaffold`.
pub fn save_problem_files(
    problem: &ParsedProblem,
    main_exists: bool,
    force: bool,
    template: Option<&str>,
) -> (r: Vec<(String, String)>)
    ensures
        pairs_view(r@) == scaffold(
            problem.markdown@,
            pairs_view(problem.samples@),
            main_exists,
            force,
            opt_str_ref(template),
        ),
{
    let ghost sv = pairs_view(problem.samples@);
    let mut out: Vec<(String, String)> = Vec::new();
    out.push(named("T.md", problem.markdown.as_str()));
    match template {
        Some(t) => if !main_exists || force {
            out.push(named("main.cpp", t));
        },
        None => {},
    }
    let ghost head = pairs_view(out@);
    assert(head =~= seq![("T.md"@, problem.markdown@)] + (match opt_str_ref(template) {
        Some(t) => if !main_exists || force {
            seq![("main.cpp"@, t)]
        } else {
            seq![]
        },
        None => seq![],
    }));
    let mut i: usize = 0;
    while i < problem.samples.len()
        invariant
            i <= problem.samples@.len(),
            sv == pairs_view(problem.samples@),
            pairs_view(out@) =~= head + sample_files(sv, i as nat),
        decreases problem.samples.len() - i,
    {
        let a = sample_name_exec(i, ".in");
        let b = sample_name_exec(i, ".out");
        let ghost before = pairs_view(out@);
        out.push((a, String::from_str(problem.samples[i].0.as_str())));
        out.push((b, String::from_str(problem.samples[i].1.as_str())));
        assert(pairs_view(out@) =~= before + seq![
            (sample_file_name(i as nat, ".in"@), sv[i as int].0),
            (sample_file_name(i as nat, ".out"@), sv[i as int].1),
        ]);
        i = i + 1;
    }
    out
}

} // verus!
