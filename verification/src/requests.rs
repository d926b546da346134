//! What the library asks of Luogu: page and API addresses, query
//! parameters, the submission body, and where in a response the data sits.

use crate::json::{json_get, opt_get, opt_ref, opt_str, JsonValue};
use crate::models::{RecordListParams, SubmitCodeRequest};
use crate::models::{ParsedProblem, ProblemData};
use crate::problem::{
    converted_problem, convert_problem_data, opt_string_view, parse_problem_payload, payload_problem,
    problem_node, problem_url, problem_url_of, PayloadError,
};
use crate::text::{chars_of, dec_int, int_chars, push_all, push_str, string_of};
use vstd::prelude::*;

verus! {

// ── Regular expressions ─────────────────────────────────────────────

/// What the `regex` crate finds: capture group `group` of the leftmost
/// match of `pattern` in `haystack`; `None` when the pattern does not
/// compile, nothing matches, or the group did not take part in the match.
pub uninterp spec fn regex_first_capture(pattern: Seq<char>, haystack: Seq<char>, group: nat) -> Option<Seq<char>>;

/// `Regex::new(pattern)`, then `Regex::captures(haystack)` and
/// `Captures::get(group)`, the matched text copied out.
/// Trusted: the result is `regex_first_capture(pattern, haystack, group)`.
#[verifier::external_body]
pub(crate) fn first_capture(pattern: &str, haystack: &str, group: usize) -> (r: Option<String>)
    ensures
        opt_string_view(r) == regex_first_capture(pattern@, haystack@, group as nat),
{
    match regex::Regex::new(pattern) {
        Ok(re) => match re.captures(haystack) {
            Some(caps) => match caps.get(group) {
                Some(m) => Some(m.as_str().to_string()),
                None => None,
            },
            None => None,
        },
        Err(_) => None,
    }
}

/// What the `regex` crate's `replace_all` gives: every non-overlapping match
/// of `pattern` in `haystack` replaced by `rep`, in which `$` introduces a
/// capture group reference; `None` when the pattern does not compile.
pub uninterp spec fn regex_replace_all(pattern: Seq<char>, haystack: Seq<char>, rep: Seq<char>) -> Option<Seq<char>>;

/// `Regex::new(pattern)`, then `Regex::replace_all(haystack, rep)`.
/// Trusted: the result is `regex_replace_all(pattern, haystack, rep)`.
#[verifier::external_body]
pub(crate) fn replace_matches(pattern: &str, haystack: &str, rep: &str) -> (r: Option<String>)
    ensures
        opt_string_view(r) == regex_replace_all(pattern@, haystack@, rep@),
{
    match regex::Regex::new(pattern) {
        Ok(re) => Some(re.replace_all(haystack, rep).into_owned()),
        Err(_) => None,
    }
}

// ── Addresses ───────────────────────────────────────────────────────

pub open spec fn base_url() -> Seq<char> {
    "https://www.luogu.com.cn"@
}

fn url_with_id(path: &str, id: i64) -> (r: String)
    ensures
        r@ == base_url() + path@ + dec_int(id as int),
{
    let mut out: Vec<char> = chars_of("https://www.luogu.com.cn");
    push_str(&mut out, path);
    let d = int_chars(id);
    push_all(&mut out, d.as_slice());
    string_of(out.as_slice())
}

fn url_with_text(path: &str, tail: &str) -> (r: String)
    ensures
        r@ == base_url() + path@ + tail@,
{
    let mut out: Vec<char> = chars_of("https://www.luogu.com.cn");
    push_str(&mut out, path);
    push_str(&mut out, tail);
    string_of(out.as_slice())
}

/// The address of a Luogu page or API endpoint below the site root.
pub fn site_url(path: &str) -> (r: String)
    ensures
        r@ == base_url() + path@,
{
    let mut out: Vec<char> = chars_of("https://www.luogu.com.cn");
    push_str(&mut out, path);
    string_of(out.as_slice())
}

pub fn training_url(id: i64) -> (r: String)
    ensures
        r@ == base_url() + "/training/"@ + dec_int(id as int),
{
    url_with_id("/training/", id)
}

pub fn contest_url(id: i64) -> (r: String)
    ensures
        r@ == base_url() + "/contest/"@ + dec_int(id as int),
{
    url_with_id("/contest/", id)
}

pub fn user_url(uid: i64) -> (r: String)
    ensures
        r@ == base_url() + "/user/"@ + dec_int(uid as int),
{
    url_with_id("/user/", uid)
}

pub fn record_url(id: i64) -> (r: String)
    ensures
        r@ == base_url() + "/record/"@ + dec_int(id as int),
{
    url_with_id("/record/", id)
}

pub fn problem_page_url(pid: &str) -> (r: String)
    ensures
        r@ == base_url() + "/problem/"@ + pid@,
{
    url_with_text("/problem/", pid)
}

pub fn solutions_url(pid: &str) -> (r: String)
    ensures
        r@ == base_url() + "/problem/solution/"@ + pid@,
{
    url_with_text("/problem/solution/", pid)
}

pub fn submit_url(pid: &str) -> (r: String)
    ensures
        r@ == base_url() + "/fe/api/problem/submit/"@ + pid@,
{
    url_with_text("/fe/api/problem/submit/", pid)
}

// ── Query parameters ────────────────────────────────────────────────

pub open spec fn param_view(p: (String, String)) -> (Seq<char>, Seq<char>) {
    (p.0@, p.1@)
}

pub open spec fn params_view(v: Seq<(String, String)>) -> Seq<(Seq<char>, Seq<char>)> {
    v.map_values(|p: (String, String)| param_view(p))
}

/// The parameter `(name, value)` when the value is present.
pub open spec fn opt_param(name: Seq<char>, v: Option<Seq<char>>) -> Seq<(Seq<char>, Seq<char>)> {
    match v {
        Some(x) => seq![(name, x)],
        None => seq![],
    }
}

pub open spec fn opt_int_text(v: Option<i64>) -> Option<Seq<char>> {
    match v {
        Some(n) => Some(dec_int(n as int)),
        None => None,
    }
}

pub open spec fn opt_text(v: Option<&str>) -> Option<Seq<char>> {
    match v {
        Some(s) => Some(s@),
        None => None,
    }
}

fn push_param(out: &mut Vec<(String, String)>, name: &str, value: String)
    ensures
        params_view(final(out)@) == params_view(old(out)@) + seq![(name@, value@)],
{
    let ghost before = params_view(out@);
    out.push((String::from_str(name), value));
    assert(params_view(out@) =~= before + seq![(name@, value@)]);
}

fn push_opt_text(out: &mut Vec<(String, String)>, name: &str, value: Option<&str>)
    ensures
        params_view(final(out)@) == params_view(old(out)@) + opt_param(name@, opt_text(value)),
{
    match value {
        Some(v) => push_param(out, name, String::from_str(v)),
        None => {
            assert(params_view(out@) + Seq::<(Seq<char>, Seq<char>)>::empty() =~= params_view(
                out@,
            ));
        },
    }
}

fn push_opt_int(out: &mut Vec<(String, String)>, name: &str, value: Option<i64>)
    ensures
        params_view(final(out)@) == params_view(old(out)@) + opt_param(name@, opt_int_text(value)),
{
    match value {
        Some(v) => {
            let d = int_chars(v);
            push_param(out, name, string_of(d.as_slice()));
        },
        None => {
            assert(params_view(out@) + Seq::<(Seq<char>, Seq<char>)>::empty() =~= params_view(
                out@,
            ));
        },
    }
}

fn page_param(page: i64) -> (r: Vec<(String, String)>)
    ensures
        params_view(r@) == seq![("page"@, dec_int(page as int))],
{
    let mut out: Vec<(String, String)> = Vec::new();
    let d = int_chars(page);
    push_param(&mut out, "page", string_of(d.as_slice()));
    assert(params_view(out@) =~= seq![("page"@, dec_int(page as int))]);
    out
}

/// The query of a problem search: the page, then each filter that is given,
/// in the order keyword, difficulty, type, tag, orderBy, order.
pub fn problem_list_query(
    page: i64,
    keyword: Option<&str>,
    difficulty: Option<i64>,
    ptype: Option<&str>,
    tag: Option<&str>,
    order_by: Option<&str>,
    order: Option<&str>,
) -> (r: Vec<(String, String)>)
    ensures
        params_view(r@) == seq![("page"@, dec_int(page as int))] + opt_param(
            "keyword"@,
            opt_text(keyword),
        ) + opt_param("difficulty"@, opt_int_text(difficulty)) + opt_param(
            "type"@,
            opt_text(ptype),
        ) + opt_param("tag"@, opt_text(tag)) + opt_param("orderBy"@, opt_text(order_by))
            + opt_param("order"@, opt_text(order)),
{
    let mut out = page_param(page);
    push_opt_text(&mut out, "keyword", keyword);
    push_opt_int(&mut out, "difficulty", difficulty);
    push_opt_text(&mut out, "type", ptype);
    push_opt_text(&mut out, "tag", tag);
    push_opt_text(&mut out, "orderBy", order_by);
    push_opt_text(&mut out, "order", order);
    out
}

/// The query of a training set listing: the page, then keyword and type when given.
pub fn training_list_query(page: i64, keyword: Option<&str>, ptype: Option<&str>) -> (r: Vec<
    (String, String),
>)
    ensures
        params_view(r@) == seq![("page"@, dec_int(page as int))] + opt_param(
            "keyword"@,
            opt_text(keyword),
        ) + opt_param("type"@, opt_text(ptype)),
{
    let mut out = page_param(page);
    push_opt_text(&mut out, "keyword", keyword);
    push_opt_text(&mut out, "type", ptype);
    out
}

/// The query of a contest listing: the page, then name, method and public when given.
pub fn contest_list_query(
    page: i64,
    name: Option<&str>,
    method: Option<i64>,
    public: Option<i64>,
) -> (r: Vec<(String, String)>)
    ensures
        params_view(r@) == seq![("page"@, dec_int(page as int))] + opt_param(
            "name"@,
            opt_text(name),
        ) + opt_param("method"@, opt_int_text(method)) + opt_param(
            "public"@,
            opt_int_text(public),
        ),
{
    let mut out = page_param(page);
    push_opt_text(&mut out, "name", name);
    push_opt_int(&mut out, "method", method);
    push_opt_int(&mut out, "public", public);
    out
}

pub open spec fn opt_string_text(v: Option<String>) -> Option<Seq<char>> {
    match v {
        Some(s) => Some(s@),
        None => None,
    }
}

fn opt_as_str(v: &Option<String>) -> (r: Option<&str>)
    ensures
        opt_text(r) == opt_string_text(*v),
{
    match v {
        Some(s) => Some(s.as_str()),
        None => None,
    }
}

/// The query of a record listing: the page (1 when not given), then pid,
/// user, status and language when given.
pub fn record_list_query(params: &RecordListParams) -> (r: Vec<(String, String)>)
    ensures
        params_view(r@) == seq![
            ("page"@, dec_int(
                match params.page {
                    Some(p) => p as int,
                    None => 1,
                },
            )),
        ] + opt_param("pid"@, opt_string_text(params.pid)) + opt_param(
            "user"@,
            opt_string_text(params.user),
        ) + opt_param("status"@, opt_int_text(params.status)) + opt_param(
            "language"@,
            opt_int_text(params.language),
        ),
{
    let page = match params.page {
        Some(p) => p,
        None => 1,
    };
    let mut out = page_param(page);
    push_opt_text(&mut out, "pid", opt_as_str(&params.pid));
    push_opt_text(&mut out, "user", opt_as_str(&params.user));
    push_opt_int(&mut out, "status", params.status);
    push_opt_int(&mut out, "language", params.language);
    out
}

// ── Submitting ──────────────────────────────────────────────────────

/// A code submission, ready to be posted as JSON with the CSRF token.
pub struct SubmitPlan {
    pub url: String,
    pub csrf: String,
    pub body: SubmitCodeRequest,
}

/// Prepares the submission of `code` to problem `pid` in language `lang`,
/// with O2 enabled (1) or not (0) and no captcha.
pub fn submit_code(pid: &str, code: &str, lang: i64, enable_o2: bool, csrf: &str) -> (r: SubmitPlan)
    ensures
        r.url@ == base_url() + "/fe/api/problem/submit/"@ + pid@,
        r.csrf@ == csrf@,
        r.body.code@ == code@,
        r.body.lang == Some(lang),
        r.body.enableO2 == Some(
            if enable_o2 {
                1i64
            } else {
                0i64
            },
        ),
        r.body.captcha is None,
{
    SubmitPlan {
        url: submit_url(pid),
        csrf: String::from_str(csrf),
        body: SubmitCodeRequest {
            code: String::from_str(code),
            lang: Some(lang),
            enableO2: Some(
                if enable_o2 {
                    1
                } else {
                    0
                },
            ),
            captcha: None,
        },
    }
}

// ── Reading responses ───────────────────────────────────────────────

/// The pattern of the `lentille-context` script that Luogu pages embed their data in.
pub open spec fn lentille_pattern() -> Seq<char> {
    "<script[^>]*id=\"lentille-context\"[^>]*>(?s)(.*?)</script>"@
}

/// The text of a page's `lentille-context` script.
pub fn lentille_payload(html: &str) -> (r: Result<String, PayloadError>)
    ensures
        match r {
            Ok(t) => regex_first_capture(lentille_pattern(), html@, 1) == Some(t@),
            Err(e) => regex_first_capture(lentille_pattern(), html@, 1) is None
                && e is NoLentilleContext,
        },
{
    match first_capture("<script[^>]*id=\"lentille-context\"[^>]*>(?s)(.*?)</script>", html, 1) {
        Some(t) => Ok(t),
        None => Err(PayloadError::NoLentilleContext),
    }
}

/// The data of a parsed page payload: `data`, else `currentData`, else the whole payload.
pub open spec fn payload_data(root: JsonValue) -> JsonValue {
    match json_get(root, "data"@) {
        Some(d) => d,
        None => match json_get(root, "currentData"@) {
            Some(c) => c,
            None => root,
        },
    }
}

/// Which member of a parsed page payload holds its data: `data`, else
/// `currentData`; `None` when the whole payload is the data.
pub fn payload_data_key(root: &JsonValue) -> (r: Option<&'static str>)
    ensures
        match r {
            Some(k) => json_get(*root, k@) == Some(payload_data(*root)) && (k@ == "data"@ || (k@
                == "currentData"@ && json_get(*root, "data"@) is None)),
            None => json_get(*root, "data"@) is None && json_get(*root, "currentData"@) is None
                && payload_data(*root) == *root,
        },
{
    match root.get("data") {
        Some(_) => Some("data"),
        None => match root.get("currentData") {
            Some(_) => Some("currentData"),
            None => None,
        },
    }
}

/// Whether the data of a parsed page payload lists records.
pub fn page_has_records(root: &JsonValue) -> (r: bool)
    ensures
        r == (json_get(payload_data(*root), "records"@) is Some),
{
    let data = match root.get("data") {
        Some(d) => d,
        None => match root.get("currentData") {
            Some(c) => c,
            None => root,
        },
    };
    data.get("records").is_some()
}

/// Where the data of a response is read from.
pub enum DataSource {
    /// The `data` member of the response, parsed as JSON.
    Direct,
    /// The `lentille-context` payload of the response, read as a page.
    Page,
}

/// A response that parses as JSON and has a `data` member is read
/// directly; any other response is read as a page.
pub fn data_source(direct: Option<&JsonValue>) -> (r: DataSource)
    ensures
        r is Direct <==> (opt_ref(direct) matches Some(root) && json_get(root, "data"@) is Some),
{
    match direct {
        Some(root) => match root.get("data") {
            Some(_) => DataSource::Direct,
            None => DataSource::Page,
        },
        None => DataSource::Page,
    }
}

/// Where the records of a record listing are.
pub enum RecordSource {
    /// Not logged in: the listing is empty.
    Empty,
    /// The `data.records` member of the response.
    Records,
    /// The response does not hold them; read the page payload instead.
    FromPage,
}

/// Decides from the directly parsed response (when it was JSON) where the
/// records are: a `data.webauthn` member means not logged in (empty);
/// `data.records` holds them; otherwise the page payload is read.
pub fn record_list_source(direct: Option<&JsonValue>) -> (r: RecordSource)
    ensures
        match opt_ref(direct) {
            Some(root) => match json_get(root, "data"@) {
                Some(d) => if json_get(d, "webauthn"@) is Some {
                    r is Empty
                } else if json_get(d, "records"@) is Some {
                    r is Records
                } else {
                    r is FromPage
                },
                None => r is FromPage,
            },
            None => r is FromPage,
        },
{
    match direct {
        Some(root) => match root.get("data") {
            Some(d) => if d.get("webauthn").is_some() {
                RecordSource::Empty
            } else if d.get("records").is_some() {
                RecordSource::Records
            } else {
                RecordSource::FromPage
            },
            None => RecordSource::FromPage,
        },
        None => RecordSource::FromPage,
    }
}

/// The CSRF token pattern of the `<meta name="csrf-token">` tag.
pub open spec fn csrf_meta_pattern() -> Seq<char> {
    "<meta\\s+name=\"csrf-token\"\\s+content=\"([^\"]+)\"\\s*/>"@
}

/// The CSRF token from the page's meta tag, when it has one.
pub fn csrf_from_meta(html: &str) -> (r: Option<String>)
    ensures
        opt_string_view(r) == regex_first_capture(csrf_meta_pattern(), html@, 1),
{
    first_capture("<meta\\s+name=\"csrf-token\"\\s+content=\"([^\"]+)\"\\s*/>", html, 1)
}

/// The CSRF token from the parsed page payload: `config.csrfToken`.
pub fn csrf_from_payload(root: &JsonValue) -> (r: Option<String>)
    ensures
        opt_string_view(r) == opt_str(opt_get(json_get(*root, "config"@), "csrfToken"@)),
{
    match root.get("config") {
        Some(c) => match c.get("csrfToken") {
            Some(t) => match t.as_str() {
                Some(s) => Some(String::from_str(s)),
                None => None,
            },
            None => None,
        },
        None => None,
    }
}

// ── Fetching a problem ──────────────────────────────────────────────

/// What the front end reports to `fetch_problem`.
pub enum ProblemFetchEvent {
    /// The fetch begins.
    Start,
    /// The problem API answered with the problem's data.
    ApiData(ProblemData),
    /// The problem API could not be used: the request, its status or its JSON failed.
    ApiFailed,
    /// The problem page, fetched after warming up the session.
    Page(String),
    /// The page's payload, parsed as JSON.
    Payload(JsonValue),
}

/// What `fetch_problem` asks of the front end next.
pub enum ProblemFetchStep {
    /// GET this address with the header `x-lentille-request: content-only`
    /// and read its JSON as the problem API's answer.
    AskApi(String),
    /// Warm up the session on the site root, then GET this page.
    AskPage(String),
    /// Parse this text as JSON.
    ParsePayload(String),
    /// The problem.
    Done(ParsedProblem),
    /// The page cannot give the problem.
    Failed(PayloadError),
}

/// Fetches problem `pid`, one step at a time: the problem API first; when
/// it cannot be used, the problem page and the JSON payload it embeds.
pub fn fetch_problem(pid: &str, event: ProblemFetchEvent) -> (r: ProblemFetchStep)
    ensures
        match event {
            ProblemFetchEvent::Start => r matches ProblemFetchStep::AskApi(u) && u@ == problem_url(
                pid@,
            ),
            ProblemFetchEvent::ApiData(d) => r matches ProblemFetchStep::Done(p)
                && converted_problem(d, p),
            ProblemFetchEvent::ApiFailed => r matches ProblemFetchStep::AskPage(u) && u@
                == problem_url(pid@),
            ProblemFetchEvent::Page(html) => match regex_first_capture(
                lentille_pattern(),
                html@,
                1,
            ) {
                Some(t) => r matches ProblemFetchStep::ParsePayload(x) && x@ == t,
                None => r matches ProblemFetchStep::Failed(e) && e is NoLentilleContext,
            },
            ProblemFetchEvent::Payload(root) => match problem_node(root) {
                Some(node) => r matches ProblemFetchStep::Done(p) && payload_problem(node, pid@, p),
                None => r matches ProblemFetchStep::Failed(e) && e is MissingProblemData,
            },
        },
{
    match event {
        ProblemFetchEvent::Start => ProblemFetchStep::AskApi(problem_url_of(pid)),
        ProblemFetchEvent::ApiData(d) => ProblemFetchStep::Done(convert_problem_data(d)),
        ProblemFetchEvent::ApiFailed => ProblemFetchStep::AskPage(problem_url_of(pid)),
        ProblemFetchEvent::Page(html) => match lentille_payload(html.as_str()) {
            Ok(t) => ProblemFetchStep::ParsePayload(t),
            Err(e) => ProblemFetchStep::Failed(e),
        },
        ProblemFetchEvent::Payload(root) => match parse_problem_payload(&root, pid) {
            Ok(p) => ProblemFetchStep::Done(p),
            Err(e) => ProblemFetchStep::Failed(e),
        },
    }
}

} // verus!
