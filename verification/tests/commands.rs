use luogu::actions::{
    check_code, check_csrf, contest_action, contest_id_required, normalize_pid, rank_page_hint,
    record_params, submit_source, training_action, training_id_required, user_target, ListOrImport,
    SubmitError, UserTarget,
};
use luogu::cli::{ContestArgs, RecordArgs, TrainingArgs, UserArgs};
use luogu::config::{
    compile_settings_path, config_from_source, config_path, parent_of, resolve_template, TemplateConfig, TemplateSource,
};
use luogu::json::JsonValue;
use luogu::labels::{
    difficulty_color, difficulty_label, language_name, method_name, problem_type_letter,
    search_difficulty_label, status_name, user_color, TermColor,
};
use luogu::requests::{
    contest_list_query, contest_url, csrf_from_meta, csrf_from_payload, data_source,
    lentille_payload, page_has_records, payload_data_key, problem_list_query, record_list_query,
    record_list_source,
    site_url, solutions_url, submit_code, training_list_query, training_url, user_url, record_url,
    problem_page_url, DataSource, RecordSource,
};
use luogu::models::RecordListParams;
use luogu::serve::{html_page, response_header, route_request, route_response, Route};
use luogu::storage::{app_dir, judge_log_file, problem_dir, problems_file, recent_entries};

fn s(x: &str) -> String {
    x.to_string()
}

fn tpl(code: Option<&str>, path: Option<&str>) -> TemplateConfig {
    TemplateConfig { code: code.map(s), path: path.map(s) }
}

fn obj(entries: Vec<(&str, JsonValue)>) -> JsonValue {
    JsonValue::Object(entries.into_iter().map(|(k, v)| (s(k), v)).collect())
}

fn pairs(q: &[(String, String)]) -> Vec<(&str, &str)> {
    q.iter().map(|(k, v)| (k.as_str(), v.as_str())).collect()
}

// ── Configuration ───────────────────────────────────────────────────

#[test]
fn none_when_empty() {
    let cfg = resolve_template(&tpl(None, None), "luogu_config.json");
    assert!(matches!(cfg, TemplateSource::Absent));
    let cfg = resolve_template(&tpl(Some(""), Some("")), "luogu_config.json");
    assert!(matches!(cfg, TemplateSource::Absent));
}

#[test]
fn inline_code_wins() {
    let cfg = resolve_template(&tpl(Some("int main(){}"), Some("missing.cpp")), "luogu_config.json");
    assert!(matches!(&cfg, TemplateSource::Inline(c) if c == "int main(){}"));
}

#[test]
fn external_path_is_next_to_config() {
    let cfg = resolve_template(&tpl(None, Some("main.cpp")), "/tmp/luogu_cfg_test_1/luogu_config.json");
    assert!(matches!(&cfg, TemplateSource::File(p) if p == "/tmp/luogu_cfg_test_1/main.cpp"));
}

#[test]
fn template_paths() {
    let cfg = resolve_template(&tpl(None, Some("  templates/main.cpp ")), "luogu_config.json");
    assert!(matches!(&cfg, TemplateSource::File(p) if p == "templates/main.cpp"));
    let cfg = resolve_template(&tpl(Some(""), Some("/abs/t.cpp")), "cfg/luogu_config.json");
    assert!(matches!(&cfg, TemplateSource::File(p) if p == "/abs/t.cpp"));
    let cfg = resolve_template(&tpl(None, Some("   ")), "luogu_config.json");
    assert!(matches!(cfg, TemplateSource::Absent));
    assert_eq!(config_path(), "luogu_config.json");
    assert_eq!(compile_settings_path(), "judge_cpp.json");
}

#[test]
fn parent_directories_match_std() {
    for p in ["luogu_config.json", "a/b/c.json", "/c.json", "a/b/", "a//b", "", "/", "//x", "./c"] {
        let want = std::path::Path::new(p)
            .parent()
            .unwrap_or_else(|| std::path::Path::new("."))
            .to_str()
            .unwrap()
            .to_string();
        assert_eq!(parent_of(p), want, "parent of {:?}", p);
    }
}

#[test]
fn configured_template() {
    assert_eq!(config_from_source(TemplateSource::Inline(s("x")), None).template(), Some("x"));
    assert_eq!(config_from_source(TemplateSource::File(s("t.cpp")), Some(s("// t"))).template(), Some("// t"));
    assert_eq!(config_from_source(TemplateSource::Absent, Some(s("y"))).template(), None);
    let cfg = resolve_template(&tpl(Some("int main(){}"), Some("a.cpp")), "luogu_config.json");
    assert_eq!(config_from_source(cfg, None).template(), Some("int main(){}"));
}

// ── Labels ──────────────────────────────────────────────────────────

#[test]
fn labels() {
    assert_eq!(difficulty_label(Some(4)), "普及+/提高");
    assert_eq!(difficulty_label(None), "暂无评定");
    assert_eq!(difficulty_label(Some(9)), "未知");
    assert_eq!(search_difficulty_label(None), "未知");
    assert_eq!(search_difficulty_label(Some(7)), "NOI/NOI+/CTSC");
    assert_eq!(difficulty_color("普及/提高-"), TermColor::Green);
    assert_eq!(difficulty_color("提高+/省选-"), TermColor::Yellow);
    assert_eq!(difficulty_color("NOI/NOI+/CTSC"), TermColor::Red);
    assert_eq!(difficulty_color("暂无评定"), TermColor::Normal);
    assert_eq!(method_name(4), "IOI");
    assert_eq!(method_name(0), "未知");
    assert_eq!(status_name(7), (s("AC"), TermColor::Green));
    assert_eq!(status_name(5), (s("STT(5)"), TermColor::Normal));
    assert_eq!(status_name(-3), (s("STT(-3)"), TermColor::Normal));
    assert_eq!(language_name(12), "C++14(O2) / C++17(O2)");
    assert_eq!(language_name(99), "unknown");
    assert_eq!(user_color("Orange", false), TermColor::Yellow);
    assert_eq!(user_color("Cheater", true), TermColor::RedStruck);
    assert_eq!(user_color("Cheater", false), TermColor::Normal);
    assert_eq!(problem_type_letter(Some(1)), "B");
    assert_eq!(problem_type_letter(None), "?");
}

// ── Requests ────────────────────────────────────────────────────────

#[test]
fn addresses() {
    assert_eq!(site_url("/_lfe/tags"), "https://www.luogu.com.cn/_lfe/tags");
    assert_eq!(training_url(100), "https://www.luogu.com.cn/training/100");
    assert_eq!(contest_url(-1), "https://www.luogu.com.cn/contest/-1");
    assert_eq!(user_url(1), "https://www.luogu.com.cn/user/1");
    assert_eq!(record_url(123456), "https://www.luogu.com.cn/record/123456");
    assert_eq!(problem_page_url("P1000"), "https://www.luogu.com.cn/problem/P1000");
    assert_eq!(solutions_url("P1000"), "https://www.luogu.com.cn/problem/solution/P1000");
}

#[test]
fn queries() {
    let q = problem_list_query(2, Some("线段树"), Some(3), None, Some("12"), Some("totalAccepted"), Some("desc"));
    assert_eq!(
        pairs(&q),
        vec![
            ("page", "2"),
            ("keyword", "线段树"),
            ("difficulty", "3"),
            ("tag", "12"),
            ("orderBy", "totalAccepted"),
            ("order", "desc"),
        ]
    );
    assert_eq!(pairs(&training_list_query(1, None, Some("official"))), vec![("page", "1"), ("type", "official")]);
    assert_eq!(
        pairs(&contest_list_query(1, Some("NOIP"), Some(1), Some(0))),
        vec![("page", "1"), ("name", "NOIP"), ("method", "1"), ("public", "0")]
    );
    let params = RecordListParams { page: None, pid: Some(s("P1")), user: None, status: Some(12), language: Some(3) };
    assert_eq!(
        pairs(&record_list_query(&params)),
        vec![("page", "1"), ("pid", "P1"), ("status", "12"), ("language", "3")]
    );
}

#[test]
fn submission() {
    let plan = submit_code("P1000", "int main(){}", 12, false, "tok");
    assert_eq!(plan.url, "https://www.luogu.com.cn/fe/api/problem/submit/P1000");
    assert_eq!(plan.csrf, "tok");
    assert_eq!(plan.body.code, "int main(){}");
    assert_eq!(plan.body.lang, Some(12));
    assert_eq!(plan.body.enableO2, Some(0));
    assert_eq!(plan.body.captcha, None);
    assert_eq!(submit_code("P1", "x", 3, true, "t").body.enableO2, Some(1));
}

#[test]
fn page_payloads() {
    let html = "<script id=\"lentille-context\" type=\"application/json\">{\"a\":1}</script>";
    assert_eq!(lentille_payload(html).ok().unwrap(), "{\"a\":1}");
    assert!(lentille_payload("<script id=\"other\">x</script>").is_err());
    let root = obj(vec![("currentData", JsonValue::Number(Some(5)))]);
    assert_eq!(payload_data_key(&root), Some("currentData"));
    let root = obj(vec![("data", JsonValue::Bool(true)), ("currentData", JsonValue::Null)]);
    assert_eq!(payload_data_key(&root), Some("data"));
    assert_eq!(payload_data_key(&JsonValue::Null), None);
    assert!(matches!(data_source(Some(&root)), DataSource::Direct));
    assert!(matches!(data_source(Some(&JsonValue::Null)), DataSource::Page));
    assert!(matches!(data_source(None), DataSource::Page));
    let page = obj(vec![("currentData", obj(vec![("records", JsonValue::Array(Vec::new()))]))]);
    assert!(page_has_records(&page));
    assert!(page_has_records(&obj(vec![("records", JsonValue::Null)])));
    assert!(!page_has_records(&obj(vec![("data", obj(vec![]))])));
}

#[test]
fn record_sources() {
    let logged_out = obj(vec![("data", obj(vec![("webauthn", JsonValue::Null)]))]);
    assert!(matches!(record_list_source(Some(&logged_out)), RecordSource::Empty));
    let listed = obj(vec![("data", obj(vec![("records", JsonValue::Array(Vec::new()))]))]);
    assert!(matches!(record_list_source(Some(&listed)), RecordSource::Records));
    assert!(matches!(record_list_source(None), RecordSource::FromPage));
    assert!(matches!(record_list_source(Some(&JsonValue::Null)), RecordSource::FromPage));
}

#[test]
fn csrf_tokens() {
    let html = "<head><meta name=\"csrf-token\" content=\"abc123\"/></head>";
    assert_eq!(csrf_from_meta(html), Some(s("abc123")));
    let html = "<meta  name=\"csrf-token\"\ncontent=\"q:w\" />";
    assert_eq!(csrf_from_meta(html), Some(s("q:w")));
    assert_eq!(csrf_from_meta("<meta name=\"other\" content=\"x\"/>"), None);
    let root = obj(vec![("config", obj(vec![("csrfToken", JsonValue::String(s("tk")))]))]);
    assert_eq!(csrf_from_payload(&root), Some(s("tk")));
    assert_eq!(csrf_from_payload(&JsonValue::Null), None);
}

// ── Command decisions ───────────────────────────────────────────────

#[test]
fn problem_ids() {
    assert_eq!(normalize_pid("  p1000 "), "P1000");
    assert_eq!(normalize_pid("cf1a"), "CF1A");
}

#[test]
fn list_or_import() {
    let mut c = ContestArgs {
        id: Some(5),
        base_dir: s("problem"),
        force: false,
        list: true,
        page: 1,
        name: None,
        method: None,
        public: None,
    };
    assert!(matches!(contest_action(&c), ListOrImport::List));
    c.list = false;
    assert!(matches!(contest_action(&c), ListOrImport::Import(5)));
    c.id = None;
    assert!(matches!(contest_action(&c), ListOrImport::MissingId));
    let t = TrainingArgs { id: None, base_dir: s("p"), force: false, list: false, page: 1, keyword: None };
    assert!(matches!(training_action(&t), ListOrImport::MissingId));
    assert_eq!(contest_id_required(), "contest ID required. Use --list to list contests, or provide an ID.");
    assert_eq!(
        training_id_required(),
        "training ID required. Use --list to list training sets, or provide an ID."
    );
}

#[test]
fn user_targets() {
    let a = UserArgs { uid_or_name: Some(s("123")), search: None, practice: false };
    assert!(matches!(user_target(&a), UserTarget::Uid(123)));
    let a = UserArgs { uid_or_name: Some(s("mico")), search: None, practice: false };
    assert!(matches!(&user_target(&a), UserTarget::Name(n) if n == "mico"));
    let a = UserArgs { uid_or_name: Some(s("mico")), search: Some(s("k")), practice: false };
    assert!(matches!(&user_target(&a), UserTarget::Search(n) if n == "k"));
    let a = UserArgs { uid_or_name: None, search: None, practice: false };
    assert!(matches!(user_target(&a), UserTarget::Missing));
}

#[test]
fn record_filters() {
    let a = RecordArgs { id: None, pid: Some(s("P1")), user: Some(s("2")), status: None, page: 3, source: false };
    let p = record_params(&a);
    assert_eq!(p.page, Some(3));
    assert_eq!(p.pid, Some(s("P1")));
    assert_eq!(p.user, Some(s("2")));
    assert_eq!(p.status, None);
    assert_eq!(p.language, None);
}

#[test]
fn submit_sources() {
    let files = vec![s("main.cc"), s("main.cxx")];
    assert_eq!(submit_source("problem", "P1", None, &files), "problem/P1/main.cc");
    assert_eq!(submit_source("problem", "P1", None, &Vec::new()), "problem/P1/main.cpp");
    assert_eq!(submit_source("problem", "P1", Some("x/solve.cpp"), &files), "x/solve.cpp");
    assert!(check_code(" int main(){} ").is_ok());
    match check_code(" \n ") {
        Err(e) => assert_eq!(e.message("a.cpp"), "source file is empty: a.cpp"),
        Ok(_) => panic!("accepted blank code"),
    }
    assert!(check_csrf("t").is_ok());
    match check_csrf("") {
        Err(e) => assert_eq!(e.message("a.cpp"), "failed to get CSRF token. You may need to login first."),
        Ok(_) => panic!("accepted an empty token"),
    }
    assert_eq!(SubmitError::SourceNotFound.message("a.cpp"), "source file not found: a.cpp");
    assert!(rank_page_hint(20));
    assert!(!rank_page_hint(19));
}

// ── Server and storage ──────────────────────────────────────────────

#[test]
fn routes() {
    assert_eq!(route_request("GET / HTTP/1.1\r\nHost: x\r\n\r\n"), Route::Page);
    assert_eq!(route_request("GET /api/problems HTTP/1.1\r\n"), Route::Problems);
    assert_eq!(route_request("GET /api/history HTTP/1.1"), Route::History);
    assert_eq!(route_request("GET /nope HTTP/1.1"), Route::NotFound);
    assert_eq!(route_request("GET"), Route::Page);
    assert_eq!(route_request("POST / HTTP/1.1"), Route::MethodNotAllowed);
    assert_eq!(route_request(""), Route::MethodNotAllowed);
    assert_eq!(route_request("get / HTTP/1.1"), Route::MethodNotAllowed);
}

#[test]
fn responses() {
    assert_eq!(
        response_header("200 OK", "text/html; charset=utf-8", 12),
        "HTTP/1.1 200 OK\r\nContent-Type: text/html; charset=utf-8\r\nContent-Length: 12\r\nCache-Control: no-store\r\nConnection: close\r\n\r\n"
    );
    let (status, ctype, body) = route_response(Route::MethodNotAllowed);
    assert_eq!((status, ctype, body), ("405 Method Not Allowed", "text/plain; charset=utf-8", Some("method not allowed")));
    let (status, _, body) = route_response(Route::NotFound);
    assert_eq!((status, body), ("404 Not Found", Some("not found")));
    let (status, ctype, body) = route_response(Route::History);
    assert_eq!((status, ctype, body), ("200 OK", "application/json; charset=utf-8", None));
    let (_, _, body) = route_response(Route::Page);
    assert_eq!(body, Some(html_page()));
    assert!(html_page().starts_with("<!doctype html>"));
}

#[test]
fn storage_paths() {
    assert_eq!(app_dir(), ".luogu");
    assert_eq!(problems_file(), ".luogu/problems.json");
    assert_eq!(judge_log_file(), ".luogu/judge_log.jsonl");
    assert_eq!(problem_dir("problem", "P1000"), "problem/P1000");
}

#[test]
fn newest_entries_first() {
    assert_eq!(recent_entries(vec![1, 2, 3, 4, 5], 3), vec![5, 4, 3]);
    assert_eq!(recent_entries(vec![1, 2], 5), vec![2, 1]);
    assert_eq!(recent_entries(vec![1, 2], 0), Vec::<i32>::new());
    let mut log = vec![1, 2, 3];
    log.push(9);
    assert_eq!(recent_entries(log, 2)[0], 9);
}
