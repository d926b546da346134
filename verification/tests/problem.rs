use luogu::json::JsonValue;
use luogu::models::{ParsedProblem, ProblemContent, ProblemData, ProblemDetails, ProblemLimits};
use luogu::problem::{
    convert_problem_data, listed_problem_record, max_of, parse_problem_payload, problem_record,
    problem_url_of, render_statement, save_problem_files, skip_existing, PayloadError,
};
use luogu::requests::{fetch_problem, ProblemFetchEvent, ProblemFetchStep};

fn s(x: &str) -> String {
    x.to_string()
}

fn js(x: &str) -> JsonValue {
    JsonValue::String(s(x))
}

fn obj(entries: Vec<(&str, JsonValue)>) -> JsonValue {
    JsonValue::Object(entries.into_iter().map(|(k, v)| (s(k), v)).collect())
}

fn num(n: i64) -> JsonValue {
    JsonValue::Number(Some(n))
}

fn sample_data() -> ProblemData {
    ProblemData {
        problem: ProblemDetails {
            pid: s("P1001"),
            title: s("A+B Problem"),
            difficulty: Some(1),
            tags: vec![1, 2],
            content: ProblemContent {
                name: s("A+B Problem"),
                background: Some(s("  ")),
                description: Some(s("输入两个整数 a, b")),
                formatI: Some(s("两个整数")),
                formatO: None,
                hint: Some(s("很简单")),
            },
            samples: vec![(s("1 2"), s("3")), (s("5 6"), s("11"))],
            limits: ProblemLimits { time: vec![1000, 2000, 1500], memory: vec![] },
            provider: Some(obj(vec![("name", js("Luogu"))])),
            totalSubmit: Some(100),
            totalAccepted: Some(40),
            flag: None,
            wantsTranslation: None,
        },
        bookmarked: false,
        recommendations: Vec::new(),
        translations: JsonValue::Null,
        lastLanguage: None,
        lastCode: None,
        canEdit: false,
    }
}

const SAMPLE_MARKDOWN: &str = "# A+B Problem\n\n## 题目描述\n\n输入两个整数 a, b\n\n## 输入格式\n\n两个整数\n\n## 输出格式\n\n\n\n## 样例 #1\n\n### 输入\n\n```text\n1 2\n```\n\n### 输出\n\n```text\n3\n```\n\n\n## 样例 #2\n\n### 输入\n\n```text\n5 6\n```\n\n### 输出\n\n```text\n11\n```\n\n\n## 提示\n\n很简单\n";

#[test]
fn statement_layout() {
    let md = render_statement("T", "bg", "d", "i", "o", &Vec::new(), "");
    assert_eq!(md, "# T\n\n## 题目背景\n\nbg\n\n## 题目描述\n\nd\n\n## 输入格式\n\ni\n\n## 输出格式\n\no");
}

#[test]
fn converts_api_data() {
    let p = convert_problem_data(sample_data());
    assert_eq!(p.pid, "P1001");
    assert_eq!(p.title, "A+B Problem");
    assert_eq!(p.difficulty, Some(1));
    assert_eq!(p.limits_time_ms, Some(2000));
    assert_eq!(p.limits_memory_kb, None);
    assert_eq!(p.tags, vec![1, 2]);
    assert_eq!(p.samples.len(), 2);
    assert_eq!(p.markdown, SAMPLE_MARKDOWN);
    assert_eq!(p.provider, Some(s("Luogu")));
    assert_eq!(p.total_accepted, Some(40));
    assert_eq!(p.total_submit, Some(100));
}

#[test]
fn largest_limit() {
    assert_eq!(max_of(&vec![3, -1, 7, 7, 2]), Some(7));
    assert_eq!(max_of(&Vec::new()), None);
}

fn payload_problem() -> JsonValue {
    obj(vec![
        ("pid", js("P2000")),
        ("difficulty", num(3)),
        ("tags", JsonValue::Array(vec![num(5), js("x"), num(9)])),
        (
            "limits",
            obj(vec![
                ("time", JsonValue::Array(vec![num(1000), num(3000)])),
                ("memory", JsonValue::Array(vec![num(131072)])),
            ]),
        ),
        (
            "content",
            obj(vec![
                ("name", js("Title")),
                ("description", js("   ")),
                ("statement", js("real statement")),
                ("formatI", js("in")),
                ("outputFormat", js("out")),
            ]),
        ),
        (
            "samples",
            JsonValue::Array(vec![JsonValue::Array(vec![js("1"), js("2")]), JsonValue::Array(vec![js("3")])]),
        ),
    ])
}

#[test]
fn reads_page_payload() {
    let root = obj(vec![("currentData", obj(vec![("problem", payload_problem())]))]);
    let p = parse_problem_payload(&root, "P9999").ok().unwrap();
    assert_eq!(p.pid, "P2000");
    assert_eq!(p.title, "Title");
    assert_eq!(p.difficulty, Some(3));
    assert_eq!(p.tags, vec![5, 9]);
    assert_eq!(p.limits_time_ms, Some(3000));
    assert_eq!(p.limits_memory_kb, Some(131072));
    assert_eq!(p.samples, vec![(s("1"), s("2")), (s("3"), s(""))]);
    assert_eq!(
        p.markdown,
        "# Title\n\n## 题目描述\n\nreal statement\n\n## 输入格式\n\nin\n\n## 输出格式\n\nout\n\n## 样例 #1\n\n### 输入\n\n```text\n1\n```\n\n### 输出\n\n```text\n2\n```\n\n\n## 样例 #2\n\n### 输入\n\n```text\n3\n```\n\n### 输出\n\n```text\n\n```\n"
    );
    assert_eq!(p.provider, None);
}

#[test]
fn payload_defaults() {
    let root = obj(vec![("data", obj(vec![("problem", obj(vec![]))]))]);
    let p = parse_problem_payload(&root, "P9999").ok().unwrap();
    assert_eq!(p.pid, "P9999");
    assert_eq!(p.title, "Unknown Title");
    assert_eq!(p.difficulty, None);
    assert!(p.tags.is_empty());
    assert_eq!(p.limits_time_ms, None);
}

#[test]
fn payload_without_problem() {
    let root = obj(vec![("data", obj(vec![("other", num(1))]))]);
    match parse_problem_payload(&root, "P1") {
        Err(e) => {
            assert!(matches!(e, PayloadError::MissingProblemData));
            assert_eq!(e.message(), "payload missing problem data");
        }
        Ok(_) => panic!("found a problem"),
    }
}

#[test]
fn fetch_goes_api_first() {
    match fetch_problem("P1001", ProblemFetchEvent::Start) {
        ProblemFetchStep::AskApi(u) => assert_eq!(u, "https://www.luogu.com.cn/problem/P1001"),
        _ => panic!("expected the API request"),
    }
    match fetch_problem("P1001", ProblemFetchEvent::ApiData(sample_data())) {
        ProblemFetchStep::Done(p) => assert_eq!(p.markdown, SAMPLE_MARKDOWN),
        _ => panic!("expected the problem"),
    }
}

#[test]
fn fetch_falls_back_to_page() {
    match fetch_problem("P7", ProblemFetchEvent::ApiFailed) {
        ProblemFetchStep::AskPage(u) => assert_eq!(u, "https://www.luogu.com.cn/problem/P7"),
        _ => panic!("expected the page request"),
    }
    let html = "<html><script type=\"application/json\" id=\"lentille-context\">{\"data\":1}\n</script></html>";
    match fetch_problem("P7", ProblemFetchEvent::Page(s(html))) {
        ProblemFetchStep::ParsePayload(t) => assert_eq!(t, "{\"data\":1}\n"),
        _ => panic!("expected the payload"),
    }
    match fetch_problem("P7", ProblemFetchEvent::Page(s("<html></html>"))) {
        ProblemFetchStep::Failed(e) => assert_eq!(e.message(), "cannot find lentille-context payload"),
        _ => panic!("expected a failure"),
    }
    let root = obj(vec![("data", obj(vec![("problem", payload_problem())]))]);
    match fetch_problem("P7", ProblemFetchEvent::Payload(root)) {
        ProblemFetchStep::Done(p) => assert_eq!(p.pid, "P2000"),
        _ => panic!("expected the problem"),
    }
    match fetch_problem("P7", ProblemFetchEvent::Payload(JsonValue::Null)) {
        ProblemFetchStep::Failed(e) => assert!(matches!(e, PayloadError::MissingProblemData)),
        _ => panic!("expected a failure"),
    }
}

fn parsed() -> ParsedProblem {
    convert_problem_data(sample_data())
}

#[test]
fn scaffold_files() {
    let files = save_problem_files(&parsed(), false, false, Some("int main(){}"));
    let names: Vec<&str> = files.iter().map(|f| f.0.as_str()).collect();
    assert_eq!(names, vec!["T.md", "main.cpp", "sample1.in", "sample1.out", "sample2.in", "sample2.out"]);
    assert_eq!(files[0].1, SAMPLE_MARKDOWN);
    assert_eq!(files[1].1, "int main(){}");
    assert_eq!(files[4].1, "5 6");
    assert_eq!(files[5].1, "11");
}

#[test]
fn no_main_without_template() {
    let files = save_problem_files(&parsed(), false, true, None);
    assert!(files.iter().all(|f| f.0 != "main.cpp"));
    assert_eq!(files.len(), 5);
}

#[test]
fn existing_main_kept_unless_forced() {
    let files = save_problem_files(&parsed(), true, false, Some("x"));
    assert!(files.iter().all(|f| f.0 != "main.cpp"));
    let files = save_problem_files(&parsed(), true, true, Some("x"));
    assert_eq!(files[1], (s("main.cpp"), s("x")));
    assert!(skip_existing(true, false));
    assert!(!skip_existing(true, true));
    assert!(!skip_existing(false, false));
}

#[test]
fn index_records() {
    let r = problem_record(&parsed(), "2024-01-02T03:04:05Z");
    assert_eq!(r.pid, "P1001");
    assert_eq!(r.difficulty_label, "入门");
    assert_eq!(r.time_limit_ms, Some(2000));
    assert_eq!(r.url, "https://www.luogu.com.cn/problem/P1001");
    assert_eq!(r.fetched_at, "2024-01-02T03:04:05Z");
    let r = listed_problem_record("P5", "T", None, &vec![4], "now");
    assert_eq!(r.difficulty_label, "暂无评定");
    assert_eq!(r.time_limit_ms, None);
    assert_eq!(r.tags, vec![4]);
    assert_eq!(problem_url_of("B2001"), "https://www.luogu.com.cn/problem/B2001");
}

#[test]
fn page_and_api_give_the_same_statement() {
    let node = obj(vec![
        (
            "content",
            obj(vec![
                ("name", js("A+B Problem")),
                ("description", js("输入两个整数 a, b")),
                ("formatI", js("两个整数")),
                ("hint", js("很简单")),
            ]),
        ),
        (
            "samples",
            JsonValue::Array(vec![
                JsonValue::Array(vec![js("1 2"), js("3")]),
                JsonValue::Array(vec![js("5 6"), js("11")]),
            ]),
        ),
    ]);
    let root = obj(vec![("data", obj(vec![("problem", node)]))]);
    let page = parse_problem_payload(&root, "P1001").ok().unwrap();
    let api = convert_problem_data(sample_data());
    assert_eq!(page.markdown, api.markdown);
    assert_eq!(page.title, api.title);
    assert_eq!(page.samples, api.samples);
}
