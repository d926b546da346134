use luogu::display::{
    amount_text, catalog_title, contest_period, contest_row, decode_entities_of, elo_rank_row,
    gu_rank_row, has_more_pages, history_date, history_status_color, latest_elo, match_users,
    parent_name, passes_pid_filter, position_of, rank_kind, record_detail_view, record_row,
    requires_login, search_row, shorten_by_bytes, shown_rows, shorten_by_chars, show_solution_content,
    signed_change_text, solution_file_name, strip_html, tags_of_type, text_lines, timestamp_text,
    training_row_name, RankKind, UserMatch,
};
use luogu::json::JsonValue;
use luogu::labels::TermColor;
use luogu::models::{
    CompileResult, ContestSummary, EloRating, EloRatingDetails, GuRatingDetails, GuRatingScores,
    LegacyProblemSummary, LegacyProblemWithStatus, ProblemSet, RecordBase, RecordDetails,
    RecordStatus, Tag, UserSearchResult, UserSummary,
};

fn s(x: &str) -> String {
    x.to_string()
}

fn user(uid: i64, name: &str, color: &str) -> UserSummary {
    UserSummary {
        uid,
        name: s(name),
        avatar: s(""),
        color: s(color),
        slogan: None,
        badge: None,
        isAdmin: false,
        isBanned: false,
        ccfLevel: 0,
    }
}

fn legacy(pid: &str) -> LegacyProblemSummary {
    LegacyProblemSummary { pid: s(pid), title: s("t"), difficulty: None, fullScore: None }
}

#[test]
fn times_in_utc() {
    assert_eq!(timestamp_text(0, "%Y-%m-%d %H:%M", "?"), "1970-01-01 00:00");
    assert_eq!(timestamp_text(1700000000, "%m-%d %H:%M", "?"), "11-14 22:13");
    assert_eq!(timestamp_text(1700000000, "%Y-%m-%d %H:%M:%S", "?"), "2023-11-14 22:13:20");
    assert_eq!(timestamp_text(86399, "%Y-%m-%d", "?"), "1970-01-01");
    assert_eq!(timestamp_text(i64::MAX, "%Y-%m-%d", "unknown"), "unknown");
    let (a, b) = contest_period(0, i64::MIN);
    assert_eq!((a.as_str(), b.as_str()), ("1970-01-01 00:00", "unknown"));
}

#[test]
fn shortening() {
    assert_eq!(shorten_by_bytes("abc", 3, 1), "abc");
    assert_eq!(shorten_by_bytes("abcd", 3, 1), "a...");
    assert_eq!(shorten_by_bytes("题目名", 8, 2), "题目...");
    assert_eq!(shorten_by_chars("题目名", 3, 1), "题目名");
    assert_eq!(shorten_by_chars("题目名字", 3, 1), "题...");
}

#[test]
fn paging() {
    assert!(has_more_pages(41, 2));
    assert!(!has_more_pages(40, 2));
    assert_eq!(position_of(1, 0), 1);
    assert_eq!(position_of(3, 4), 45);
}

#[test]
fn search_rows() {
    let p = LegacyProblemWithStatus {
        pid: s("P1"),
        title: s("一个非常非常非常非常非常非常非常非常非常非常长的题目名称"),
        difficulty: Some(2),
        tags: None,
        totalSubmit: None,
        totalAccepted: Some(9),
        flag: Some(0),
        submitted: None,
        accepted: None,
        fullScore: None,
    };
    let r = search_row(&p);
    assert_eq!(r.title, format!("{}...", p.title.chars().take(24).collect::<String>()));
    assert_eq!(r.difficulty, "普及-");
    assert_eq!(r.difficulty_color, TermColor::Green);
    assert_eq!((r.submits, r.accepted), (0, 9));
    assert_eq!(r.type_letter, "P");
}

#[test]
fn contest_and_training_rows() {
    let c = ContestSummary {
        id: 1,
        name: s("NOIP 2023"),
        startTime: 0,
        endTime: 3600,
        method: 1,
        visibility: 1,
        host: JsonValue::Null,
        problemCount: 4,
        rated: JsonValue::Null,
    };
    let r = contest_row(&c);
    assert_eq!(r.name, "NOIP 2023");
    assert_eq!(r.start, "01-01 00:00");
    assert_eq!(r.end, "01-01 01:00");
    assert_eq!(r.method, "OI");
    let t = ProblemSet { id: 1, name: s("x".repeat(40).as_str()), ptype: 1, problemCount: 0, markCount: 0, createTime: 0 };
    assert_eq!(training_row_name(&t), format!("{}...", "x".repeat(34)));
}

#[test]
fn rank_rows() {
    let g = GuRatingDetails {
        user: user(1, "kkksc03", "Purple"),
        rating: 100,
        time: 0,
        scores: GuRatingScores { rating: 0, social: 0, basic: 0, contest: 0, practice: 0, prize: 0 },
    };
    let r = gu_rank_row(2, 0, &g);
    assert_eq!(r.rank, 21);
    assert_eq!(r.name, "kkksc03");
    assert_eq!(r.name_color, TermColor::Magenta);
    assert_eq!(r.change, "N/A");
    assert_eq!(r.change_color, TermColor::Normal);
    let e = EloRatingDetails {
        user: user(2, "a_very_long_user_name", "Red"),
        rating: 2000,
        time: 0,
        previous: None,
        userCount: None,
        prevDiff: Some(-15),
    };
    let r = elo_rank_row(1, 2, &e);
    assert_eq!(r.rank, 3);
    assert_eq!(r.name, "a_very_long_use...");
    assert_eq!(r.change, "-15");
    assert_eq!(r.change_color, TermColor::Red);
    assert_eq!(signed_change_text(0), "+0");
    assert_eq!(signed_change_text(7), "+7");
}

#[test]
fn record_rows() {
    let r = RecordBase {
        id: 1,
        status: 12,
        score: Some(60),
        time: None,
        memory: Some(1024),
        submitTime: 60,
        language: 3,
        enableO2: true,
        problem: legacy("P1"),
        contest: None,
        user: None,
    };
    let row = record_row(&r);
    assert_eq!(row.status, "FLE");
    assert_eq!(row.status_color, TermColor::Yellow);
    assert_eq!(row.score, "60/100");
    assert_eq!(row.time, "?");
    assert_eq!(row.memory, "1024KB");
    assert_eq!(row.submitted, "01-01 00:01");
    assert_eq!(row.language, "C++17");
    assert_eq!(amount_text(Some(-1), "ms"), "-1ms");
}

#[test]
fn record_details() {
    let d = RecordDetails {
        id: 9,
        status: 4,
        score: None,
        time: Some(5),
        memory: None,
        submitTime: 0,
        language: 7,
        enableO2: false,
        problem: legacy("P2"),
        sourceCode: Some(s("print(1)\r\nprint(2)\n")),
        detail: Some(RecordStatus {
            compileResult: Some(CompileResult { success: false, message: Some(s("error: x")), opt2: false }),
            judgeResult: None,
            version: 1,
        }),
        user: None,
        contest: None,
    };
    let v = record_detail_view(9, &d);
    assert_eq!(v.status, "CE");
    assert_eq!(v.score, "?");
    assert_eq!(v.time, "5ms");
    assert_eq!(v.language, "Python 3");
    assert_eq!(v.submitted, "1970-01-01 00:00:00");
    assert_eq!(v.compiled, Some(false));
    assert_eq!(v.compile_message, Some(s("error: x")));
    assert_eq!(v.source_lines, Some(vec![s("print(1)"), s("print(2)")]));
    assert_eq!(v.url, "https://www.luogu.com.cn/record/9");
    assert_eq!(text_lines("a\n\nb"), vec!["a", "", "b"]);
}

#[test]
fn solutions() {
    assert!(show_solution_content(true, None, 3));
    assert!(show_solution_content(false, Some(3), 3));
    assert!(!show_solution_content(false, Some(2), 3));
    assert_eq!(solution_file_name(21), "solution_21.md");
    assert!(requires_login("HTTP 401: solutions require login"));
    assert!(requires_login("Unauthorized"));
    assert!(!requires_login("HTTP 500"));
}

#[test]
fn html_to_text() {
    assert_eq!(
        strip_html("<p>a &lt; b &amp;&amp; c</p><br/>&quot;x&quot;&#39;y&#39;&nbsp;z"),
        Some(s("a < b && c\"x\"'y' z"))
    );
    assert_eq!(strip_html("plain"), Some(s("plain")));
    assert_eq!(strip_html("a &amp;lt; b <b>c</b>"), Some(s("a &lt; b c")));
    assert_eq!(decode_entities_of("&gt;&gt;"), ">>");
    assert_eq!(decode_entities_of("&amp;amp; &am &"), "&amp; &am &");
    assert_eq!(decode_entities_of("&&lt;"), "&<");
}

#[test]
fn rows_shown_up_to_limit() {
    assert_eq!(shown_rows(50, 30), 30);
    assert_eq!(shown_rows(12, 30), 12);
    assert_eq!(shown_rows(5, 0), 0);
}

#[test]
fn history_and_catalog() {
    assert_eq!(history_date("2024-05-06T07:08:09Z"), "2024-05-06");
    assert_eq!(history_date("no-time"), "no-time");
    assert_eq!(history_status_color("AC"), TermColor::Green);
    assert_eq!(history_status_color("COMPILE_ERROR"), TermColor::Red);
    assert_eq!(history_status_color("?"), TermColor::Yellow);
    assert!(passes_pid_filter(None, "P1"));
    assert!(passes_pid_filter(Some("P1"), "P1"));
    assert!(!passes_pid_filter(Some("P2"), "P1"));
    assert_eq!(catalog_title("short"), "short");
    let long = "abcdefghijklmnopqrstuvwxyz0123";
    assert_eq!(catalog_title(long), "abcdefghijklmnopqrstuvwxy...");
}

#[test]
fn tags() {
    let tags = vec![
        Tag { id: 1, name: s("算法"), ptype: 2, parent: None },
        Tag { id: 2, name: s("NOIP"), ptype: 3, parent: None },
        Tag { id: 3, name: s("DP"), ptype: 2, parent: Some(1) },
    ];
    assert_eq!(tags_of_type(&tags, 2), vec![0, 2]);
    assert!(tags_of_type(&tags, 9).is_empty());
    assert_eq!(parent_name(&tags, 1), "算法");
    assert_eq!(parent_name(&tags, 7), "?");
}

#[test]
fn user_matches() {
    let none = UserSearchResult { users: vec![None] };
    assert!(matches!(match_users(&none), UserMatch::NotFound));
    let one = UserSearchResult { users: vec![None, Some(user(42, "mico", "Gray"))] };
    assert!(matches!(match_users(&one), UserMatch::One(42)));
    let many = UserSearchResult { users: vec![Some(user(1, "a", "Gray")), None, Some(user(2, "b", "Gray"))] };
    assert!(matches!(&match_users(&many), UserMatch::Many(v) if v == &vec![0usize, 2]));
}

#[test]
fn elo_and_rank_kind() {
    let e = |latest: bool| EloRating { rating: 1, time: 0, latest, userCount: None, prevDiff: None, contest: None };
    assert_eq!(latest_elo(&vec![e(false), e(true), e(true)]), Some(1));
    assert_eq!(latest_elo(&vec![e(false)]), None);
    assert_eq!(rank_kind("GU"), RankKind::Gu);
    assert_eq!(rank_kind("Elo"), RankKind::Elo);
    assert_eq!(rank_kind("等级分"), RankKind::Elo);
    assert_eq!(rank_kind("咕值"), RankKind::Gu);
    assert_eq!(rank_kind("other"), RankKind::Unknown);
}
