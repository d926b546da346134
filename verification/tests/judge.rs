use luogu::judge::{
    apply_settings, compile_settings,
    build_diff_message, collect_samples, cpp_compile_args, detect_language_and_source,
    judge_sample, normalize_text, parse_opt_level, python_check_args, run_command, same_tokens,
    summarize, compile_error_summary, truncate_line, binary_path, name_le_exec, CompileConfig,
    JudgeError, RunOutcome, Verdict,
};

fn names(v: &[&str]) -> Vec<String> {
    v.iter().map(|s| s.to_string()).collect()
}

fn config(lang: &str, src: &str, std: &str, opt: &str) -> CompileConfig {
    CompileConfig {
        language: lang.to_string(),
        source: src.to_string(),
        cpp_std: std.to_string(),
        optimization: opt.to_string(),
    }
}

#[test]
fn normalize_splits_on_any_whitespace() {
    assert_eq!(normalize_text("  1 2\n3\t4  \r\n"), vec!["1", "2", "3", "4"]);
    assert!(normalize_text(" \n\t ").is_empty());
}

#[test]
fn same_tokens_ignores_layout() {
    assert!(same_tokens("1 2\n3\n", "1\n2 3"));
    assert!(same_tokens("", "\n\n"));
    assert!(!same_tokens("1 2", "1 2 3"));
    assert!(!same_tokens("12", "1 2"));
}

#[test]
fn trailing_newline_does_not_matter() {
    assert!(same_tokens("42", "42\n"));
    assert!(same_tokens("  42", "42"));
}

#[test]
fn truncate_line_keeps_short_lines() {
    assert_eq!(truncate_line("abc", 3), "abc");
    assert_eq!(truncate_line("abcd", 3), "abc...");
    assert_eq!(truncate_line("题目背景", 2), "题目...");
    assert_eq!(truncate_line("", 0), "");
}

#[test]
fn diff_reports_differing_lines() {
    let msg = build_diff_message("1\n2\n3\n", "1\n5\n");
    assert_eq!(msg, "--- expected\n+++ actual\n-   2 | 2\n+   2 | 5\n-   3 | 3\n+   3 | <EOF>");
}

#[test]
fn diff_falls_back_to_tokens() {
    let msg = build_diff_message("1 2", "1  2");
    assert_eq!(
        msg,
        "--- expected\n+++ actual\n-   1 | 1 2\n+   1 | 1  2"
    );
    let msg = build_diff_message("a\n", "a\n\n");
    assert_eq!(msg, "token mismatch\nexpected(tokens): [\"a\"]\nactual(tokens):   [\"a\"]");
    let msg = build_diff_message("a\r\n", "a\n");
    assert_eq!(msg, "token mismatch\nexpected(tokens): [\"a\"]\nactual(tokens):   [\"a\"]");
}

#[test]
fn token_report_escapes_like_debug() {
    let msg = build_diff_message("x\"y\\z\r\n", "x\"y\\z\n");
    assert_eq!(
        msg,
        "token mismatch\nexpected(tokens): [\"x\\\"y\\\\z\"]\nactual(tokens):   [\"x\\\"y\\\\z\"]"
    );
}

#[test]
fn diff_truncates_long_lines() {
    let long = "x".repeat(250);
    let msg = build_diff_message(&long, "y");
    let expected_side = format!("{}...", "x".repeat(200));
    assert_eq!(msg, format!("--- expected\n+++ actual\n-   1 | {}\n+   1 | y", expected_side));
}

#[test]
fn opt_levels() {
    assert_eq!(parse_opt_level("none").ok().unwrap(), "O0");
    assert_eq!(parse_opt_level(" o0 ").ok().unwrap(), "O0");
    assert_eq!(parse_opt_level("o1").ok().unwrap(), "O1");
    assert_eq!(parse_opt_level("O2").ok().unwrap(), "O2");
    assert_eq!(parse_opt_level("o3").ok().unwrap(), "O3");
    assert_eq!(parse_opt_level("os").ok().unwrap(), "Os");
    match parse_opt_level("fast") {
        Err(e) => {
            assert!(matches!(&e, JudgeError::UnsupportedOpt(x) if x == "fast"));
            assert_eq!(
                e.message("problem/P1000"),
                "unsupported --opt value: fast (supported: none/O1/O2/O3/Os)"
            );
        }
        Ok(_) => panic!("accepted an unknown level"),
    }
}

#[test]
fn detect_prefers_main_cpp() {
    let files = names(&["main.cpp", "main.py"]);
    let c = detect_language_and_source(&files, None, None).ok().unwrap();
    assert_eq!(c.language, "cpp");
    assert_eq!(c.source, "main.cpp");
    assert_eq!(c.cpp_std, "c++17");
    assert_eq!(c.optimization, "O2");
}

#[test]
fn detect_falls_back_to_python() {
    let files = names(&["main.py"]);
    let c = detect_language_and_source(&files, None, None).ok().unwrap();
    assert_eq!(c.language, "python");
    assert_eq!(c.source, "main.py");
    assert_eq!(c.cpp_std, "");
    assert_eq!(c.optimization, "");
}

#[test]
fn detect_tries_every_cpp_candidate_first() {
    let c = detect_language_and_source(&names(&["main.cc", "main.py"]), None, None).ok().unwrap();
    assert_eq!((c.language.as_str(), c.source.as_str()), ("cpp", "main.cc"));
    let c = detect_language_and_source(&names(&["main.py", "main.cxx"]), None, None).ok().unwrap();
    assert_eq!((c.language.as_str(), c.source.as_str()), ("cpp", "main.cxx"));
    let c = detect_language_and_source(&names(&["main.cxx", "main.cc"]), None, None).ok().unwrap();
    assert_eq!(c.source, "main.cc");
}

#[test]
fn explicit_source_must_be_cpp() {
    let files = names(&["main.py", "a.cxx"]);
    match detect_language_and_source(&files, None, Some("main.py")) {
        Err(e) => assert_eq!(e.message("d"), "unsupported file extension: main.py"),
        Ok(_) => panic!("accepted a Python source"),
    }
    let c = detect_language_and_source(&files, Some("python"), Some("a.cxx")).ok().unwrap();
    assert_eq!((c.language.as_str(), c.source.as_str()), ("cpp", "a.cxx"));
}

#[test]
fn detect_explicit_source() {
    let files = names(&["solve.cc", "a.txt"]);
    let c = detect_language_and_source(&files, None, Some("solve.cc")).ok().unwrap();
    assert_eq!(c.language, "cpp");
    assert_eq!(c.source, "solve.cc");
    match detect_language_and_source(&files, None, Some("a.txt")) {
        Err(e) => {
            assert!(matches!(&e, JudgeError::UnsupportedExtension(x) if x == "a.txt"));
            assert_eq!(e.message("d"), "unsupported file extension: a.txt");
        }
        Ok(_) => panic!("accepted a text file"),
    }
    match detect_language_and_source(&files, None, Some("x.cpp")) {
        Err(e) => {
            assert!(matches!(&e, JudgeError::SourceNotFound(x) if x == "x.cpp"));
            assert_eq!(e.message("problem/P1"), "source file not found: problem/P1/x.cpp");
        }
        Ok(_) => panic!("accepted a missing file"),
    }
}

#[test]
fn detect_by_language() {
    let files = names(&["main.cxx", "main.py"]);
    let c = detect_language_and_source(&files, Some("c++17"), None).ok().unwrap();
    assert_eq!(c.source, "main.cxx");
    let c = detect_language_and_source(&files, Some("py"), None).ok().unwrap();
    assert_eq!(c.language, "python");
    assert_eq!(c.optimization, "O2");
    match detect_language_and_source(&names(&["main.py"]), Some("cpp"), None) {
        Err(e) => assert_eq!(e.message("d"), "no source file found for language: cpp"),
        Ok(_) => panic!("found a C++ source"),
    }
    match detect_language_and_source(&files, Some("rust"), None) {
        Err(e) => assert_eq!(e.message("d"), "unsupported language: rust"),
        Ok(_) => panic!("accepted rust"),
    }
    match detect_language_and_source(&names(&[]), None, None) {
        Err(e) => {
            assert!(matches!(e, JudgeError::NoSource));
            assert_eq!(e.message("d"), "no source file found (main.cpp or main.py)");
        }
        Ok(_) => panic!("found a source"),
    }
}

#[test]
fn other_judge_errors() {
    assert_eq!(JudgeError::ProblemDirMissing.message("problem/P9"), "problem dir not found: problem/P9");
    assert_eq!(JudgeError::NoSamples.message("problem/P9"), "no sample *.in files in problem/P9");
}

#[test]
fn compile_arguments() {
    let c = config("cpp", "main.cpp", "c++17", "o2");
    let args = cpp_compile_args("problem/P1000", &c, &names(&["-lm"]), &names(&["-g"])).ok().unwrap();
    assert_eq!(
        args,
        vec![
            "problem/P1000/main.cpp",
            "-std=c++17",
            "-O2",
            "-pipe",
            "-Wall",
            "-Wextra",
            "-DLOCAL=1",
            "-o",
            "problem/P1000/.luogu_solution",
            "-lm",
            "-g",
        ]
    );
    let bad = config("cpp", "main.cpp", "c++17", "fast");
    assert!(matches!(cpp_compile_args("p", &bad, &Vec::new(), &Vec::new()), Err(JudgeError::UnsupportedOpt(_))));
    assert_eq!(binary_path("p/"), "p/.luogu_solution");
}

#[test]
fn compile_settings_defaults_and_use() {
    let d = compile_settings(None, None, None, None);
    assert_eq!((d.compiler.as_str(), d.cpp_standard.as_str(), d.optimization.as_str()), ("g++", "c++17", "O2"));
    assert!(d.extra_flags.is_empty());
    let s = compile_settings(Some("clang++".to_string()), Some("c++20".to_string()), Some("O3".to_string()), Some(names(&["-g"])));
    assert_eq!(s.compiler, "clang++");
    assert_eq!(s.extra_flags, vec!["-g"]);
    let c = apply_settings(config("cpp", "main.cc", "c++17", "O2"), &s);
    assert_eq!((c.source.as_str(), c.cpp_std.as_str(), c.optimization.as_str()), ("main.cc", "c++20", "O3"));
    let p = apply_settings(config("python", "main.py", "", ""), &s);
    assert_eq!((p.cpp_std.as_str(), p.optimization.as_str()), ("", ""));
    let args = cpp_compile_args("d", &c, &s.extra_flags, &Vec::new()).ok().unwrap();
    assert_eq!(args[1], "-std=c++20");
    assert_eq!(args[2], "-O3");
    assert_eq!(args[9], "-g");
}

#[test]
fn python_commands() {
    let c = config("python", "main.py", "", "");
    assert_eq!(python_check_args("p", &c), vec!["-m", "py_compile", "p/main.py"]);
    let (prog, args) = run_command("p", &c);
    assert_eq!(prog, "python3");
    assert_eq!(args, vec!["p/main.py"]);
    let (prog, args) = run_command("p", &config("cpp", "main.cpp", "c++17", "O2"));
    assert_eq!(prog, "p/.luogu_solution");
    assert!(args.is_empty());
}

#[test]
fn verdicts() {
    let ok = RunOutcome::Exited { success: true, code: Some(0) };
    let v = judge_sample(&ok, "3\n", "3");
    assert!(v.is_accepted());
    assert_eq!(v.status(), "AC");
    assert_eq!(v.message("x", "2"), "accepted");
    let v = judge_sample(&ok, "3\n", "4\n");
    assert_eq!(v.status(), "WA");
    assert_eq!(
        v.message("x", "2"),
        "wrong answer\n--- expected\n+++ actual\n-   1 | 3\n+   1 | 4"
    );
    let v = judge_sample(&RunOutcome::Exited { success: false, code: Some(-11) }, "3", "3");
    assert_eq!(v.status(), "RE");
    assert_eq!(v.message("x", "2"), "exit code Some(-11)");
    let v = judge_sample(&RunOutcome::Exited { success: false, code: None }, "3", "3");
    assert_eq!(v.message("x", "2"), "exit code None");
    let v = judge_sample(&RunOutcome::TimedOut, "3", "3");
    assert_eq!(v.status(), "TLE");
    assert_eq!(v.message("x", "2.5"), "timeout after 2.5s");
    let v = judge_sample(&RunOutcome::MissingExpected, "", "3");
    assert_eq!(v.status(), "NO_EXPECTED");
    assert_eq!(v.message("p/sample1.out", "2"), "missing p/sample1.out");
}

#[test]
fn summary_success_iff_all_accepted() {
    let s = summarize(&vec![Verdict::Accepted, Verdict::Accepted]);
    assert_eq!((s.pass_count, s.test_count, s.success, s.exit_code), (2, 2, true, 0));
    assert_eq!(s.status, "AC");
    let s = summarize(&vec![Verdict::Accepted, Verdict::TimeLimit, Verdict::Accepted]);
    assert_eq!((s.pass_count, s.test_count, s.success, s.exit_code), (2, 3, false, 2));
    assert_eq!(s.status, "FAILED");
    let s = compile_error_summary();
    assert_eq!((s.pass_count, s.test_count, s.success, s.exit_code), (0, 0, false, 1));
    assert_eq!(s.status, "COMPILE_ERROR");
}

#[test]
fn samples_are_paired_and_sorted() {
    let files = names(&["sample2.in", "main.cpp", "sample1.out", "sample1.in", "sample2.out", ".in", "T.md"]);
    let s = collect_samples(&files);
    assert_eq!(
        s,
        vec![
            ("sample1.in".to_string(), "sample1.out".to_string()),
            ("sample2.in".to_string(), "sample2.out".to_string()),
        ]
    );
    let s = collect_samples(&names(&["b.in", "a.in", "B.in"]));
    let firsts: Vec<&str> = s.iter().map(|p| p.0.as_str()).collect();
    assert_eq!(firsts, vec!["B.in", "a.in", "b.in"]);
    assert!(collect_samples(&names(&["x.out", "y.txt"])).is_empty());
}

#[test]
fn name_order() {
    let a: Vec<char> = "sample10.in".chars().collect();
    let b: Vec<char> = "sample2.in".chars().collect();
    assert!(name_le_exec(&a, &b));
    assert!(!name_le_exec(&b, &a));
    assert!(name_le_exec(&a, &a));
    assert!(name_le_exec(&[], &a));
}
