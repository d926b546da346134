//! The local catalog web server: the page it serves and how it answers a request.

use crate::text::{chars_of, dec, dec_chars, push_all, push_str, str_eq, string_of, tokens, split_whitespace, lines_of, lines};
use vstd::prelude::*;

verus! {

/// The catalog page: it lists the fetched problems and the judge history,
/// read from `/api/problems` and `/api/history`.
pub const CATALOG_PAGE: &'static str = r#"<!doctype html>
<html lang="zh-CN">
<head>
  <meta charset="utf-8" />
  <meta name="viewport" content="width=device-width, initial-scale=1" />
  <title>Luogu Catalog</title>
  <style>
    :root {
      --bg: #f5f7fb;
      --card: #ffffff;
      --text: #1f2937;
      --sub: #6b7280;
      --line: #d1d5db;
      --accent: #14532d;
      --accent-soft: #d1fae5;
      --danger: #b91c1c;
    }
    * { box-sizing: border-box; }
    body {
      margin: 0;
      padding: 20px;
      font-family: ui-sans-serif, "PingFang SC", "Microsoft YaHei", sans-serif;
      background: linear-gradient(120deg, #eef6ff, #f5f7fb 45%, #f8fff4);
      color: var(--text);
    }
    h1 { margin: 0 0 8px; }
    p.meta { margin: 0 0 16px; color: var(--sub); }
    .card {
      background: var(--card);
      border: 1px solid var(--line);
      border-radius: 12px;
      box-shadow: 0 8px 22px rgba(2, 6, 23, 0.07);
      padding: 14px;
      margin-bottom: 14px;
      overflow: auto;
    }
    .toolbar {
      display: flex;
      gap: 10px;
      flex-wrap: wrap;
      margin-bottom: 14px;
    }
    input, button {
      border: 1px solid var(--line);
      border-radius: 10px;
      padding: 8px 10px;
      font-size: 14px;
    }
    button {
      background: var(--accent);
      color: #fff;
      border-color: var(--accent);
      cursor: pointer;
    }
    table {
      width: 100%;
      border-collapse: collapse;
      min-width: 720px;
    }
    th, td {
      border-bottom: 1px solid var(--line);
      text-align: left;
      padding: 8px;
      vertical-align: top;
      font-size: 14px;
    }
    th { background: #f8fafc; position: sticky; top: 0; }
    .ok { color: var(--accent); font-weight: 700; }
    .bad { color: var(--danger); font-weight: 700; }
    .pill {
      display: inline-block;
      padding: 2px 8px;
      border-radius: 999px;
      background: var(--accent-soft);
      color: #065f46;
      border: 1px solid #a7f3d0;
      margin-right: 5px;
      margin-bottom: 5px;
      font-size: 12px;
    }
    .tiny { color: var(--sub); font-size: 12px; }
    @media (max-width: 900px) {
      body { padding: 12px; }
      .card { padding: 10px; }
    }
  </style>
</head>
<body>
  <h1>Luogu 题库与评测记录</h1>
  <p class="meta">数据来自 .luogu/problems.json 与 .luogu/judge_log.jsonl</p>

  <div class="toolbar">
    <input id="pidFilter" placeholder="按题号过滤，如 P1000" />
    <button onclick="reload()">刷新</button>
  </div>

  <div class="card">
    <h3>题目列表</h3>
    <table>
      <thead>
        <tr>
          <th>题号</th>
          <th>标题</th>
          <th>难度</th>
          <th>时限</th>
          <th>内存</th>
          <th>标签</th>
        </tr>
      </thead>
      <tbody id="problemsBody"></tbody>
    </table>
  </div>

  <div class="card">
    <h3>最近评测</h3>
    <table>
      <thead>
        <tr>
          <th>时间</th>
          <th>题号</th>
          <th>状态</th>
          <th>通过</th>
        </tr>
      </thead>
      <tbody id="historyBody"></tbody>
    </table>
  </div>

  <script>
    async function loadProblems() {
      const res = await fetch('/api/problems');
      const data = await res.json();
      const pidFilter = (document.getElementById('pidFilter').value || '').trim().toUpperCase();
      const body = document.getElementById('problemsBody');
      body.innerHTML = '';

      const rows = Object.entries(data)
        .filter(([pid]) => !pidFilter || pid.includes(pidFilter))
        .sort((a, b) => a[0].localeCompare(b[0]));

      for (const [pid, rec] of rows) {
        const tr = document.createElement('tr');
        const tags = (rec.tags || []).map(t => `<span class="pill">${t}</span>`).join('');
        tr.innerHTML = `
          <td><strong>${pid}</strong></td>
          <td>${rec.title || ''}<div class="tiny">${rec.url || ''}</div></td>
          <td>${rec.difficulty_label || ''}</td>
          <td>${rec.time_limit_ms != null ? (rec.time_limit_ms / 1000).toFixed(2) + 's' : 'n/a'}</td>
          <td>${rec.memory_limit_kb != null ? (rec.memory_limit_kb / 1024).toFixed(2) + 'MB' : 'n/a'}</td>
          <td>${tags}</td>
        `;
        body.appendChild(tr);
      }
      if (rows.length === 0) {
        const tr = document.createElement('tr');
        tr.innerHTML = '<td colspan="6" class="tiny">暂无匹配题目</td>';
        body.appendChild(tr);
      }
    }

    async function loadHistory() {
      const res = await fetch('/api/history');
      const list = await res.json();
      const pidFilter = (document.getElementById('pidFilter').value || '').trim().toUpperCase();
      const body = document.getElementById('historyBody');
      body.innerHTML = '';

      const rows = list.filter(e => !pidFilter || (e.pid || '').includes(pidFilter));
      for (const e of rows) {
        const tr = document.createElement('tr');
        const ok = e.success ? 'ok' : 'bad';
        tr.innerHTML = `
          <td>${(e.timestamp || '').replace('T', ' ').slice(0, 19)}</td>
          <td>${e.pid || ''}</td>
          <td class="${ok}">${e.status || ''}</td>
          <td>${e.pass_count || 0}/${e.test_count || 0}</td>
        `;
        body.appendChild(tr);
      }
      if (rows.length === 0) {
        const tr = document.createElement('tr');
        tr.innerHTML = '<td colspan="4" class="tiny">暂无评测记录</td>';
        body.appendChild(tr);
      }
    }

    async function reload() {
      await Promise.all([loadProblems(), loadHistory()]);
    }

    document.getElementById('pidFilter').addEventListener('input', reload);
    reload();
  </script>
</body>
</html>
"#;

/// The page served at `/`.
pub fn html_page() -> (r: &'static str)
    ensures
        r@ == CATALOG_PAGE@,
{
    CATALOG_PAGE
}

/// What a request is answered with.
#[derive(PartialEq, Eq, Structural, Clone, Copy, Debug)]
pub enum Route {
    /// `405 Method Not Allowed`: the method is not `GET`.
    MethodNotAllowed,
    /// The catalog page.
    Page,
    /// The problem index as JSON.
    Problems,
    /// The judge history as JSON.
    History,
    /// `404 Not Found`.
    NotFound,
}

/// The first line of the request text, or the empty text.
pub open spec fn request_line(req: Seq<char>) -> Seq<char> {
    if lines(req).len() > 0 {
        lines(req)[0]
    } else {
        seq![]
    }
}

/// The route of a request, from the method and path in its first line
/// (the path defaults to `/`, the method to the empty text).
pub open spec fn route_of(req: Seq<char>) -> Route {
    let words = tokens(request_line(req));
    let method = if words.len() > 0 {
        words[0]
    } else {
        seq![]
    };
    let path = if words.len() > 1 {
        words[1]
    } else {
        "/"@
    };
    if method != "GET"@ {
        Route::MethodNotAllowed
    } else if path == "/"@ {
        Route::Page
    } else if path == "/api/problems"@ {
        Route::Problems
    } else if path == "/api/history"@ {
        Route::History
    } else {
        Route::NotFound
    }
}

/// Only `GET` requests are served: every other request, and a request with
/// no method, is refused with `405 Method Not Allowed`.
pub proof fn law_only_get_served(req: Seq<char>)
    ensures
        route_of(req) == Route::MethodNotAllowed <==> !(tokens(request_line(req)).len() > 0
            && tokens(request_line(req))[0] == "GET"@),
{
    reveal_strlit("GET");
    if tokens(request_line(req)).len() == 0 {
        assert(Seq::<char>::empty() != "GET"@) by {
            assert("GET"@.len() == 3);
        }
    }
}

pub fn route_request(req: &str) -> (r: Route)
    ensures
        r == route_of(req@),
{
    let cs = chars_of(req);
    let ls = lines_of(cs.as_slice());
    let first = if ls.len() > 0 {
        string_of(ls[0].as_slice())
    } else {
        String::new()
    };
    assert(first@ == request_line(req@));
    let words = split_whitespace(first.as_str());
    let method = if words.len() > 0 {
        words[0].clone()
    } else {
        String::new()
    };
    let path = if words.len() > 1 {
        words[1].clone()
    } else {
        String::from_str("/")
    };
    if !str_eq(method.as_str(), "GET") {
        Route::MethodNotAllowed
    } else if str_eq(path.as_str(), "/") {
        Route::Page
    } else if str_eq(path.as_str(), "/api/problems") {
        Route::Problems
    } else if str_eq(path.as_str(), "/api/history") {
        Route::History
    } else {
        Route::NotFound
    }
}

/// The head of an HTTP response with a body of `len` bytes.
pub open spec fn response_head(status: Seq<char>, content_type: Seq<char>, len: nat) -> Seq<char> {
    "HTTP/1.1 "@ + status + "\r\nContent-Type: "@ + content_type + "\r\nContent-Length: "@ + dec(len)
        + "\r\nCache-Control: no-store\r\nConnection: close\r\n\r\n"@
}

pub fn response_header(status: &str, content_type: &str, len: usize) -> (r: String)
    ensures
        r@ == response_head(status@, content_type@, len as nat),
{
    let mut out: Vec<char> = chars_of("HTTP/1.1 ");
    push_str(&mut out, status);
    push_str(&mut out, "\r\nContent-Type: ");
    push_str(&mut out, content_type);
    push_str(&mut out, "\r\nContent-Length: ");
    let d = dec_chars(len as u64);
    push_all(&mut out, d.as_slice());
    push_str(&mut out, "\r\nCache-Control: no-store\r\nConnection: close\r\n\r\n");
    string_of(out.as_slice())
}

/// The status line text, content type and fixed body of a route; the JSON
/// routes take their body from the stored data instead (`None`).
pub fn route_response(route: Route) -> (r: (&'static str, &'static str, Option<&'static str>))
    ensures
        route == Route::MethodNotAllowed ==> r.0@ == "405 Method Not Allowed"@ && r.1@
            == "text/plain; charset=utf-8"@ && (r.2 matches Some(b) && b@ == "method not allowed"@),
        route == Route::Page ==> r.0@ == "200 OK"@ && r.1@ == "text/html; charset=utf-8"@ && (
        r.2 matches Some(b) && b@ == CATALOG_PAGE@),
        (route == Route::Problems || route == Route::History) ==> r.0@ == "200 OK"@ && r.1@
            == "application/json; charset=utf-8"@ && r.2 is None,
        route == Route::NotFound ==> r.0@ == "404 Not Found"@ && r.1@
            == "text/plain; charset=utf-8"@ && (r.2 matches Some(b) && b@ == "not found"@),
{
    match route {
        Route::MethodNotAllowed => (
            "405 Method Not Allowed",
            "text/plain; charset=utf-8",
            Some("method not allowed"),
        ),
        Route::Page => ("200 OK", "text/html; charset=utf-8", Some(html_page())),
        Route::Problems => ("200 OK", "application/json; charset=utf-8", None),
        Route::History => ("200 OK", "application/json; charset=utf-8", None),
        Route::NotFound => ("404 Not Found", "text/plain; charset=utf-8", Some("not found")),
    }
}

} // verus!
