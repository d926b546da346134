//! The project configuration `luogu_config.json`: the code template that new
//! problem directories are scaffolded with.

use crate::paths::{join_path, join_paths};
use crate::text::{chars_of, str_trim, string_of, trim};
use vstd::prelude::*;

verus! {

/// The template settings as written in the configuration file.
pub struct TemplateConfig {
    /// Inline template source code; it wins over `path` when not empty.
    pub code: Option<String>,
    /// A template file, absolute or relative to the configuration file.
    pub path: Option<String>,
}

/// The resolved project configuration.
pub struct Config {
    pub template: Option<String>,
}

impl Config {
    /// The source code that new problems are scaffolded with, if configured.
    pub fn template(&self) -> (r: Option<&str>)
        ensures
            match r {
                Some(t) => self.template matches Some(s) && t@ == s@,
                None => self.template is None,
            },
    {
        match &self.template {
            Some(s) => Some(s.as_str()),
            None => None,
        }
    }
}

/// The configuration file, in the working directory.
pub fn config_path() -> (r: String)
    ensures
        r@ == "luogu_config.json"@,
{
    String::from_str("luogu_config.json")
}

/// The C++ compilation settings file, in the working directory.
pub fn compile_settings_path() -> (r: String)
    ensures
        r@ == "judge_cpp.json"@,
{
    String::from_str("judge_cpp.json")
}

/// Index of the last `'/'` in `s`, if any.
pub open spec fn last_slash(s: Seq<char>) -> Option<int>
    decreases s.len(),
{
    if s.len() == 0 {
        None
    } else if s.last() == '/' {
        Some(s.len() - 1)
    } else {
        last_slash(s.drop_last())
    }
}

/// `s` without its trailing `/` characters.
pub open spec fn trim_end_slashes(s: Seq<char>) -> Seq<char>
    decreases s.len(),
{
    if s.len() > 0 && s.last() == '/' {
        trim_end_slashes(s.drop_last())
    } else {
        s
    }
}

/// The directory a path's file is in, as `Path::parent` gives it on Unix
/// with `.` in its place where there is none (the empty path, the root):
/// the path without its last component and the separators before it; `/`
/// for a file at the root; the empty text for a bare file name. Paths are
/// taken without `.` components in the middle.
pub open spec fn parent_dir(p: Seq<char>) -> Seq<char> {
    let q = trim_end_slashes(p);
    if q.len() == 0 {
        "."@
    } else {
        match last_slash(q) {
            Some(k) => {
                let d = trim_end_slashes(q.take(k));
                if d.len() == 0 {
                    "/"@
                } else {
                    d
                }
            },
            None => seq![],
        }
    }
}

pub proof fn lemma_last_slash(s: Seq<char>, k: int)
    requires
        -1 <= k < s.len(),
        k >= 0 ==> s[k] == '/',
        forall|j: int| k < j < s.len() ==> #[trigger] s[j] != '/',
    ensures
        last_slash(s) == (if k >= 0 {
            Some(k)
        } else {
            None
        }),
    decreases s.len(),
{
    if s.len() > 0 && s.len() - 1 != k {
        let t = s.drop_last();
        assert forall|j: int| k < j < t.len() implies #[trigger] t[j] != '/' by {
            assert(t[j] == s[j]);
        }
        assert(s.last() == s[s.len() - 1]);
        if k >= 0 {
            assert(t[k] == s[k]);
        }
        lemma_last_slash(t, k);
    }
}

/// The length of `cs[..n]` without its trailing `/` characters.
fn trim_end_slashes_len(cs: &[char], n: usize) -> (m: usize)
    requires
        n <= cs@.len(),
    ensures
        m <= n,
        cs@.take(m as int) == trim_end_slashes(cs@.take(n as int)),
{
    let mut m: usize = n;
    while m > 0 && cs[m - 1] == '/'
        invariant
            m <= n <= cs@.len(),
            trim_end_slashes(cs@.take(m as int)) == trim_end_slashes(cs@.take(n as int)),
        decreases m,
    {
        proof {
            assert(cs@.take(m as int).drop_last() =~= cs@.take(m - 1));
        }
        m = m - 1;
    }
    m
}

pub fn parent_of(p: &str) -> (r: String)
    ensures
        r@ == parent_dir(p@),
{
    let cs = chars_of(p);
    proof {
        assert(cs@.take(cs@.len() as int) =~= cs@);
    }
    let q = trim_end_slashes_len(cs.as_slice(), cs.len());
    if q == 0 {
        proof {
            reveal_strlit(".");
        }
        return String::from_str(".");
    }
    let mut k: usize = q;
    while k > 0 && cs[k - 1] != '/'
        invariant
            k <= q <= cs@.len(),
            forall|j: int| k <= j < q ==> #[trigger] cs@[j] != '/',
        decreases k,
    {
        k = k - 1;
    }
    proof {
        let t = cs@.take(q as int);
        assert forall|j: int| k - 1 < j < t.len() implies #[trigger] t[j] != '/' by {
            assert(t[j] == cs@[j]);
        }
        lemma_last_slash(t, k - 1);
    }
    if k == 0 {
        return String::new();
    }
    let d = trim_end_slashes_len(cs.as_slice(), k - 1);
    proof {
        assert(cs@.take(q as int).take(k - 1) =~= cs@.take(k - 1));
    }
    if d == 0 {
        String::from_str("/")
    } else {
        string_of(&cs.as_slice()[0..d])
    }
}

/// Where the template comes from.
pub enum TemplateSource {
    /// The inline code.
    Inline(String),
    /// The file at this path, to be read.
    File(String),
    /// No template is configured.
    Absent,
}

/// The source of the template: the inline code when it is not empty;
/// otherwise the trimmed path when it is not empty, taken as is when
/// absolute and relative to the directory of the configuration file
/// otherwise; otherwise none.
pub open spec fn template_source_of(
    code: Option<Seq<char>>,
    path: Option<Seq<char>>,
    config_path: Seq<char>,
    r: TemplateSource,
) -> bool {
    let c = code.unwrap_or(seq![]);
    let p = path.unwrap_or(seq![]);
    if c.len() > 0 {
        r matches TemplateSource::Inline(t) && t@ == c
    } else if trim(p).len() > 0 {
        r matches TemplateSource::File(f) && f@ == join_path(parent_dir(config_path), trim(p))
    } else {
        r is Absent
    }
}

pub open spec fn opt_view(o: Option<String>) -> Option<Seq<char>> {
    match o {
        Some(s) => Some(s@),
        None => None,
    }
}

pub fn resolve_template(template: &TemplateConfig, config_path: &str) -> (r: TemplateSource)
    ensures
        template_source_of(opt_view(template.code), opt_view(template.path), config_path@, r),
{
    if let Some(code) = &template.code {
        if !code.as_str().is_empty() {
            return TemplateSource::Inline(code.clone());
        }
    }
    if let Some(raw) = &template.path {
        let p = str_trim(raw.as_str());
        if !p.as_str().is_empty() {
            let dir = parent_of(config_path);
            return TemplateSource::File(join_paths(dir.as_str(), p.as_str()));
        }
    }
    TemplateSource::Absent
}

/// The template the configuration holds once its source is resolved and,
/// for a file, the file's text `file_text` has been read.
pub open spec fn loaded_template(source: TemplateSource, file_text: Option<Seq<char>>) -> Option<
    Seq<char>,
> {
    match source {
        TemplateSource::Inline(code) => Some(code@),
        TemplateSource::File(_) => file_text,
        TemplateSource::Absent => None,
    }
}

/// The configuration from the resolved template source; `file_text` is
/// the text of the template file when the source is a file.
pub fn config_from_source(source: TemplateSource, file_text: Option<String>) -> (r: Config)
    ensures
        opt_view(r.template) == loaded_template(source, opt_view(file_text)),
{
    match source {
        TemplateSource::Inline(code) => Config { template: Some(code) },
        TemplateSource::File(_) => Config { template: file_text },
        TemplateSource::Absent => Config { template: None },
    }
}

/// Inline template code that is not empty is the code new problems are
/// scaffolded with, whatever the template path says.
pub proof fn law_inline_code_is_the_template(
    code: Seq<char>,
    path: Option<Seq<char>>,
    config_path: Seq<char>,
    source: TemplateSource,
    file_text: Option<Seq<char>>,
)
    requires
        code.len() > 0,
        template_source_of(Some(code), path, config_path, source),
    ensures
        loaded_template(source, file_text) == Some(code),
{
}

/// With the inline code and the path both empty or absent, there is no
/// template, so no `main.cpp` is scaffolded.
pub proof fn law_no_template_when_both_empty(
    code: Option<Seq<char>>,
    path: Option<Seq<char>>,
    config_path: Seq<char>,
    source: TemplateSource,
    file_text: Option<Seq<char>>,
)
    requires
        code.unwrap_or(seq![]).len() == 0,
        trim(path.unwrap_or(seq![])).len() == 0,
        template_source_of(code, path, config_path, source),
    ensures
        loaded_template(source, file_text) is None,
{
}

} // verus!
