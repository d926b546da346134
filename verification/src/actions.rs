//! What each command decides before and between its requests: which
//! problem, which listing, which user, which source file.

use crate::cli::{ContestArgs, RecordArgs, TrainingArgs, UserArgs};
use crate::judge::{has_file, has_file_exec};
use crate::models::RecordListParams;
use crate::paths::{join_path, join_paths};
use crate::text::{
    chars_of, is_blank, parse_i64, parse_i64_spec, push_str, str_trim, string_of, to_uppercase,
    trim, unicode_upper,
};
use vstd::prelude::*;

verus! {

/// The problem id as the commands use it: trimmed and upper-cased.
pub fn normalize_pid(pid: &str) -> (r: String)
    ensures
        r@ == unicode_upper(trim(pid@)),
{
    let t = str_trim(pid);
    to_uppercase(t.as_str())
}

/// What `luogu contest` and `luogu training` do.
pub enum ListOrImport {
    /// List page `page`.
    List,
    /// Import the set with this id.
    Import(i64),
    /// Neither `--list` nor an id was given.
    MissingId,
}

pub fn contest_action(args: &ContestArgs) -> (r: ListOrImport)
    ensures
        args.list ==> r is List,
        !args.list ==> match args.id {
            Some(id) => r == ListOrImport::Import(id),
            None => r is MissingId,
        },
{
    if args.list {
        ListOrImport::List
    } else {
        match args.id {
            Some(id) => ListOrImport::Import(id),
            None => ListOrImport::MissingId,
        }
    }
}

pub fn training_action(args: &TrainingArgs) -> (r: ListOrImport)
    ensures
        args.list ==> r is List,
        !args.list ==> match args.id {
            Some(id) => r == ListOrImport::Import(id),
            None => r is MissingId,
        },
{
    if args.list {
        ListOrImport::List
    } else {
        match args.id {
            Some(id) => ListOrImport::Import(id),
            None => ListOrImport::MissingId,
        }
    }
}

/// The message for a missing contest id.
pub fn contest_id_required() -> (r: &'static str)
    ensures
        r@ == "contest ID required. Use --list to list contests, or provide an ID."@,
{
    "contest ID required. Use --list to list contests, or provide an ID."
}

/// The message for a missing training set id.
pub fn training_id_required() -> (r: &'static str)
    ensures
        r@ == "training ID required. Use --list to list training sets, or provide an ID."@,
{
    "training ID required. Use --list to list training sets, or provide an ID."
}

/// Whom `luogu user` looks up.
pub enum UserTarget {
    /// Search users by this keyword.
    Search(String),
    /// Neither a UID nor a name was given.
    Missing,
    /// The user with this UID.
    Uid(i64),
    /// Find the user by this name first.
    Name(String),
}

pub fn user_target(args: &UserArgs) -> (r: UserTarget)
    ensures
        match args.search {
            Some(k) => r matches UserTarget::Search(x) && x@ == k@,
            None => match args.uid_or_name {
                None => r is Missing,
                Some(s) => match parse_i64_spec(s@) {
                    Some(uid) => r == UserTarget::Uid(uid),
                    None => r matches UserTarget::Name(x) && x@ == s@,
                },
            },
        },
{
    match &args.search {
        Some(k) => UserTarget::Search(k.clone()),
        None => match &args.uid_or_name {
            None => UserTarget::Missing,
            Some(s) => match parse_i64(s.as_str()) {
                Some(uid) => UserTarget::Uid(uid),
                None => UserTarget::Name(s.clone()),
            },
        },
    }
}

/// The filters of `luogu record` without an id.
pub fn record_params(args: &RecordArgs) -> (r: RecordListParams)
    ensures
        r.page == Some(args.page),
        r.pid == args.pid,
        r.user == args.user,
        r.status == args.status,
        r.language is None,
{
    RecordListParams {
        page: Some(args.page),
        pid: args.pid.clone(),
        user: args.user.clone(),
        status: args.status,
        language: None,
    }
}

/// The source file `luogu submit` sends: the given path; otherwise, in the
/// problem's directory, the first of `main.cpp`, `main.cc`, `main.cxx`
/// that exists, or `main.cpp` when none does. `files` lists the names
/// that exist in the problem's directory.
pub open spec fn submit_source_of(
    base_dir: Seq<char>,
    pid: Seq<char>,
    source: Option<Seq<char>>,
    files: Seq<String>,
) -> Seq<char> {
    match source {
        Some(s) => s,
        None => {
            let dir = join_path(base_dir, pid);
            if has_file(files, "main.cpp"@) {
                join_path(dir, "main.cpp"@)
            } else if has_file(files, "main.cc"@) {
                join_path(dir, "main.cc"@)
            } else if has_file(files, "main.cxx"@) {
                join_path(dir, "main.cxx"@)
            } else {
                join_path(dir, "main.cpp"@)
            }
        },
    }
}

pub fn submit_source(base_dir: &str, pid: &str, source: Option<&str>, files: &Vec<String>) -> (r:
    String)
    ensures
        r@ == submit_source_of(
            base_dir@,
            pid@,
            match source {
                Some(s) => Some(s@),
                None => None,
            },
            files@,
        ),
{
    match source {
        Some(s) => String::from_str(s),
        None => {
            let dir = join_paths(base_dir, pid);
            if has_file_exec(files, "main.cpp") {
                join_paths(dir.as_str(), "main.cpp")
            } else if has_file_exec(files, "main.cc") {
                join_paths(dir.as_str(), "main.cc")
            } else if has_file_exec(files, "main.cxx") {
                join_paths(dir.as_str(), "main.cxx")
            } else {
                join_paths(dir.as_str(), "main.cpp")
            }
        },
    }
}

/// Why a submission is not sent.
pub enum SubmitError {
    /// The source file does not exist.
    SourceNotFound,
    /// The source file holds only whitespace.
    EmptySource,
    /// No CSRF token could be had.
    NoCsrf,
}

impl SubmitError {
    pub fn message(&self, source: &str) -> (r: String)
        ensures
            r@ == (match *self {
                SubmitError::SourceNotFound => "source file not found: "@ + source@,
                SubmitError::EmptySource => "source file is empty: "@ + source@,
                SubmitError::NoCsrf => "failed to get CSRF token. You may need to login first."@,
            }),
    {
        match self {
            SubmitError::SourceNotFound => {
                let mut out: Vec<char> = chars_of("source file not found: ");
                push_str(&mut out, source);
                string_of(out.as_slice())
            },
            SubmitError::EmptySource => {
                let mut out: Vec<char> = chars_of("source file is empty: ");
                push_str(&mut out, source);
                string_of(out.as_slice())
            },
            SubmitError::NoCsrf => String::from_str(
                "failed to get CSRF token. You may need to login first.",
            ),
        }
    }
}

/// Checks the source code before a submission: it must not be blank.
pub fn check_code(code: &str) -> (r: Result<(), SubmitError>)
    ensures
        r is Ok <==> trim(code@).len() > 0,
        r matches Err(e) ==> e is EmptySource,
{
    if is_blank(code) {
        Err(SubmitError::EmptySource)
    } else {
        Ok(())
    }
}

/// Checks the CSRF token before a submission: it must not be empty.
pub fn check_csrf(csrf: &str) -> (r: Result<(), SubmitError>)
    ensures
        r is Ok <==> csrf@.len() > 0,
        r matches Err(e) ==> e is NoCsrf,
{
    if csrf.is_empty() {
        Err(SubmitError::NoCsrf)
    } else {
        Ok(())
    }
}

/// Whether a ranking table is followed by the paging hint.
pub fn rank_page_hint(limit: usize) -> (r: bool)
    ensures
        r == (limit >= 20),
{
    limit >= 20
}

} // verus!
