//! Where the tool keeps its data, and which judge log entries it shows.

use crate::paths::{join_path, join_paths};
use vstd::prelude::*;

verus! {

/// The data directory, `.luogu` in the working directory.
pub fn app_dir() -> (r: String)
    ensures
        r@ == ".luogu"@,
{
    String::from_str(".luogu")
}

/// The problem index file, `.luogu/problems.json`.
pub fn problems_file() -> (r: String)
    ensures
        r@ == join_path(".luogu"@, "problems.json"@),
{
    join_paths(".luogu", "problems.json")
}

/// The judge log file, `.luogu/judge_log.jsonl`.
pub fn judge_log_file() -> (r: String)
    ensures
        r@ == join_path(".luogu"@, "judge_log.jsonl"@),
{
    join_paths(".luogu", "judge_log.jsonl")
}

/// The directory of problem `pid` under `base_dir`.
pub fn problem_dir(base_dir: &str, pid: &str) -> (r: String)
    ensures
        r@ == join_path(base_dir@, pid@),
{
    join_paths(base_dir, pid)
}

/// The judge log entries shown: the newest first, at most `limit` of them.
pub open spec fn recent_spec<T>(entries: Seq<T>, limit: nat) -> Seq<T> {
    let rev = entries.reverse();
    if rev.len() > limit {
        rev.take(limit as int)
    } else {
        rev
    }
}

/// The entries shown are the newest ones, newest first: as many as the log
/// holds, up to `limit`, the `i`-th being the `i`-th from the end of the log.
pub proof fn law_recent_newest_first<T>(entries: Seq<T>, limit: nat)
    ensures
        recent_spec(entries, limit).len() == if entries.len() > limit {
            limit
        } else {
            entries.len()
        },
        forall|i: int|
            0 <= i < recent_spec(entries, limit).len() ==> #[trigger] recent_spec(entries, limit)[i]
                == entries[entries.len() - 1 - i],
{
}

/// The entry appended last is shown first, with as many entries as the log
/// holds, up to `limit`.
pub proof fn law_appended_entry_shown_first<T>(entries: Seq<T>, e: T, limit: nat)
    requires
        limit >= 1,
    ensures
        recent_spec(entries.push(e), limit)[0] == e,
        recent_spec(entries.push(e), limit).len() == if entries.len() + 1 > limit {
            limit
        } else {
            entries.len() + 1
        },
{
    law_recent_newest_first(entries.push(e), limit);
}

/// Reverses the entries (the log is appended to, so the newest is last)
/// and keeps the first `limit`.
pub fn recent_entries<T>(entries: Vec<T>, limit: usize) -> (r: Vec<T>)
    ensures
        r@ == recent_spec(entries@, limit as nat),
{
    let mut entries = entries;
    let ghost orig = entries@;
    let mut out: Vec<T> = Vec::new();
    while entries.len() > 0
        invariant
            out@ == orig.reverse().take(orig.len() - entries@.len()),
            entries@ == orig.take(entries@.len() as int),
            entries@.len() <= orig.len(),
        decreases entries.len(),
    {
        let ghost before = entries@;
        let x = entries.pop().unwrap();
        proof {
            let k = orig.len() - before.len();
            assert(orig.reverse()[k] == orig[before.len() - 1]);
            assert(orig.reverse().take(k + 1) =~= orig.reverse().take(k).push(orig.reverse()[k]));
            assert(entries@ =~= orig.take(entries@.len() as int));
        }
        out.push(x);
    }
    assert(orig.reverse().take(orig.len() as int) =~= orig.reverse());
    if out.len() > limit {
        out.truncate(limit);
    }
    out
}

} // verus!
