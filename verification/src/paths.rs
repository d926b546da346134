//! File system paths as text, with `/` as the separator.

use crate::text::{chars_of, push_all, string_of};
use vstd::prelude::*;

verus! {

/// `base.join(p)` on a Unix path: an absolute `p` replaces `base`;
/// otherwise `p` is appended, with a `/` in between unless `base` is empty
/// or already ends with one.
pub open spec fn join_path(base: Seq<char>, p: Seq<char>) -> Seq<char> {
    if p.len() > 0 && p[0] == '/' {
        p
    } else if base.len() == 0 || base.last() == '/' {
        base + p
    } else {
        base + seq!['/'] + p
    }
}

pub fn join_paths(base: &str, p: &str) -> (r: String)
    ensures
        r@ == join_path(base@, p@),
{
    let b = chars_of(base);
    let q = chars_of(p);
    let mut out: Vec<char> = Vec::new();
    if q.len() > 0 && q[0] == '/' {
        push_all(&mut out, q.as_slice());
    } else {
        push_all(&mut out, b.as_slice());
        if b.len() > 0 && b[b.len() - 1] != '/' {
            out.push('/');
        }
        push_all(&mut out, q.as_slice());
    }
    string_of(out.as_slice())
}

} // verus!
