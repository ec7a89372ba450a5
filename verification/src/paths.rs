//! File-system paths, held as their UTF-8 text (Unix paths: `/` separates
//! components).

use vstd::prelude::*;
use std::path::Path;
use crate::text::{owned, concat2, concat3, chars_of, starts_with, ends_with, has_suffix};

verus! {

/// The text of `base` joined with `part`, as `std::path::Path::join`
/// documents it on Unix: an absolute `part` (one that begins with `/`)
/// replaces `base`; otherwise `part` follows `base`, with a `/` between them
/// when `base` is not empty and does not already end with one.
pub open spec fn joined(base: Seq<char>, part: Seq<char>) -> Seq<char> {
    if part.len() > 0 && part[0] == '/' {
        part
    } else if base.len() == 0 || base.last() == '/' {
        base + part
    } else {
        base + "/"@ + part
    }
}

/// The text of the parent of `path` by `std::path::Path::parent`, if it has one.
pub uninterp spec fn parent_of(path: Seq<char>) -> Option<Seq<char>>;

/// `base` joined with `part`, as `std::path::Path::join` does it on Unix.
pub(crate) fn join(base: &str, part: &str) -> (r: String)
    ensures
        r@ == joined(base@, part@),
{
    proof {
        reveal_strlit("/");
    }
    if starts_with(part, "/") {
        assert(part@.len() > 0 && part@[0] == part@.take(1)[0]);
        owned(part)
    } else {
        assert(part@.len() > 0 ==> part@[0] != '/' || part@.take(1) =~= "/"@);
        let base_chars = chars_of(base);
        if base_chars.len() == 0 || ends_with(base, "/") {
            assert(base@.len() > 0 && has_suffix(base@, "/"@) ==> base@.last() == base@.skip(base@.len() - 1)[0]);
            concat2(base, part)
        } else {
            assert(base@.len() > 0 && base@.last() == '/' ==> base@.skip(base@.len() - 1) =~= "/"@);
            concat3(base, "/", part)
        }
    }
}

/// Calls `std::path::Path::parent`. Claimed: the result is a function of the
/// text alone (named `parent_of`); a parent of UTF-8 text is UTF-8 text.
#[verifier::external_body]
pub(crate) fn parent(path: &str) -> (r: Option<String>)
    ensures
        match r {
            Some(p) => parent_of(path@) == Some(p@),
            None => parent_of(path@) is None,
        },
{
    match Path::new(path).parent() {
        Some(p) => Some(p.to_string_lossy().into_owned()),
        None => None,
    }
}


/// `base` joined with `a`, then with `b`.
pub open spec fn joined2(base: Seq<char>, a: Seq<char>, b: Seq<char>) -> Seq<char> {
    joined(joined(base, a), b)
}

/// `base` joined with `a`, `b` and `c` in turn.
pub open spec fn joined3(base: Seq<char>, a: Seq<char>, b: Seq<char>, c: Seq<char>) -> Seq<char> {
    joined(joined2(base, a, b), c)
}

/// `base` joined with `a`, `b`, `c` and `d` in turn.
pub open spec fn joined4(base: Seq<char>, a: Seq<char>, b: Seq<char>, c: Seq<char>, d: Seq<char>) -> Seq<char> {
    joined(joined3(base, a, b, c), d)
}

/// `base` joined with `a`, then with `b`.
pub fn join2(base: &str, a: &str, b: &str) -> (r: String)
    ensures
        r@ == joined2(base@, a@, b@),
{
    let x = join(base, a);
    join(x.as_str(), b)
}

/// `base` joined with `a`, `b` and `c` in turn.
pub fn join3(base: &str, a: &str, b: &str, c: &str) -> (r: String)
    ensures
        r@ == joined3(base@, a@, b@, c@),
{
    let x = join2(base, a, b);
    join(x.as_str(), c)
}

/// `base` joined with `a`, `b`, `c` and `d` in turn.
pub fn join4(base: &str, a: &str, b: &str, c: &str, d: &str) -> (r: String)
    ensures
        r@ == joined4(base@, a@, b@, c@, d@),
{
    let x = join3(base, a, b, c);
    join(x.as_str(), d)
}

} // verus!
