//! Path joining with Unix path rules (what `Path::join` does on Unix).

use vstd::prelude::*;
use crate::text::{push_str, string_of};

verus! {

/// `base` joined with `seg`: an absolute `seg` replaces `base`; otherwise a
/// `/` is put between them unless `base` is empty or already ends in `/`.
pub open spec fn path_join(base: Seq<char>, seg: Seq<char>) -> Seq<char> {
    if seg.len() > 0 && seg[0] == '/' {
        seg
    } else if base.len() > 0 && base.last() != '/' {
        base + "/"@ + seg
    } else {
        base + seg
    }
}

/// Joins a path segment onto a base path.
pub fn join_path(base: &str, seg: &str) -> (r: String)
    ensures
        r@ == path_join(base@, seg@),
{
    let sv = crate::text::chars_of(seg);
    if sv.len() > 0 && sv[0] == '/' {
        return string_of(seg);
    }
    let mut r = string_of(base);
    let bv = crate::text::chars_of(base);
    if bv.len() > 0 && bv[bv.len() - 1] != '/' {
        push_str(&mut r, "/");
    }
    push_str(&mut r, seg);
    r
}

} // verus!
