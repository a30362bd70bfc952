//! How a learning is shown.

use vstd::prelude::*;
use crate::learn::store::Learning;
use crate::text::{char_pos, join_strings, join_with, push_str, string_from_range, chars_of, string_of, views};

verus! {

/// ` [tag, tag]`, or nothing when there are no tags.
pub open spec fn tags_suffix(tags: Seq<Seq<char>>) -> Seq<char> {
    if tags.len() == 0 {
        seq![]
    } else {
        " ["@ + join_with(tags, ", "@) + "]"@
    }
}

/// The date part of an RFC 3339 timestamp: everything before the first `T`.
pub open spec fn date_part(ts: Seq<char>) -> Seq<char> {
    ts.take(char_pos(ts, 'T') as int)
}

/// The tags of a learning, bracketed.
pub fn tags_text(l: &Learning) -> (r: String)
    ensures
        r@ == tags_suffix(views(l.tags@)),
{
    if l.tags.len() == 0 {
        return String::new();
    }
    let mut r = string_of(" [");
    let j = join_strings(&l.tags, ", ");
    push_str(&mut r, j.as_str());
    push_str(&mut r, "]");
    r
}

/// The date of a learning's timestamp.
pub fn timestamp_date(ts: &str) -> (r: String)
    ensures
        r@ == date_part(ts@),
{
    let v = chars_of(ts);
    let mut i: usize = 0;
    while i < v.len() && v[i] != 'T'
        invariant
            i <= v.len(),
            forall|j: int| 0 <= j < i ==> v@[j] != 'T',
        decreases v.len() - i,
    {
        i = i + 1;
    }
    proof {
        crate::text::lemma_char_pos(v@, 'T', i as int);
    }
    string_from_range(&v, 0, i)
}

/// The lines that show a learning: the message with its tags, then the
/// project and the date, then a blank line.
pub fn learning_lines(l: &Learning) -> (r: Vec<String>)
    ensures
        views(r@) == seq![
            "  \u{2022} "@ + l.message@ + tags_suffix(views(l.tags@)),
            "    "@ + l.project@ + " | "@ + date_part(l.timestamp@),
            Seq::<char>::empty(),
        ],
{
    let mut first = string_of("  \u{2022} ");
    push_str(&mut first, l.message.as_str());
    let t = tags_text(l);
    push_str(&mut first, t.as_str());
    let mut second = string_of("    ");
    push_str(&mut second, l.project.as_str());
    push_str(&mut second, " | ");
    let d = timestamp_date(l.timestamp.as_str());
    push_str(&mut second, d.as_str());
    let mut out: Vec<String> = Vec::new();
    out.push(first);
    out.push(second);
    out.push(String::new());
    proof {
        assert(views(out@) =~= seq![
            "  \u{2022} "@ + l.message@ + tags_suffix(views(l.tags@)),
            "    "@ + l.project@ + " | "@ + date_part(l.timestamp@),
            Seq::<char>::empty(),
        ]);
    }
    out
}

} // verus!
