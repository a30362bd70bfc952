//! Learnings: what a record holds, which records a search finds, and which
//! ones survive pruning.

use vstd::prelude::*;
use crate::clock::utc_timestamp_text;
use crate::text::eq_text;
use crate::text::{
    chars_of, contains_seq, contains_str, copy_strings, has_suffix, lowercase, string_of, to_lowercase,
    views,
};

verus! {

/// One recorded learning.
#[derive(Debug, Clone)]
pub struct Learning {
    pub id: String,
    pub timestamp: String,
    pub project: String,
    pub message: String,
    pub tags: Vec<String>,
}

/// The text of a learning: id, timestamp, project, message and tags.
pub type LearningView = (Seq<char>, Seq<char>, Seq<char>, Seq<char>, Seq<Seq<char>>);

impl View for Learning {
    type V = LearningView;

    open spec fn view(&self) -> LearningView {
        (self.id@, self.timestamp@, self.project@, self.message@, views(self.tags@))
    }
}

/// The views of a list of learnings.
pub open spec fn learning_views(s: Seq<Learning>) -> Seq<LearningView> {
    s.map_values(|l: Learning| l@)
}

pub open spec fn is_lower_hex(c: char) -> bool {
    ('0' <= c && c <= '9') || ('a' <= c && c <= 'f')
}

/// A random (version 4) UUID in its hyphenated lowercase form, such as
/// `67e55044-10b1-426f-9247-bb680e5fe0c8`.
pub open spec fn is_uuid_v4_text(s: Seq<char>) -> bool {
    &&& s.len() == 36
    &&& forall|i: int|
        0 <= i < 36 ==> (if i == 8 || i == 13 || i == 18 || i == 23 {
            s[i] == '-'
        } else {
            is_lower_hex(#[trigger] s[i])
        })
    &&& s[14] == '4'
    &&& (s[19] == '8' || s[19] == '9' || s[19] == 'a' || s[19] == 'b')
}

/// uuid's `Uuid::new_v4().to_string()`. uuid sets the version nibble to 4
/// and the variant bits to `10`, and writes the hyphenated lowercase form;
/// the other bits are random and left unsaid.
#[verifier::external_body]
fn new_uuid_text() -> (r: String)
    ensures
        is_uuid_v4_text(r@),
{
    uuid::Uuid::new_v4().to_string()
}

/// A copy of a learning, field by field.
pub fn copy_learning(l: &Learning) -> (r: Learning)
    ensures
        r@ == l@,
{
    Learning {
        id: l.id.clone(),
        timestamp: l.timestamp.clone(),
        project: l.project.clone(),
        message: l.message.clone(),
        tags: copy_strings(l.tags.as_slice()),
    }
}

/// `query` occurs, ignoring case, in the message, a tag or the project.
pub open spec fn matches_query(l: LearningView, query: Seq<char>) -> bool {
    let q = lowercase(query);
    ||| contains_seq(lowercase(l.3), q)
    ||| exists|i: int| 0 <= i < l.4.len() && contains_seq(lowercase(#[trigger] l.4[i]), q)
    ||| contains_seq(lowercase(l.2), q)
}

/// Two learnings whose message, project and tags agree once lowercased.
pub open spec fn same_ignoring_case(a: LearningView, b: LearningView) -> bool {
    &&& lowercase(a.3) == lowercase(b.3)
    &&& lowercase(a.2) == lowercase(b.2)
    &&& a.4.len() == b.4.len()
    &&& forall|i: int| 0 <= i < a.4.len() ==> lowercase(#[trigger] a.4[i]) == lowercase(b.4[i])
}

/// Matching ignores case: a learning matches when the lowercased query
/// occurs in its lowercased message, project or any one of its lowercased
/// tags, and learnings that agree once lowercased match the same queries.
pub proof fn law_match_ignores_case(a: LearningView, b: LearningView, query: Seq<char>, i: int)
    ensures
        contains_seq(lowercase(a.3), lowercase(query)) ==> matches_query(a, query),
        contains_seq(lowercase(a.2), lowercase(query)) ==> matches_query(a, query),
        0 <= i < a.4.len() && contains_seq(lowercase(a.4[i]), lowercase(query)) ==> matches_query(
            a,
            query,
        ),
        same_ignoring_case(a, b) ==> (matches_query(a, query) <==> matches_query(b, query)),
{
    let q = lowercase(query);
    if same_ignoring_case(a, b) {
        if exists|k: int| 0 <= k < a.4.len() && contains_seq(lowercase(#[trigger] a.4[k]), q) {
            let k = choose|k: int| 0 <= k < a.4.len() && contains_seq(lowercase(#[trigger] a.4[k]), q);
            assert(lowercase(a.4[k]) == lowercase(b.4[k]));
            assert(contains_seq(lowercase(b.4[k]), q));
        }
        if exists|k: int| 0 <= k < b.4.len() && contains_seq(lowercase(#[trigger] b.4[k]), q) {
            let k = choose|k: int| 0 <= k < b.4.len() && contains_seq(lowercase(#[trigger] b.4[k]), q);
            assert(lowercase(a.4[k]) == lowercase(b.4[k]));
            assert(contains_seq(lowercase(a.4[k]), q));
        }
    }
}

/// The learnings that match `query`, in their order.
pub open spec fn matching(s: Seq<LearningView>, query: Seq<char>) -> Seq<LearningView>
    decreases s.len(),
{
    if s.len() == 0 {
        seq![]
    } else if matches_query(s.last(), query) {
        matching(s.drop_last(), query).push(s.last())
    } else {
        matching(s.drop_last(), query)
    }
}

impl Learning {
    /// A new learning with a fresh random id and the current UTC time.
    pub fn new(project: &str, message: &str, tags: &[String]) -> (r: Self)
        ensures
            r.project@ == project@,
            r.message@ == message@,
            views(r.tags@) == views(tags@),
            is_uuid_v4_text(r.id@),
            has_suffix(r.timestamp@, "+00:00"@),
    {
        Learning {
            id: new_uuid_text(),
            timestamp: utc_timestamp_text(),
            project: string_of(project),
            message: string_of(message),
            tags: copy_strings(tags),
        }
    }

    /// Whether `query` occurs, ignoring case, in the message, a tag or the
    /// project.
    pub fn matches(&self, query: &str) -> (b: bool)
        ensures
            b == matches_query(self@, query@),
    {
        let q = to_lowercase(query);
        let m = to_lowercase(self.message.as_str());
        if contains_str(m.as_str(), q.as_str()) {
            return true;
        }
        let mut i: usize = 0;
        while i < self.tags.len()
            invariant
                i <= self.tags.len(),
                q@ == lowercase(query@),
                forall|k: int| 0 <= k < i ==> !contains_seq(lowercase(self.tags@[k]@), q@),
            decreases self.tags.len() - i,
        {
            let t = to_lowercase(self.tags[i].as_str());
            if contains_str(t.as_str(), q.as_str()) {
                proof {
                    assert(self@.4[i as int] == self.tags@[i as int]@);
                    assert(contains_seq(lowercase(self@.4[i as int]), lowercase(query@)));
                }
                return true;
            }
            i = i + 1;
        }
        let p = to_lowercase(self.project.as_str());
        let b = contains_str(p.as_str(), q.as_str());
        proof {
            if !b {
                assert forall|k: int| 0 <= k < self@.4.len() implies !contains_seq(
                    lowercase(#[trigger] self@.4[k]),
                    lowercase(query@),
                ) by {
                    assert(self@.4[k] == self.tags@[k]@);
                }
            }
        }
        b
    }
}

/// The learnings that match `query`, in their stored order.
pub fn search(all: &Vec<Learning>, query: &str) -> (r: Vec<Learning>)
    ensures
        learning_views(r@) == matching(learning_views(all@), query@),
{
    let ghost lv = learning_views(all@);
    let mut out: Vec<Learning> = Vec::new();
    let mut i: usize = 0;
    while i < all.len()
        invariant
            i <= all.len(),
            lv == learning_views(all@),
            learning_views(out@) == matching(lv.take(i as int), query@),
        decreases all.len() - i,
    {
        proof {
            assert(lv.take(i + 1).drop_last() =~= lv.take(i as int));
            assert(lv.take(i + 1).last() == all@[i as int]@);
        }
        if all[i].matches(query) {
            let c = copy_learning(&all[i]);
            out.push(c);
            proof {
                assert(learning_views(out@) =~= matching(lv.take(i as int), query@).push(c@));
            }
        }
        i = i + 1;
    }
    proof {
        assert(lv.take(i as int) =~= lv);
    }
    out
}

// ---------------------------------------------------------------------
// Pruning duplicates
// ---------------------------------------------------------------------

/// No learning before position `i` has the message of the one at `i`.
pub open spec fn first_with_message(s: Seq<LearningView>, i: int) -> bool {
    forall|j: int| 0 <= j < i ==> (#[trigger] s[j]).3 != s[i].3
}

/// The learnings whose message has not appeared before, in their order.
pub open spec fn deduped(s: Seq<LearningView>) -> Seq<LearningView>
    decreases s.len(),
{
    if s.len() == 0 {
        seq![]
    } else if first_with_message(s, s.len() - 1) {
        deduped(s.drop_last()).push(s.last())
    } else {
        deduped(s.drop_last())
    }
}

/// The messages of a list of learnings.
pub open spec fn messages(s: Seq<LearningView>) -> Seq<Seq<char>> {
    s.map_values(|l: LearningView| l.3)
}

proof fn lemma_push_contains(s: Seq<Seq<char>>, x: Seq<char>, m: Seq<char>)
    ensures
        s.push(x).contains(m) <==> (s.contains(m) || m == x),
{
    if s.push(x).contains(m) {
        let k = choose|k: int| 0 <= k < s.push(x).len() && s.push(x)[k] == m;
        if k < s.len() {
            assert(s[k] == m);
        }
    }
    if s.contains(m) {
        let k = choose|k: int| 0 <= k < s.len() && s[k] == m;
        assert(s.push(x)[k] == m);
    }
    if m == x {
        assert(s.push(x)[s.len() as int] == m);
    }
}

proof fn lemma_deduped_messages(s: Seq<LearningView>)
    ensures
        forall|m: Seq<char>| #[trigger] messages(deduped(s)).contains(m) <==> messages(s).contains(m),
    decreases s.len(),
{
    if s.len() > 0 {
        let p = s.drop_last();
        lemma_deduped_messages(p);
        assert(messages(s) =~= messages(p).push(s.last().3));
        assert forall|m: Seq<char>| #[trigger] messages(deduped(s)).contains(m) <==> messages(s).contains(m) by {
            lemma_push_contains(messages(p), s.last().3, m);
            assert(messages(deduped(p)).contains(m) <==> messages(p).contains(m));
            if first_with_message(s, s.len() - 1) {
                assert(messages(deduped(s)) =~= messages(deduped(p)).push(s.last().3));
                lemma_push_contains(messages(deduped(p)), s.last().3, m);
            } else {
                assert(deduped(s) == deduped(p));
                let j = choose|j: int| 0 <= j < s.len() - 1 && (#[trigger] s[j]).3 == s[s.len() - 1].3;
                assert(messages(p)[j] == s.last().3);
                assert(messages(p).contains(s.last().3));
            }
        }
    }
}

/// Whether a learning with message `m` is among `kept`.
fn has_message(kept: &Vec<Learning>, m: &str) -> (b: bool)
    ensures
        b == messages(learning_views(kept@)).contains(m@),
{
    let mut i: usize = 0;
    while i < kept.len()
        invariant
            i <= kept.len(),
            forall|k: int| 0 <= k < i ==> kept@[k].message@ != m@,
        decreases kept.len() - i,
    {
        let v = chars_of(kept[i].message.as_str());
        if eq_text(&v, m) {
            proof {
                assert(messages(learning_views(kept@))[i as int] == m@);
            }
            return true;
        }
        i = i + 1;
    }
    proof {
        if messages(learning_views(kept@)).contains(m@) {
            let k = choose|k: int|
                0 <= k < messages(learning_views(kept@)).len() && messages(learning_views(kept@))[k] == m@;
            assert(kept@[k].message@ == m@);
        }
    }
    false
}

/// The learnings without repeated messages: the first learning with each
/// message stays, later ones go, and the order is kept.
pub fn dedupe_by_message(all: &Vec<Learning>) -> (r: Vec<Learning>)
    ensures
        learning_views(r@) == deduped(learning_views(all@)),
{
    let ghost lv = learning_views(all@);
    let mut out: Vec<Learning> = Vec::new();
    let mut i: usize = 0;
    while i < all.len()
        invariant
            i <= all.len(),
            lv == learning_views(all@),
            learning_views(out@) == deduped(lv.take(i as int)),
        decreases all.len() - i,
    {
        let ghost pre = lv.take(i as int);
        let ghost cur = lv.take(i + 1);
        proof {
            assert(cur.drop_last() =~= pre);
            assert(cur.last() == all@[i as int]@);
            lemma_deduped_messages(pre);
        }
        let seen = has_message(&out, all[i].message.as_str());
        proof {
            if seen {
                assert(messages(pre).contains(all@[i as int].message@));
                let j = choose|j: int| 0 <= j < messages(pre).len() && messages(pre)[j] == all@[i as int].message@;
                assert(cur[j].3 == cur[i as int].3);
                assert(!first_with_message(cur, i as int));
            } else {
                assert(cur[i as int].3 == all@[i as int].message@);
                assert(!messages(deduped(pre)).contains(all@[i as int].message@));
                assert(!messages(pre).contains(all@[i as int].message@));
                assert forall|j: int| 0 <= j < i implies (#[trigger] cur[j]).3 != cur[i as int].3 by {
                    assert(messages(pre)[j] == cur[j].3);
                }
            }
        }
        if !seen {
            let c = copy_learning(&all[i]);
            out.push(c);
            proof {
                assert(learning_views(out@) =~= deduped(pre).push(c@));
            }
        }
        i = i + 1;
    }
    proof {
        assert(lv.take(i as int) =~= lv);
    }
    out
}

/// Pruning leaves no two learnings with the same message, and loses no
/// message.
pub proof fn law_prune_leaves_unique_messages(s: Seq<LearningView>)
    ensures
        forall|i: int, j: int|
            0 <= i < j < deduped(s).len() ==> (#[trigger] deduped(s)[i]).3 != (#[trigger] deduped(s)[j]).3,
        forall|m: Seq<char>| messages(deduped(s)).contains(m) <==> messages(s).contains(m),
    decreases s.len(),
{
    lemma_deduped_messages(s);
    if s.len() > 0 {
        let p = s.drop_last();
        law_prune_leaves_unique_messages(p);
        if first_with_message(s, s.len() - 1) {
            let d = deduped(s);
            assert forall|i: int, j: int| 0 <= i < j < d.len() implies (#[trigger] d[i]).3 != (#[trigger] d[j]).3 by {
                if j == d.len() - 1 {
                    lemma_deduped_messages(p);
                    assert(messages(deduped(p))[i] == d[i].3);
                    if d[i].3 == s.last().3 {
                        assert(messages(p).contains(s.last().3));
                        let k = choose|k: int| 0 <= k < messages(p).len() && messages(p)[k] == s.last().3;
                        assert(s[k].3 == s[s.len() - 1].3);
                    }
                } else {
                    assert(d[i] == deduped(p)[i]);
                    assert(d[j] == deduped(p)[j]);
                }
            }
        }
    }
}

/// Pruning twice is pruning once.
pub proof fn law_prune_idempotent(s: Seq<LearningView>)
    ensures
        deduped(deduped(s)) == deduped(s),
{
    law_prune_leaves_unique_messages(s);
    lemma_unique_deduped(deduped(s));
}

proof fn lemma_unique_deduped(s: Seq<LearningView>)
    requires
        forall|i: int, j: int| 0 <= i < j < s.len() ==> (#[trigger] s[i]).3 != (#[trigger] s[j]).3,
    ensures
        deduped(s) == s,
    decreases s.len(),
{
    if s.len() > 0 {
        let p = s.drop_last();
        assert forall|i: int, j: int| 0 <= i < j < p.len() implies (#[trigger] p[i]).3 != (#[trigger] p[j]).3 by {
            assert(p[i] == s[i]);
            assert(p[j] == s[j]);
        }
        lemma_unique_deduped(p);
        assert forall|j: int| 0 <= j < s.len() - 1 implies (#[trigger] s[j]).3 != s[s.len() - 1].3 by {
        }
        assert(deduped(s) =~= s);
    }
}

} // verus!
