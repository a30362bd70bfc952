//! Cross-project learnings: where they are kept and which of them a listing
//! shows.

pub mod display;
pub mod store;

use vstd::prelude::*;
use crate::config::LearnConfig;
use crate::note::{expand_home, shellexpand_with_home};
use crate::path::{join_path, path_join};
use crate::text::{decimal, push_decimal, push_str, str_opt, string_of};
use store::{copy_learning, learning_views, Learning, LearningView};

verus! {

/// `<project>.jsonl`.
pub open spec fn learn_file_name(project: Seq<char>) -> Seq<char> {
    project + ".jsonl"@
}

/// Where the learnings of `project` are kept: beside the project when the
/// parent of its learnings directory exists, else in the global directory
/// (with a leading `~/` expanded).
pub open spec fn learn_path(
    config: LearnConfig,
    project: Seq<char>,
    local_parent_exists: bool,
    home: Option<Seq<char>>,
) -> Seq<char> {
    if local_parent_exists {
        path_join(config.project_dir@, learn_file_name(project))
    } else {
        path_join(expand_home(config.dir@, home), learn_file_name(project))
    }
}

/// The learnings file of `project`; `local_parent_exists` tells whether the
/// parent directory of `config.project_dir` exists, `home` is the home
/// directory when it is known.
pub fn resolve_path_pub(
    config: &LearnConfig,
    project: &str,
    local_parent_exists: bool,
    home: Option<&str>,
) -> (r: String)
    ensures
        r@ == learn_path(*config, project@, local_parent_exists, str_opt(home)),
{
    let mut file = string_of(project);
    push_str(&mut file, ".jsonl");
    if local_parent_exists {
        join_path(config.project_dir.as_str(), file.as_str())
    } else {
        let dir = shellexpand_with_home(config.dir.as_str(), home);
        join_path(dir.as_str(), file.as_str())
    }
}

/// The last `n` learnings, newest first.
pub open spec fn newest_first(s: Seq<LearningView>, n: nat) -> Seq<LearningView> {
    let k = if n < s.len() { n as int } else { s.len() as int };
    Seq::new(k as nat, |i: int| s[s.len() - 1 - i])
}

/// The last `n` learnings, newest first.
pub fn recent(all: &Vec<Learning>, n: usize) -> (r: Vec<Learning>)
    ensures
        learning_views(r@) == newest_first(learning_views(all@), n as nat),
{
    let k: usize = if n < all.len() { n } else { all.len() };
    let mut out: Vec<Learning> = Vec::new();
    let mut i: usize = 0;
    while i < k
        invariant
            i <= k,
            k <= all.len(),
            k == (if n < all.len() { n } else { all.len() }),
            learning_views(out@) == newest_first(learning_views(all@), n as nat).take(i as int),
        decreases k - i,
    {
        let ghost before = out@;
        let c = copy_learning(&all[all.len() - 1 - i]);
        out.push(c);
        proof {
            let nf = newest_first(learning_views(all@), n as nat);
            assert(out@ == before.push(c));
            assert(nf[i as int] == learning_views(all@)[all.len() - 1 - i]);
            assert(learning_views(out@) =~= learning_views(before).push(c@));
            assert(learning_views(out@) =~= newest_first(learning_views(all@), n as nat).take(
                i + 1,
            ));
        }
        i = i + 1;
    }
    proof {
        assert(newest_first(learning_views(all@), n as nat).take(i as int) =~= newest_first(
            learning_views(all@),
            n as nat,
        ));
    }
    out
}

/// `Pruned <removed> duplicates (<before> → <after>)`.
pub open spec fn prune_text(before: nat, after: nat) -> Seq<char> {
    "Pruned "@ + decimal((before - after) as nat) + " duplicates ("@ + decimal(before)
        + " \u{2192} "@ + decimal(after) + ")"@
}

/// The report of a prune that kept `after` of `before` learnings.
pub fn prune_summary(before: usize, after: usize) -> (r: String)
    requires
        after <= before,
    ensures
        r@ == prune_text(before as nat, after as nat),
{
    let mut r = string_of("Pruned ");
    push_decimal(&mut r, (before - after) as u64);
    push_str(&mut r, " duplicates (");
    push_decimal(&mut r, before as u64);
    push_str(&mut r, " \u{2192} ");
    push_decimal(&mut r, after as u64);
    push_str(&mut r, ")");
    r
}

} // verus!
