//! Semantic version bumps.

use vstd::prelude::*;
use crate::config::{AutoThresholds, Config, opt_view};
use crate::pipeline::{StepResult, StepStatus, skip};
use crate::text::{
    lines, lines_of, split_whitespace, string_of, trim, trim_str, words,
    lemma_char_pos, lemma_decimal, lemma_parse_decimal, is_digit,
    chars_of, decimal, eq_text, parse_unsigned, parse_unsigned_chars, push_decimal, push_str, split_char,
    split_on, views,
};

verus! {

pub open spec fn u32_max() -> nat {
    0xFFFF_FFFF
}

/// The numbers among the pieces: pieces that do not read as a `u32` are left out.
pub open spec fn parsed_parts(pieces: Seq<Seq<char>>) -> Seq<nat>
    decreases pieces.len(),
{
    if pieces.len() == 0 {
        seq![]
    } else {
        let rest = parsed_parts(pieces.drop_last());
        match parse_unsigned(pieces.last(), u32_max()) {
            Some(v) => rest.push(v),
            None => rest,
        }
    }
}

/// Major, minor and patch from the numbers of a version; too few numbers
/// are filled with zeros, and no number at all reads as `0.1.0`.
pub open spec fn version_triple(p: Seq<nat>) -> (nat, nat, nat) {
    if p.len() >= 3 {
        (p[0], p[1], p[2])
    } else if p.len() == 2 {
        (p[0], p[1], 0)
    } else if p.len() == 1 {
        (p[0], 0, 0)
    } else {
        (0, 1, 0)
    }
}

/// The version that a text holds: its dot-separated numbers.
pub open spec fn current_triple(s: Seq<char>) -> (nat, nat, nat) {
    version_triple(parsed_parts(split_on(s, '.')))
}

/// `major` and `minor` bumps reset the lower numbers; anything else bumps the patch.
pub open spec fn bumped_triple(t: (nat, nat, nat), bump: Seq<char>) -> (nat, nat, nat) {
    if bump == "major"@ {
        (t.0 + 1, 0, 0)
    } else if bump == "minor"@ {
        (t.0, t.1 + 1, 0)
    } else {
        (t.0, t.1, t.2 + 1)
    }
}

/// `MAJOR.MINOR.PATCH`.
pub open spec fn version_text(t: (nat, nat, nat)) -> Seq<char> {
    decimal(t.0) + "."@ + decimal(t.1) + "."@ + decimal(t.2)
}

/// The bumped number still fits in a `u32`.
pub open spec fn bump_fits(current: Seq<char>, bump: Seq<char>) -> bool {
    let t = bumped_triple(current_triple(current), bump);
    t.0 <= u32_max() && t.1 <= u32_max() && t.2 <= u32_max()
}

pub open spec fn all_le(p: Seq<nat>, m: nat) -> bool {
    forall|i: int| 0 <= i < p.len() ==> #[trigger] p[i] <= m
}

proof fn lemma_parsed_parts_bounded(pieces: Seq<Seq<char>>)
    ensures
        all_le(parsed_parts(pieces), u32_max()),
    decreases pieces.len(),
{
    if pieces.len() > 0 {
        lemma_parsed_parts_bounded(pieces.drop_last());
        let rest = parsed_parts(pieces.drop_last());
        match parse_unsigned(pieces.last(), u32_max()) {
            Some(v) => {
                assert forall|i: int| 0 <= i < rest.push(v).len() implies #[trigger] rest.push(
                    v,
                )[i] <= u32_max() by {
                    if i < rest.len() {
                        assert(rest.push(v)[i] == rest[i]);
                    }
                }
            },
            None => {},
        }
    }
}

/// The numbers of a dot-separated version text.
fn version_numbers(current: &str) -> (r: Vec<u64>)
    ensures
        r@.map_values(|x: u64| x as nat) == parsed_parts(split_on(current@, '.')),
        forall|i: int| 0 <= i < r.len() ==> r@[i] <= u32_max(),
{
    let pieces = split_char(current, '.');
    let ghost pv = views(pieces@);
    let mut out: Vec<u64> = Vec::new();
    let mut i: usize = 0;
    while i < pieces.len()
        invariant
            i <= pieces.len(),
            pv == views(pieces@),
            out@.map_values(|x: u64| x as nat) == parsed_parts(pv.take(i as int)),
            forall|k: int| 0 <= k < out.len() ==> out@[k] <= u32_max(),
        decreases pieces.len() - i,
    {
        let cs = chars_of(pieces[i].as_str());
        let parsed = parse_unsigned_chars(&cs, 0xFFFF_FFFF);
        proof {
            assert(pv.take(i + 1).drop_last() =~= pv.take(i as int));
            assert(pv.take(i + 1).last() == pieces@[i as int]@);
        }
        match parsed {
            Some(x) => {
                out.push(x);
                proof {
                    assert(out@.map_values(|x: u64| x as nat) =~= parsed_parts(
                        pv.take(i + 1),
                    ));
                }
            },
            None => {},
        }
        i = i + 1;
    }
    proof {
        assert(pv.take(i as int) =~= pv);
    }
    out
}

/// Whether bumping `current` by `bump` stays within `u32` numbers.
pub fn bump_version_fits(current: &str, bump: &str) -> (b: bool)
    ensures
        b == bump_fits(current@, bump@),
{
    let nums = version_numbers(current);
    let ghost p = parsed_parts(split_on(current@, '.'));
    proof {
        assert(forall|i: int| 0 <= i < nums.len() ==> p[i] == nums@[i] as nat);
    }
    let (ma, mi, pa) = triple_of(&nums);
    let bv = chars_of(bump);
    if eq_text(&bv, "major") {
        ma < 0xFFFF_FFFF
    } else if eq_text(&bv, "minor") {
        mi < 0xFFFF_FFFF
    } else {
        pa < 0xFFFF_FFFF
    }
}

fn triple_of(nums: &Vec<u64>) -> (t: (u64, u64, u64))
    requires
        forall|i: int| 0 <= i < nums.len() ==> nums@[i] <= u32_max(),
    ensures
        (t.0 as nat, t.1 as nat, t.2 as nat) == version_triple(
            nums@.map_values(|x: u64| x as nat),
        ),
        t.0 <= u32_max(),
        t.1 <= u32_max(),
        t.2 <= u32_max(),
{
    if nums.len() >= 3 {
        (nums[0], nums[1], nums[2])
    } else if nums.len() == 2 {
        (nums[0], nums[1], 0)
    } else if nums.len() == 1 {
        (nums[0], 0, 0)
    } else {
        (0, 1, 0)
    }
}

/// Bumps a `MAJOR.MINOR.PATCH` version by `"major"`, `"minor"` or (anything
/// else) the patch number.
pub fn bump_version(current: &str, bump: &str) -> (r: String)
    requires
        bump_fits(current@, bump@),
    ensures
        r@ == version_text(bumped_triple(current_triple(current@), bump@)),
{
    let nums = version_numbers(current);
    let (ma, mi, pa) = triple_of(&nums);
    let bv = chars_of(bump);
    let (a, b, c) = if eq_text(&bv, "major") {
        (ma + 1, 0, 0)
    } else if eq_text(&bv, "minor") {
        (ma, mi + 1, 0)
    } else {
        (ma, mi, pa + 1)
    };
    let mut r = String::new();
    push_decimal(&mut r, a);
    push_str(&mut r, ".");
    push_decimal(&mut r, b);
    push_str(&mut r, ".");
    push_decimal(&mut r, c);
    r
}


proof fn lemma_split_after_number(n: nat, rest: Seq<char>)
    ensures
        split_on(decimal(n) + "."@ + rest, '.') == seq![decimal(n)] + split_on(rest, '.'),
{
    reveal_strlit(".");
    lemma_decimal(n);
    let x = decimal(n);
    let s = x + "."@ + rest;
    assert forall|j: int| 0 <= j < x.len() implies s[j] != '.' by {
        assert(is_digit(x[j]));
        assert(s[j] == x[j]);
    }
    assert(s[x.len() as int] == '.');
    lemma_char_pos(s, '.', x.len() as int);
    assert(s.take(x.len() as int) =~= x);
    assert(s.skip(x.len() as int + 1) =~= rest);
}

proof fn lemma_split_number(n: nat)
    ensures
        split_on(decimal(n), '.') == seq![decimal(n)],
{
    lemma_decimal(n);
    let x = decimal(n);
    assert forall|j: int| 0 <= j < x.len() implies x[j] != '.' by {
        assert(is_digit(x[j]));
    }
    lemma_char_pos(x, '.', x.len() as int);
}

/// `t` comes after `u` in version order (major, then minor, then patch).
pub open spec fn newer(t: (nat, nat, nat), u: (nat, nat, nat)) -> bool {
    t.0 > u.0 || (t.0 == u.0 && (t.1 > u.1 || (t.1 == u.1 && t.2 > u.2)))
}

/// Every bump gives a newer version.
pub proof fn law_bump_is_newer(t: (nat, nat, nat), bump: Seq<char>)
    ensures
        newer(bumped_triple(t, bump), t),
{
}

/// What a bump writes reads back as the bumped version: the written text
/// has exactly three numbers, the major, minor and patch of the bump.
pub proof fn law_bumped_version_reads_back(current: Seq<char>, bump: Seq<char>)
    requires
        bump_fits(current, bump),
    ensures
        current_triple(version_text(bumped_triple(current_triple(current), bump)))
            == bumped_triple(current_triple(current), bump),
        parsed_parts(split_on(version_text(bumped_triple(current_triple(current), bump)), '.')).len()
            == 3,
{
    let t = bumped_triple(current_triple(current), bump);
    let (a, b, c) = t;
    let text = version_text(t);
    assert(text == decimal(a) + "."@ + (decimal(b) + "."@ + decimal(c))) by {
        assert(decimal(a) + "."@ + decimal(b) + "."@ + decimal(c) =~= decimal(a) + "."@ + (
        decimal(b) + "."@ + decimal(c)));
    }
    lemma_split_after_number(a, decimal(b) + "."@ + decimal(c));
    lemma_split_after_number(b, decimal(c));
    lemma_split_number(c);
    let pieces = seq![decimal(a), decimal(b), decimal(c)];
    assert(split_on(text, '.') =~= pieces);
    lemma_parse_decimal(a, u32_max());
    lemma_parse_decimal(b, u32_max());
    lemma_parse_decimal(c, u32_max());
    assert(pieces.drop_last() =~= seq![decimal(a), decimal(b)]);
    assert(pieces.drop_last().drop_last() =~= seq![decimal(a)]);
    assert(pieces.drop_last().drop_last().drop_last() =~= Seq::<Seq<char>>::empty());
    assert(seq![decimal(a)].drop_last() =~= Seq::<Seq<char>>::empty());
    assert(seq![decimal(a)].last() == decimal(a));
    assert(parsed_parts(Seq::<Seq<char>>::empty()) =~= Seq::<nat>::empty());
    assert(parsed_parts(seq![decimal(a)]) =~= seq![a]);
    assert(parsed_parts(seq![decimal(a), decimal(b)]) =~= seq![a, b]);
    assert(parsed_parts(pieces) =~= seq![a, b, c]);
}


// ---------------------------------------------------------------------
// The version step
// ---------------------------------------------------------------------

/// Which file holds the version: the configured one, else `VERSION`, else
/// `version.txt`, whichever exists.
pub open spec fn version_file_choice(
    configured: Option<Seq<char>>,
    version_exists: bool,
    version_txt_exists: bool,
) -> Option<Seq<char>> {
    match configured {
        Some(f) => Some(f),
        None => if version_exists {
            Some("VERSION"@)
        } else if version_txt_exists {
            Some("version.txt"@)
        } else {
            None
        },
    }
}

/// The file that holds the project's version; `version_exists` and
/// `version_txt_exists` tell whether `VERSION` and `version.txt` exist.
pub fn resolve_version_file(config: &Config, version_exists: bool, version_txt_exists: bool) -> (r:
    Option<String>)
    ensures
        opt_view(r) == version_file_choice(
            opt_view(config.version.file),
            version_exists,
            version_txt_exists,
        ),
{
    match &config.version.file {
        Some(f) => Some(f.clone()),
        None => if version_exists {
            Some(string_of("VERSION"))
        } else if version_txt_exists {
            Some(string_of("version.txt"))
        } else {
            None
        },
    }
}

pub open spec fn sum_of(s: Seq<nat>) -> nat
    decreases s.len(),
{
    if s.len() == 0 {
        0
    } else {
        sum_of(s.drop_last()) + s.last()
    }
}

/// Changed lines in a `git diff --stat` summary: the numbers on its last
/// line after the first (the files count), added up.
pub open spec fn stat_total(stat: Seq<char>) -> nat {
    let ls = lines(stat);
    if ls.len() == 0 {
        0
    } else {
        let nums = parsed_parts(words(ls.last()));
        if nums.len() == 0 {
            0
        } else {
            sum_of(nums.drop_first())
        }
    }
}

/// The bump that a diff of `total` changed lines calls for.
pub open spec fn auto_bump_for(total: nat, t: AutoThresholds) -> Seq<char> {
    if total < t.patch {
        "patch"@
    } else {
        "minor"@
    }
}

proof fn lemma_sum_prefix_le(s: Seq<nat>, k: int)
    requires
        0 <= k <= s.len(),
    ensures
        sum_of(s.take(k)) <= sum_of(s),
    decreases s.len() - k,
{
    if k < s.len() {
        assert(s.take(k + 1).drop_last() =~= s.take(k));
        lemma_sum_prefix_le(s, k + 1);
    } else {
        assert(s.take(k) =~= s);
    }
}

/// The changed-lines count of a diff summary, when it fits in a `u32`.
pub fn diff_stat_total(stat: &str) -> (r: Option<u32>)
    ensures
        r matches Some(n) ==> n as nat == stat_total(stat@),
        r is None <==> stat_total(stat@) > u32_max(),
{
    let ls = lines_of(stat);
    if ls.len() == 0 {
        return Some(0);
    }
    let last = &ls[ls.len() - 1];
    proof {
        assert(views(ls@).last() == last@);
    }
    let nums = version_numbers_of_words(last.as_str());
    if nums.len() == 0 {
        return Some(0);
    }
    let ghost ns = nums@.map_values(|x: u64| x as nat);
    let ghost tail = ns.drop_first();
    assert(stat_total(stat@) == sum_of(tail));
    let mut total: u64 = 0;
    let mut i: usize = 1;
    while i < nums.len()
        invariant
            1 <= i <= nums.len(),
            ns == nums@.map_values(|x: u64| x as nat),
            tail == ns.drop_first(),
            stat_total(stat@) == sum_of(tail),
            total as nat == sum_of(tail.take(i - 1)),
            total <= u32_max(),
            forall|k: int| 0 <= k < nums.len() ==> nums@[k] <= u32_max(),
        decreases nums.len() - i,
    {
        proof {
            assert(tail.take(i as int).drop_last() =~= tail.take(i - 1));
            assert(tail.take(i as int).last() == nums@[i as int] as nat);
        }
        let next = total + nums[i];
        if next > 0xFFFF_FFFF {
            proof {
                lemma_sum_prefix_le(tail, i as int);
                assert(sum_of(tail.take(i as int)) == next);
            }
            return None;
        }
        total = next;
        i = i + 1;
    }
    proof {
        assert(tail.take(i - 1) =~= tail);
    }
    Some(total as u32)
}

/// The numbers among the words of a line (words that read as a `u32`).
fn version_numbers_of_words(line: &str) -> (r: Vec<u64>)
    ensures
        r@.map_values(|x: u64| x as nat) == parsed_parts(words(line@)),
        forall|i: int| 0 <= i < r.len() ==> r@[i] <= u32_max(),
{
    let pieces = split_whitespace(line);
    let ghost pv = views(pieces@);
    let mut out: Vec<u64> = Vec::new();
    let mut i: usize = 0;
    while i < pieces.len()
        invariant
            i <= pieces.len(),
            pv == views(pieces@),
            out@.map_values(|x: u64| x as nat) == parsed_parts(pv.take(i as int)),
            forall|k: int| 0 <= k < out.len() ==> out@[k] <= u32_max(),
        decreases pieces.len() - i,
    {
        let cs = chars_of(pieces[i].as_str());
        let parsed = parse_unsigned_chars(&cs, 0xFFFF_FFFF);
        proof {
            assert(pv.take(i + 1).drop_last() =~= pv.take(i as int));
            assert(pv.take(i + 1).last() == pieces@[i as int]@);
        }
        match parsed {
            Some(x) => {
                out.push(x);
                proof {
                    assert(out@.map_values(|x: u64| x as nat) =~= parsed_parts(
                        pv.take(i + 1),
                    ));
                }
            },
            None => {},
        }
        i = i + 1;
    }
    proof {
        assert(pv.take(i as int) =~= pv);
    }
    out
}

/// The bump chosen from the size of the branch's diff summary: below the
/// patch threshold a patch, otherwise a minor bump.
pub fn auto_detect_bump(stat: &str, thresholds: &AutoThresholds) -> (r: String)
    requires
        stat_total(stat@) <= u32_max(),
    ensures
        r@ == auto_bump_for(stat_total(stat@), *thresholds),
{
    let total = match diff_stat_total(stat) {
        Some(t) => t,
        None => 0,
    };
    if total < thresholds.patch {
        string_of("patch")
    } else if total < thresholds.minor {
        string_of("minor")
    } else {
        string_of("minor")
    }
}

/// What the version step did and what it writes.
pub struct VersionOutcome {
    pub step: StepResult,
    /// The version file and its new content, when a bump happened.
    pub write: Option<(String, String)>,
}

/// The version step, once the version file is known (`file`), its content
/// read (`current_raw`) and the bump chosen.
pub fn run(file: Option<String>, current_raw: &str, bump: &str, duration: u64) -> (r:
    VersionOutcome)
    requires
        file is Some ==> bump_fits(trim(current_raw@), bump@),
    ensures
        r.step.name@ == "Version"@,
        r.step.duration == duration,
        file is None ==> r.write is None && (r.step.status matches StepStatus::Skip(m)
            && m@ == "no VERSION file found"@),
        file matches Some(f) ==> {
            let new_v = version_text(bumped_triple(current_triple(trim(current_raw@)), bump@));
            &&& r.step.status is Pass
            &&& r.write matches Some(w) && w.0@ == f@ && w.1@ == new_v + "\n"@
            &&& r.step.output matches Some(o) && o@ == trim(current_raw@) + " \u{2192} "@
                + new_v + " ("@ + bump@ + ")"@
        },
{
    match file {
        None => {
            let st = skip("Version", "no VERSION file found");
            VersionOutcome {
                step: StepResult {
                    name: st.name,
                    status: st.status,
                    duration,
                    output: None,
                },
                write: None,
            }
        },
        Some(path) => {
            let current = trim_str(current_raw);
            let new_v = bump_version(current.as_str(), bump);
            let mut content = new_v.clone();
            push_str(&mut content, "\n");
            let mut detail = current.clone();
            push_str(&mut detail, " \u{2192} ");
            push_str(&mut detail, new_v.as_str());
            push_str(&mut detail, " (");
            push_str(&mut detail, bump);
            push_str(&mut detail, ")");
            VersionOutcome {
                step: StepResult {
                    name: string_of("Version"),
                    status: StepStatus::Pass,
                    duration,
                    output: Some(detail),
                },
                write: Some((path, content)),
            }
        },
    }
}

} // verus!
