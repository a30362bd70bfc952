//! File-name slugs for notes: Vietnamese diacritics folded to ASCII,
//! kebab-case, bounded length.

use vstd::prelude::*;
use crate::text::{
    char_is_ascii_alnum, char_len_utf8, char_utf8_len, chars_of, ascii_lower, is_ascii_alnum, is_ascii_char, is_ascii_upper,
    lemma_utf8_len_concat, lemma_utf8_len_push, lowercase, string_from_chars, to_lowercase, utf8_len,
};

verus! {

/// The base letter of a Vietnamese letter with diacritics; every other
/// character is its own base.
pub open spec fn vi_base(c: char) -> char {
    match c {
        'á' | 'à' | 'ả' | 'ã' | 'ạ' | 'ă' | 'ắ' | 'ằ' | 'ẳ' | 'ẵ' | 'ặ' | 'â' | 'ấ' | 'ầ' | 'ẩ'
        | 'ẫ' | 'ậ' => 'a',
        'Á' | 'À' | 'Ả' | 'Ã' | 'Ạ' | 'Ă' | 'Ắ' | 'Ằ' | 'Ẳ' | 'Ẵ' | 'Ặ' | 'Â' | 'Ấ' | 'Ầ' | 'Ẩ'
        | 'Ẫ' | 'Ậ' => 'A',
        'é' | 'è' | 'ẻ' | 'ẽ' | 'ẹ' | 'ê' | 'ế' | 'ề' | 'ể' | 'ễ' | 'ệ' => 'e',
        'É' | 'È' | 'Ẻ' | 'Ẽ' | 'Ẹ' | 'Ê' | 'Ế' | 'Ề' | 'Ể' | 'Ễ' | 'Ệ' => 'E',
        'í' | 'ì' | 'ỉ' | 'ĩ' | 'ị' => 'i',
        'Í' | 'Ì' | 'Ỉ' | 'Ĩ' | 'Ị' => 'I',
        'ó' | 'ò' | 'ỏ' | 'õ' | 'ọ' | 'ô' | 'ố' | 'ồ' | 'ổ' | 'ỗ' | 'ộ' | 'ơ' | 'ớ' | 'ờ' | 'ở'
        | 'ỡ' | 'ợ' => 'o',
        'Ó' | 'Ò' | 'Ỏ' | 'Õ' | 'Ọ' | 'Ô' | 'Ố' | 'Ồ' | 'Ổ' | 'Ỗ' | 'Ộ' | 'Ơ' | 'Ớ' | 'Ờ' | 'Ở'
        | 'Ỡ' | 'Ợ' => 'O',
        'ú' | 'ù' | 'ủ' | 'ũ' | 'ụ' | 'ư' | 'ứ' | 'ừ' | 'ử' | 'ữ' | 'ự' => 'u',
        'Ú' | 'Ù' | 'Ủ' | 'Ũ' | 'Ụ' | 'Ư' | 'Ứ' | 'Ừ' | 'Ử' | 'Ữ' | 'Ự' => 'U',
        'ý' | 'ỳ' | 'ỷ' | 'ỹ' | 'ỵ' => 'y',
        'Ý' | 'Ỳ' | 'Ỷ' | 'Ỹ' | 'Ỵ' => 'Y',
        'đ' => 'd',
        'Đ' => 'D',
        _ => c,
    }
}

/// Folds one Vietnamese letter to its ASCII base letter.
pub fn map_vi_char(c: char) -> (r: char)
    ensures
        r == vi_base(c),
{
    match c {
        'á' | 'à' | 'ả' | 'ã' | 'ạ' | 'ă' | 'ắ' | 'ằ' | 'ẳ' | 'ẵ' | 'ặ' | 'â' | 'ấ' | 'ầ' | 'ẩ'
        | 'ẫ' | 'ậ' => 'a',
        'Á' | 'À' | 'Ả' | 'Ã' | 'Ạ' | 'Ă' | 'Ắ' | 'Ằ' | 'Ẳ' | 'Ẵ' | 'Ặ' | 'Â' | 'Ấ' | 'Ầ' | 'Ẩ'
        | 'Ẫ' | 'Ậ' => 'A',
        'é' | 'è' | 'ẻ' | 'ẽ' | 'ẹ' | 'ê' | 'ế' | 'ề' | 'ể' | 'ễ' | 'ệ' => 'e',
        'É' | 'È' | 'Ẻ' | 'Ẽ' | 'Ẹ' | 'Ê' | 'Ế' | 'Ề' | 'Ể' | 'Ễ' | 'Ệ' => 'E',
        'í' | 'ì' | 'ỉ' | 'ĩ' | 'ị' => 'i',
        'Í' | 'Ì' | 'Ỉ' | 'Ĩ' | 'Ị' => 'I',
        'ó' | 'ò' | 'ỏ' | 'õ' | 'ọ' | 'ô' | 'ố' | 'ồ' | 'ổ' | 'ỗ' | 'ộ' | 'ơ' | 'ớ' | 'ờ' | 'ở'
        | 'ỡ' | 'ợ' => 'o',
        'Ó' | 'Ò' | 'Ỏ' | 'Õ' | 'Ọ' | 'Ô' | 'Ố' | 'Ồ' | 'Ổ' | 'Ỗ' | 'Ộ' | 'Ơ' | 'Ớ' | 'Ờ' | 'Ở'
        | 'Ỡ' | 'Ợ' => 'O',
        'ú' | 'ù' | 'ủ' | 'ũ' | 'ụ' | 'ư' | 'ứ' | 'ừ' | 'ử' | 'ữ' | 'ự' => 'u',
        'Ú' | 'Ù' | 'Ủ' | 'Ũ' | 'Ụ' | 'Ư' | 'Ứ' | 'Ừ' | 'Ử' | 'Ữ' | 'Ự' => 'U',
        'ý' | 'ỳ' | 'ỷ' | 'ỹ' | 'ỵ' => 'y',
        'Ý' | 'Ỳ' | 'Ỷ' | 'Ỹ' | 'Ỵ' => 'Y',
        'đ' => 'd',
        'Đ' => 'D',
        _ => c,
    }
}

/// Every character replaced by its base letter.
pub open spec fn strip_diacritics(s: Seq<char>) -> Seq<char> {
    s.map_values(|c: char| vi_base(c))
}

/// Folds Vietnamese letters to ASCII, keeping every other character.
pub fn strip_diacritics_vi(s: &str) -> (r: String)
    ensures
        r@ == strip_diacritics(s@),
{
    let v = chars_of(s);
    let mut out: Vec<char> = Vec::new();
    let mut i: usize = 0;
    while i < v.len()
        invariant
            i <= v.len(),
            v@ == s@,
            out@ == strip_diacritics(v@.take(i as int)),
        decreases v.len() - i,
    {
        out.push(map_vi_char(v[i]));
        proof {
            assert(strip_diacritics(v@.take(i + 1)) =~= strip_diacritics(v@.take(i as int)).push(
                vi_base(v@[i as int]),
            ));
        }
        i = i + 1;
    }
    proof {
        assert(v@.take(i as int) =~= v@);
    }
    string_from_chars(&out)
}

/// Runs of ASCII letters and digits joined by single dashes, before the
/// final dash (if any) is dropped: other characters become one dash
/// between two runs.
pub open spec fn kebab_raw(s: Seq<char>) -> Seq<char>
    decreases s.len(),
{
    if s.len() == 0 {
        seq![]
    } else {
        let r = kebab_raw(s.drop_last());
        let c = s.last();
        if is_ascii_alnum(c) {
            r.push(c)
        } else if r.len() == 0 || r.last() == '-' {
            r
        } else {
            r.push('-')
        }
    }
}

/// `s` without its trailing dashes.
pub open spec fn strip_trailing_dashes(s: Seq<char>) -> Seq<char>
    decreases s.len(),
{
    if s.len() > 0 && s.last() == '-' {
        strip_trailing_dashes(s.drop_last())
    } else {
        s
    }
}

/// Kebab case of text that is already lowercase.
pub open spec fn kebab_of_lower(s: Seq<char>) -> Seq<char> {
    strip_trailing_dashes(kebab_raw(s))
}

fn strip_trailing_dashes_vec(v: &mut Vec<char>)
    ensures
        final(v)@ == strip_trailing_dashes(old(v)@),
{
    while v.len() > 0 && v[v.len() - 1] == '-'
        invariant
            strip_trailing_dashes(v@) == strip_trailing_dashes(old(v)@),
        decreases v.len(),
    {
        v.pop();
    }
}

/// The kebab case of an already lowercased text.
pub fn kebab_from_lower(lower: &str) -> (r: String)
    ensures
        r@ == kebab_of_lower(lower@),
{
    let v = chars_of(lower);
    let mut out: Vec<char> = Vec::new();
    let mut prev_dash = true;
    let mut i: usize = 0;
    while i < v.len()
        invariant
            i <= v.len(),
            v@ == lower@,
            out@ == kebab_raw(v@.take(i as int)),
            prev_dash <==> (out@.len() == 0 || out@.last() == '-'),
        decreases v.len() - i,
    {
        let c = v[i];
        proof {
            assert(v@.take(i + 1).drop_last() =~= v@.take(i as int));
            assert(v@.take(i + 1).last() == c);
        }
        if char_is_ascii_alnum(c) {
            out.push(c);
            prev_dash = false;
            proof {
                assert(c != '-');
            }
        } else if !prev_dash {
            out.push('-');
            prev_dash = true;
        }
        i = i + 1;
    }
    proof {
        assert(v@.take(i as int) =~= v@);
    }
    strip_trailing_dashes_vec(&mut out);
    string_from_chars(&out)
}

/// The ASCII letters and digits of `s`, in order.
pub open spec fn ascii_alnums(s: Seq<char>) -> Seq<char>
    decreases s.len(),
{
    if s.len() == 0 {
        seq![]
    } else if is_ascii_alnum(s.last()) {
        ascii_alnums(s.drop_last()).push(s.last())
    } else {
        ascii_alnums(s.drop_last())
    }
}

/// `s` without its dashes.
pub open spec fn without_dashes(s: Seq<char>) -> Seq<char>
    decreases s.len(),
{
    if s.len() == 0 {
        seq![]
    } else if s.last() == '-' {
        without_dashes(s.drop_last())
    } else {
        without_dashes(s.drop_last()).push(s.last())
    }
}

/// Kebab form in small letters: `[a-z0-9]` runs joined by single dashes.
pub open spec fn is_lower_kebab(s: Seq<char>) -> bool {
    is_kebab_form(s) && forall|i: int| 0 <= i < s.len() ==> !is_ascii_upper(#[trigger] s[i])
}

/// Kebab case: lowercase, with every run of characters other than ASCII
/// letters and digits turned into one dash, and no dash at either end. The
/// result holds only `a`-`z`, `0`-`9` and single inner dashes, and without
/// its dashes it is the ASCII letters and digits of the lowercased text.
pub fn kebab_case(s: &str) -> (r: String)
    ensures
        r@ == kebab_of_lower(lowercase(s@)),
        is_lower_kebab(r@),
        without_dashes(r@) == ascii_alnums(lowercase(s@)),
{
    let lower = to_lowercase(s);
    let r = kebab_from_lower(lower.as_str());
    proof {
        lemma_kebab_of_lower_facts(lower@);
    }
    r
}

/// How many leading characters of `s` fit in `max` UTF-8 bytes.
pub open spec fn fitting_prefix(s: Seq<char>, max: nat) -> nat
    decreases s.len(),
{
    if s.len() == 0 {
        0
    } else if char_utf8_len(s[0]) > max {
        0
    } else {
        1 + fitting_prefix(s.drop_first(), (max - char_utf8_len(s[0])) as nat)
    }
}

/// `s` itself when it fits in `max` UTF-8 bytes; otherwise its longest
/// prefix that fits, without trailing dashes.
pub open spec fn truncated(s: Seq<char>, max: nat) -> Seq<char> {
    if utf8_len(s) <= max {
        s
    } else {
        strip_trailing_dashes(s.take(fitting_prefix(s, max) as int))
    }
}

proof fn lemma_fitting_prefix_whole(s: Seq<char>, max: nat)
    ensures
        fitting_prefix(s, max) == s.len() <==> utf8_len(s) <= max,
        fitting_prefix(s, max) <= s.len(),
    decreases s.len(),
{
    if s.len() > 0 && char_utf8_len(s[0]) <= max {
        lemma_fitting_prefix_whole(s.drop_first(), (max - char_utf8_len(s[0])) as nat);
    }
}

proof fn lemma_fitting_prefix_step(s: Seq<char>, i: int, max: nat, acc: nat)
    requires
        0 <= i < s.len(),
        acc <= max,
        char_utf8_len(s[i]) <= max - acc,
    ensures
        fitting_prefix(s.skip(i), (max - acc) as nat) == 1 + fitting_prefix(
            s.skip(i + 1),
            (max - acc - char_utf8_len(s[i])) as nat,
        ),
{
    assert(s.skip(i).drop_first() =~= s.skip(i + 1));
}

/// Cuts `s` down to at most `max_len` UTF-8 bytes on a character boundary,
/// then drops trailing dashes; text that already fits is kept as it is.
pub fn truncate_kebab(s: &str, max_len: usize) -> (r: String)
    ensures
        r@ == truncated(s@, max_len as nat),
{
    let v = chars_of(s);
    let mut acc: usize = 0;
    let mut i: usize = 0;
    proof {
        assert(v@.skip(0) =~= v@);
        assert(v@.take(0) =~= Seq::<char>::empty());
    }
    while i < v.len()
        invariant
            i <= v.len(),
            v@ == s@,
            acc <= max_len,
            acc as nat == utf8_len(v@.take(i as int)),
            fitting_prefix(v@, max_len as nat) == i + fitting_prefix(
                v@.skip(i as int),
                (max_len - acc) as nat,
            ),
        ensures
            i == v.len() || char_utf8_len(v@[i as int]) > max_len - acc,
        decreases v.len() - i,
    {
        let w = char_len_utf8(v[i]);
        if w > max_len - acc {
            proof {
                assert(v@.skip(i as int)[0] == v@[i as int]);
            }
            break;
        }
        proof {
            lemma_fitting_prefix_step(v@, i as int, max_len as nat, acc as nat);
            lemma_utf8_len_push(v@.take(i as int), v@[i as int]);
            assert(v@.take(i + 1) =~= v@.take(i as int).push(v@[i as int]));
        }
        acc = acc + w;
        i = i + 1;
    }
    proof {
        if i == v.len() {
            assert(v@.skip(i as int) =~= Seq::<char>::empty());
            assert(v@.take(i as int) =~= v@);
        } else {
            assert(v@.skip(i as int)[0] == v@[i as int]);
            assert(fitting_prefix(v@.skip(i as int), (max_len - acc) as nat) == 0);
        }
        lemma_fitting_prefix_whole(v@, max_len as nat);
    }
    if i == v.len() {
        return string_from_chars(&v);
    }
    let mut out: Vec<char> = Vec::new();
    let mut j: usize = 0;
    while j < i
        invariant
            j <= i < v.len(),
            out@ == v@.take(j as int),
        decreases i - j,
    {
        out.push(v[j]);
        proof {
            assert(v@.take(j + 1) =~= v@.take(j as int).push(v@[j as int]));
        }
        j = j + 1;
    }
    strip_trailing_dashes_vec(&mut out);
    string_from_chars(&out)
}

/// The slug of a commit subject: diacritics folded, kebab case, at most 40 bytes.
pub open spec fn slug_of(subject: Seq<char>) -> Seq<char> {
    truncated(kebab_of_lower(lowercase(strip_diacritics(subject))), 40)
}

/// The file-name slug of a commit subject.
pub fn slugify(subject: &str) -> (r: String)
    ensures
        r@ == slug_of(subject@),
{
    let stripped = strip_diacritics_vi(subject);
    let kebab = kebab_case(stripped.as_str());
    truncate_kebab(kebab.as_str(), 40)
}


// ---------------------------------------------------------------------
// Laws of slugs
// ---------------------------------------------------------------------

/// Letters, digits and single dashes, with no dash at either end.
pub open spec fn is_kebab_form(s: Seq<char>) -> bool {
    &&& forall|i: int| 0 <= i < s.len() ==> is_ascii_alnum(#[trigger] s[i]) || s[i] == '-'
    &&& s.len() > 0 ==> s[0] != '-' && s.last() != '-'
    &&& forall|i: int| 0 <= i < s.len() - 1 ==> !(#[trigger] s[i] == '-' && s[i + 1] == '-')
}

/// Kebab form, except that one trailing dash is allowed.
spec fn is_raw_form(s: Seq<char>) -> bool {
    &&& forall|i: int| 0 <= i < s.len() ==> is_ascii_alnum(#[trigger] s[i]) || s[i] == '-'
    &&& s.len() > 0 ==> s[0] != '-'
    &&& forall|i: int| 0 <= i < s.len() - 1 ==> !(#[trigger] s[i] == '-' && s[i + 1] == '-')
}

proof fn lemma_kebab_raw_form(s: Seq<char>)
    ensures
        is_raw_form(kebab_raw(s)),
    decreases s.len(),
{
    if s.len() > 0 {
        lemma_kebab_raw_form(s.drop_last());
        let r = kebab_raw(s.drop_last());
        let c = s.last();
        if is_ascii_alnum(c) {
            assert(c != '-');
            let t = r.push(c);
            assert forall|i: int| 0 <= i < t.len() - 1 implies !(#[trigger] t[i] == '-' && t[i + 1]
                == '-') by {
                if i < r.len() - 1 {
                    assert(t[i] == r[i] && t[i + 1] == r[i + 1]);
                }
            }
        } else if !(r.len() == 0 || r.last() == '-') {
            let t = r.push('-');
            assert forall|i: int| 0 <= i < t.len() - 1 implies !(#[trigger] t[i] == '-' && t[i + 1]
                == '-') by {
                if i < r.len() - 1 {
                    assert(t[i] == r[i] && t[i + 1] == r[i + 1]);
                }
            }
        }
    }
}

proof fn lemma_prefix_raw_form(s: Seq<char>, k: int)
    requires
        is_raw_form(s),
        0 <= k <= s.len(),
    ensures
        is_raw_form(s.take(k)),
{
    let t = s.take(k);
    assert forall|i: int| 0 <= i < t.len() - 1 implies !(#[trigger] t[i] == '-' && t[i + 1] == '-') by {
        assert(t[i] == s[i] && t[i + 1] == s[i + 1]);
    }
    assert forall|i: int| 0 <= i < t.len() implies is_ascii_alnum(#[trigger] t[i]) || t[i] == '-' by {
        assert(t[i] == s[i]);
    }
}

proof fn lemma_strip_dashes(s: Seq<char>)
    requires
        is_raw_form(s),
    ensures
        is_kebab_form(strip_trailing_dashes(s)),
        exists|k: int| 0 <= k <= s.len() && strip_trailing_dashes(s) == s.take(k),
    decreases s.len(),
{
    if s.len() > 0 && s.last() == '-' {
        lemma_prefix_raw_form(s, s.len() - 1);
        assert(s.drop_last() =~= s.take(s.len() - 1));
        lemma_strip_dashes(s.drop_last());
        let k = choose|k: int| 0 <= k <= s.drop_last().len() && strip_trailing_dashes(s.drop_last()) == s.drop_last().take(k);
        assert(s.drop_last().take(k) =~= s.take(k));
    } else {
        assert(s.take(s.len() as int) =~= s);
    }
}

proof fn lemma_utf8_len_prefix(s: Seq<char>, k: int)
    requires
        0 <= k <= s.len(),
    ensures
        utf8_len(s.take(k)) <= utf8_len(s),
{
    lemma_utf8_len_concat(s.take(k), s.skip(k));
    assert(s.take(k) + s.skip(k) =~= s);
}

proof fn lemma_fitting_prefix_fits(s: Seq<char>, max: nat)
    ensures
        utf8_len(s.take(fitting_prefix(s, max) as int)) <= max,
    decreases s.len(),
{
    let k = fitting_prefix(s, max);
    if s.len() > 0 && char_utf8_len(s[0]) <= max {
        let m2 = (max - char_utf8_len(s[0])) as nat;
        lemma_fitting_prefix_fits(s.drop_first(), m2);
        lemma_fitting_prefix_whole(s.drop_first(), m2);
        assert(s.take(k as int) =~= seq![s[0]] + s.drop_first().take(k - 1));
        lemma_utf8_len_concat(seq![s[0]], s.drop_first().take(k - 1));
        assert(seq![s[0]].drop_first() =~= Seq::<char>::empty());
        assert(utf8_len(Seq::<char>::empty()) == 0);
        assert(utf8_len(seq![s[0]]) == char_utf8_len(s[0]));
    } else {
        assert(s.take(0) =~= Seq::<char>::empty());
        assert(utf8_len(Seq::<char>::empty()) == 0);
    }
}

/// Slugs are safe file names: ASCII letters, digits and single dashes with
/// no dash at either end, at most 40 bytes long.
pub proof fn law_slug_is_kebab(subject: Seq<char>)
    ensures
        is_kebab_form(slug_of(subject)),
        utf8_len(slug_of(subject)) <= 40,
{
    let x = kebab_raw(lowercase(strip_diacritics(subject)));
    lemma_kebab_raw_form(lowercase(strip_diacritics(subject)));
    lemma_strip_dashes(x);
    let y = strip_trailing_dashes(x);
    let kk = choose|k: int| 0 <= k <= x.len() && y == x.take(k);
    if utf8_len(y) > 40 {
        let k = fitting_prefix(y, 40);
        lemma_fitting_prefix_whole(y, 40);
        lemma_prefix_raw_form(x, kk);
        lemma_prefix_raw_form(y, k as int);
        lemma_strip_dashes(y.take(k as int));
        let z = strip_trailing_dashes(y.take(k as int));
        let j = choose|j: int| 0 <= j <= y.take(k as int).len() && z == y.take(k as int).take(j);
        lemma_fitting_prefix_fits(y, 40);
        lemma_utf8_len_prefix(y.take(k as int), j);
    }
}

/// Text already in kebab form is left alone by the kebab conversion.
pub proof fn law_kebab_fixed_point(s: Seq<char>)
    requires
        is_kebab_form(s),
    ensures
        kebab_of_lower(s) == s,
{
    lemma_kebab_raw_identity(s);
}

proof fn lemma_kebab_raw_identity(s: Seq<char>)
    requires
        is_raw_form(s),
    ensures
        kebab_raw(s) == s,
    decreases s.len(),
{
    if s.len() > 0 {
        lemma_prefix_raw_form(s, s.len() - 1);
        assert(s.drop_last() =~= s.take(s.len() - 1));
        lemma_kebab_raw_identity(s.drop_last());
        let r = s.drop_last();
        if !is_ascii_alnum(s.last()) {
            assert(s.last() == '-');
            assert(r.len() > 0);
            assert(r.last() == s[s.len() - 2]);
            assert(!(s[s.len() - 2] == '-' && s[s.len() - 1] == '-'));
        }
        assert(r.push(s.last()) =~= s);
    }
}

/// ASCII text is unchanged by folding diacritics.
pub proof fn law_ascii_keeps_its_letters(s: Seq<char>)
    requires
        forall|i: int| 0 <= i < s.len() ==> (#[trigger] s[i] as u32) < 128,
    ensures
        strip_diacritics(s) == s,
{
    assert forall|i: int| 0 <= i < s.len() implies #[trigger] vi_base(s[i]) == s[i] by {
        assert((s[i] as u32) < 128);
    }
    assert(strip_diacritics(s) =~= s);
}

proof fn lemma_kebab_raw_no_upper(s: Seq<char>)
    requires
        forall|i: int| 0 <= i < s.len() ==> !is_ascii_upper(#[trigger] s[i]),
    ensures
        forall|i: int| 0 <= i < kebab_raw(s).len() ==> !is_ascii_upper(#[trigger] kebab_raw(s)[i]),
    decreases s.len(),
{
    if s.len() > 0 {
        let p = s.drop_last();
        assert forall|i: int| 0 <= i < p.len() implies !is_ascii_upper(#[trigger] p[i]) by {
            assert(p[i] == s[i]);
        }
        lemma_kebab_raw_no_upper(p);
        let r = kebab_raw(p);
        let t = kebab_raw(s);
        assert forall|i: int| 0 <= i < t.len() implies !is_ascii_upper(#[trigger] t[i]) by {
            if i < r.len() {
                assert(t[i] == r[i]);
            } else {
                assert(!is_ascii_upper(s[s.len() - 1]));
            }
        }
    }
}

proof fn lemma_without_dashes_raw(s: Seq<char>)
    ensures
        without_dashes(kebab_raw(s)) == ascii_alnums(s),
    decreases s.len(),
{
    if s.len() > 0 {
        lemma_without_dashes_raw(s.drop_last());
        let r = kebab_raw(s.drop_last());
        let c = s.last();
        if is_ascii_alnum(c) {
            assert(c != '-');
            assert(r.push(c).drop_last() =~= r);
        } else if !(r.len() == 0 || r.last() == '-') {
            assert(r.push('-').drop_last() =~= r);
        }
    }
}

proof fn lemma_without_dashes_strip(s: Seq<char>)
    ensures
        without_dashes(strip_trailing_dashes(s)) == without_dashes(s),
    decreases s.len(),
{
    if s.len() > 0 && s.last() == '-' {
        lemma_without_dashes_strip(s.drop_last());
    }
}

proof fn lemma_kebab_of_lower_facts(x: Seq<char>)
    requires
        forall|i: int| 0 <= i < x.len() ==> !is_ascii_upper(#[trigger] x[i]),
    ensures
        is_lower_kebab(kebab_of_lower(x)),
        without_dashes(kebab_of_lower(x)) == ascii_alnums(x),
{
    let raw = kebab_raw(x);
    lemma_kebab_raw_form(x);
    lemma_strip_dashes(raw);
    lemma_kebab_raw_no_upper(x);
    let k = choose|k: int| 0 <= k <= raw.len() && strip_trailing_dashes(raw) == raw.take(k);
    let y = kebab_of_lower(x);
    assert forall|i: int| 0 <= i < y.len() implies !is_ascii_upper(#[trigger] y[i]) by {
        assert(y[i] == raw[i]);
    }
    lemma_without_dashes_raw(x);
    lemma_without_dashes_strip(raw);
}

/// Kebab case is idempotent: a kebab-case text is all ASCII, so lowercasing
/// it is the ASCII mapping (which `to_lowercase` states), and that leaves
/// it as it is, as does the kebab conversion.
pub proof fn law_kebab_idempotent(k: Seq<char>)
    requires
        is_lower_kebab(k),
    ensures
        forall|i: int| 0 <= i < k.len() ==> is_ascii_char(#[trigger] k[i]),
        ascii_lower(k) == k,
        kebab_of_lower(ascii_lower(k)) == k,
{
    assert forall|i: int| 0 <= i < k.len() implies is_ascii_char(#[trigger] k[i]) by {
        assert(is_ascii_alnum(k[i]) || k[i] == '-');
    }
    assert(ascii_lower(k) =~= k);
    law_kebab_fixed_point(k);
}

/// A small letter of the Vietnamese alphabet written with a diacritic:
/// `à á â ã è é ê ì í ò ó ô õ ù ú ý ă đ ĩ ũ ơ ư` and the small letters of
/// the Vietnamese block U+1EA0..U+1EF9 (the odd code points there).
pub open spec fn is_vi_small(c: char) -> bool {
    ||| c == '\u{00E0}' || c == '\u{00E1}' || c == '\u{00E2}' || c == '\u{00E3}' || c == '\u{00E8}' || c == '\u{00E9}'
    ||| c == '\u{00EA}' || c == '\u{00EC}' || c == '\u{00ED}' || c == '\u{00F2}' || c == '\u{00F3}' || c == '\u{00F4}'
    ||| c == '\u{00F5}' || c == '\u{00F9}' || c == '\u{00FA}' || c == '\u{00FD}' || c == '\u{0103}' || c == '\u{0111}'
    ||| c == '\u{0129}' || c == '\u{0169}' || c == '\u{01A1}' || c == '\u{01B0}' || c == '\u{1EA1}' || c == '\u{1EA3}'
    ||| c == '\u{1EA5}' || c == '\u{1EA7}' || c == '\u{1EA9}' || c == '\u{1EAB}' || c == '\u{1EAD}' || c == '\u{1EAF}'
    ||| c == '\u{1EB1}' || c == '\u{1EB3}' || c == '\u{1EB5}' || c == '\u{1EB7}' || c == '\u{1EB9}' || c == '\u{1EBB}'
    ||| c == '\u{1EBD}' || c == '\u{1EBF}' || c == '\u{1EC1}' || c == '\u{1EC3}' || c == '\u{1EC5}' || c == '\u{1EC7}'
    ||| c == '\u{1EC9}' || c == '\u{1ECB}' || c == '\u{1ECD}' || c == '\u{1ECF}' || c == '\u{1ED1}' || c == '\u{1ED3}'
    ||| c == '\u{1ED5}' || c == '\u{1ED7}' || c == '\u{1ED9}' || c == '\u{1EDB}' || c == '\u{1EDD}' || c == '\u{1EDF}'
    ||| c == '\u{1EE1}' || c == '\u{1EE3}' || c == '\u{1EE5}' || c == '\u{1EE7}' || c == '\u{1EE9}' || c == '\u{1EEB}'
    ||| c == '\u{1EED}' || c == '\u{1EEF}' || c == '\u{1EF1}' || c == '\u{1EF3}' || c == '\u{1EF5}' || c == '\u{1EF7}'
    ||| c == '\u{1EF9}'
}

/// A capital letter of the Vietnamese alphabet written with a diacritic:
/// the capitals of the letters above (the even code points of the
/// Vietnamese block).
pub open spec fn is_vi_capital(c: char) -> bool {
    ||| c == '\u{00C0}' || c == '\u{00C1}' || c == '\u{00C2}' || c == '\u{00C3}' || c == '\u{00C8}' || c == '\u{00C9}'
    ||| c == '\u{00CA}' || c == '\u{00CC}' || c == '\u{00CD}' || c == '\u{00D2}' || c == '\u{00D3}' || c == '\u{00D4}'
    ||| c == '\u{00D5}' || c == '\u{00D9}' || c == '\u{00DA}' || c == '\u{00DD}' || c == '\u{0102}' || c == '\u{0110}'
    ||| c == '\u{0128}' || c == '\u{0168}' || c == '\u{01A0}' || c == '\u{01AF}' || c == '\u{1EA0}' || c == '\u{1EA2}'
    ||| c == '\u{1EA4}' || c == '\u{1EA6}' || c == '\u{1EA8}' || c == '\u{1EAA}' || c == '\u{1EAC}' || c == '\u{1EAE}'
    ||| c == '\u{1EB0}' || c == '\u{1EB2}' || c == '\u{1EB4}' || c == '\u{1EB6}' || c == '\u{1EB8}' || c == '\u{1EBA}'
    ||| c == '\u{1EBC}' || c == '\u{1EBE}' || c == '\u{1EC0}' || c == '\u{1EC2}' || c == '\u{1EC4}' || c == '\u{1EC6}'
    ||| c == '\u{1EC8}' || c == '\u{1ECA}' || c == '\u{1ECC}' || c == '\u{1ECE}' || c == '\u{1ED0}' || c == '\u{1ED2}'
    ||| c == '\u{1ED4}' || c == '\u{1ED6}' || c == '\u{1ED8}' || c == '\u{1EDA}' || c == '\u{1EDC}' || c == '\u{1EDE}'
    ||| c == '\u{1EE0}' || c == '\u{1EE2}' || c == '\u{1EE4}' || c == '\u{1EE6}' || c == '\u{1EE8}' || c == '\u{1EEA}'
    ||| c == '\u{1EEC}' || c == '\u{1EEE}' || c == '\u{1EF0}' || c == '\u{1EF2}' || c == '\u{1EF4}' || c == '\u{1EF6}'
    ||| c == '\u{1EF8}'
}

/// Folding never loses a Vietnamese letter: every small Vietnamese letter
/// with a diacritic folds to a small ASCII letter and every capital to a
/// capital ASCII letter, so in folded text each of them stands as an ASCII
/// letter at its place, and the slug keeps it.
pub proof fn law_vietnamese_letters_fold_to_ascii(s: Seq<char>)
    ensures
        forall|c: char| is_vi_small(c) ==> 'a' <= #[trigger] vi_base(c) && vi_base(c) <= 'z',
        forall|c: char| is_vi_capital(c) ==> 'A' <= #[trigger] vi_base(c) && vi_base(c) <= 'Z',
        forall|i: int|
            0 <= i < s.len() && (is_vi_small(s[i]) || is_vi_capital(s[i])) ==> is_ascii_alnum(
                #[trigger] strip_diacritics(s)[i],
            ),
{
    assert forall|c: char| is_vi_small(c) implies 'a' <= #[trigger] vi_base(c) && vi_base(c) <= 'z' by {
    }
    assert forall|c: char| is_vi_capital(c) implies 'A' <= #[trigger] vi_base(c) && vi_base(c) <= 'Z' by {
    }
    assert forall|i: int|
        0 <= i < s.len() && (is_vi_small(s[i]) || is_vi_capital(s[i])) implies is_ascii_alnum(
        #[trigger] strip_diacritics(s)[i],
    ) by {
        assert(strip_diacritics(s)[i] == vi_base(s[i]));
        if is_vi_small(s[i]) {
            assert('a' <= vi_base(s[i]) && vi_base(s[i]) <= 'z');
        } else {
            assert('A' <= vi_base(s[i]) && vi_base(s[i]) <= 'Z');
        }
    }
}

} // verus!
