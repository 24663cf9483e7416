//! Extraction of image file names from the camera's listing page.
//!
//! The listing page is free-form markup; the image names in it follow a
//! small grammar: `P`, one more name character, a run of digits, and the
//! `.JPG` suffix. Two shapes are accepted — one whose second character must
//! be a word character, one where any character but a line break does — and
//! every non-overlapping occurrence of either is collected, sorted, and
//! deduplicated.

use vstd::prelude::*;
use vstd::string::StrSliceExecFns;

use crate::text::spec_name_listed;

verus! {

/// A decimal digit.
pub open spec fn is_ascii_digit(c: char) -> bool {
    48 <= c as u32 <= 57
}

/// A word character: a letter, a digit, or the underscore.
pub open spec fn is_word_char(c: char) -> bool {
    is_ascii_digit(c) || (97 <= c as u32 <= 122) || (65 <= c as u32 <= 90) || c == '_'
}

/// The length of the digit run starting at `i`.
pub open spec fn spec_digit_run(s: Seq<char>, i: int) -> int
    decreases s.len() - i,
    when 0 <= i <= s.len()
{
    if i >= s.len() {
        0
    } else if is_ascii_digit(s[i]) {
        1 + spec_digit_run(s, i + 1)
    } else {
        0
    }
}

/// The `.JPG` suffix stands at `i`.
pub open spec fn spec_jpg_suffix_at(s: Seq<char>, i: int) -> bool {
    0 <= i && i + 4 <= s.len() && s[i] == '.' && s[i + 1] == 'J' && s[i + 2] == 'P' && s[i + 3]
        == 'G'
}

/// An image name stands at `i`: `P`, one more character — a word character
/// in the strict shape, anything but a line break otherwise — a nonempty
/// digit run, and the `.JPG` suffix.
pub open spec fn spec_name_at(s: Seq<char>, i: int, strict: bool) -> bool {
    &&& 0 <= i
    &&& i + 2 <= s.len()
    &&& s[i] == 'P'
    &&& if strict {
        is_word_char(s[i + 1])
    } else {
        s[i + 1] != '\n'
    }
    &&& spec_digit_run(s, i + 2) >= 1
    &&& spec_jpg_suffix_at(s, i + 2 + spec_digit_run(s, i + 2))
}

/// The length of the name standing at `i`.
pub open spec fn spec_name_len(s: Seq<char>, i: int) -> int {
    2 + spec_digit_run(s, i + 2) + 4
}

/// All non-overlapping names from position `i` on, leftmost first: at a
/// match the scan continues after it, otherwise one character later.
pub open spec fn spec_scan(s: Seq<char>, i: int, strict: bool) -> Seq<Seq<char>>
    decreases s.len() - i,
    when 0 <= i <= s.len()
{
    if i >= s.len() {
        Seq::empty()
    } else if spec_name_at(s, i, strict) {
        seq![s.subrange(i, i + spec_name_len(s, i))] + spec_scan(s, i + spec_name_len(s, i), strict)
    } else {
        spec_scan(s, i + 1, strict)
    }
}

/// Names in lexicographic order, by character value, a prefix first.
pub open spec fn spec_name_le(a: Seq<char>, b: Seq<char>) -> bool
    decreases a.len(),
{
    if a.len() == 0 {
        true
    } else if b.len() == 0 {
        false
    } else if a[0] == b[0] {
        spec_name_le(a.drop_first(), b.drop_first())
    } else {
        (a[0] as u32) < (b[0] as u32)
    }
}

/// A list of names in ascending order.
pub open spec fn spec_sorted(names: Seq<Seq<char>>) -> bool {
    forall|i: int, j: int| 0 <= i <= j < names.len() ==> spec_name_le(names[i], names[j])
}

/// A list of names in strictly ascending order: sorted, no name twice.
pub open spec fn spec_strictly_sorted(names: Seq<Seq<char>>) -> bool {
    forall|i: int, j: int|
        0 <= i < j < names.len() ==> spec_name_le(names[i], names[j]) && names[i] != names[j]
}

/// The order is total: of two names, one comes no later than the other.
pub proof fn lemma_name_le_total(a: Seq<char>, b: Seq<char>)
    ensures
        spec_name_le(a, b) || spec_name_le(b, a),
    decreases a.len(),
{
    if a.len() > 0 && b.len() > 0 {
        if a[0] == b[0] {
            lemma_name_le_total(a.drop_first(), b.drop_first());
        } else {
            vstd::utf8::char_u32_cast(a[0], a[0] as u32);
            vstd::utf8::char_u32_cast(b[0], b[0] as u32);
        }
    }
}

/// The order is transitive.
pub proof fn lemma_name_le_trans(a: Seq<char>, b: Seq<char>, c: Seq<char>)
    requires
        spec_name_le(a, b),
        spec_name_le(b, c),
    ensures
        spec_name_le(a, c),
    decreases a.len(),
{
    if a.len() > 0 && b.len() > 0 && c.len() > 0 {
        if a[0] == b[0] && b[0] == c[0] {
            lemma_name_le_trans(a.drop_first(), b.drop_first(), c.drop_first());
        } else {
            vstd::utf8::char_is_scalar(a[0]);
        }
    }
}

/// The order is antisymmetric: names that come no later than each other are
/// the same name.
pub proof fn lemma_name_le_antisym(a: Seq<char>, b: Seq<char>)
    requires
        spec_name_le(a, b),
        spec_name_le(b, a),
    ensures
        a == b,
    decreases a.len(),
{
    if a.len() > 0 && b.len() > 0 && a[0] == b[0] {
        lemma_name_le_antisym(a.drop_first(), b.drop_first());
        assert forall|k: int| 0 <= k < a.len() implies a[k] == b[k] by {
            if k > 0 {
                assert(a.drop_first()[k - 1] == a[k]);
                assert(b.drop_first()[k - 1] == b[k]);
            }
        }
        assert(a =~= b);
    } else if a.len() == 0 {
        assert(b.len() == 0);
        assert(a =~= b);
    }
}

/// The length of the digit run starting at `i`.
fn digit_run(s: &str, i: usize, len: usize) -> (r: usize)
    requires
        len == s@.len(),
        i <= len,
    ensures
        r == spec_digit_run(s@, i as int),
        i + r <= len,
{
    let mut j: usize = i;
    while j < len
        invariant_except_break
            i <= j <= len,
            len == s@.len(),
            spec_digit_run(s@, i as int) == j - i + spec_digit_run(s@, j as int),
        ensures
            i <= j <= len,
            len == s@.len(),
            spec_digit_run(s@, i as int) == j - i + spec_digit_run(s@, j as int),
            spec_digit_run(s@, j as int) == 0,
        decreases len - j,
    {
        let u = s.get_char(j) as u32;
        if !(48 <= u && u <= 57) {
            break ;
        }
        j = j + 1;
    }
    j - i
}

/// Whether the `.JPG` suffix stands at `i`.
fn jpg_suffix_at(s: &str, i: usize, len: usize) -> (r: bool)
    requires
        len == s@.len(),
        i <= len,
    ensures
        r == spec_jpg_suffix_at(s@, i as int),
{
    if len - i < 4 {
        return false;
    }
    s.get_char(i) == '.' && s.get_char(i + 1) == 'J' && s.get_char(i + 2) == 'P' && s.get_char(
        i + 3,
    ) == 'G'
}

/// Whether an image name stands at `i`, and how long it is.
fn name_at(s: &str, i: usize, len: usize, strict: bool) -> (r: Option<usize>)
    requires
        len == s@.len(),
        i < len,
    ensures
        spec_name_at(s@, i as int, strict) ==> r == Some(spec_name_len(s@, i as int) as usize)
            && i + spec_name_len(s@, i as int) <= len,
        !spec_name_at(s@, i as int, strict) ==> r is None,
{
    if len - i < 2 {
        return None;
    }
    if s.get_char(i) != 'P' {
        return None;
    }
    let second = s.get_char(i + 1) as u32;
    let second_ok = if strict {
        (48 <= second && second <= 57) || (97 <= second && second <= 122) || (65 <= second && second
            <= 90) || second == 95
    } else {
        second != 10
    };
    proof {
        vstd::utf8::char_is_scalar(s@[i as int + 1]);
        if strict {
            assert(second_ok == is_word_char(s@[i + 1]));
        } else {
            assert((s@[i + 1] as u32 == 10) == (s@[i + 1] == '\n'));
        }
    }
    if !second_ok {
        return None;
    }
    let run = digit_run(s, i + 2, len);
    if run == 0 {
        return None;
    }
    if jpg_suffix_at(s, i + 2 + run, len) {
        Some(2 + run + 4)
    } else {
        None
    }
}

/// Collect every non-overlapping image name in the text, leftmost first.
fn scan_names(s: &str, strict: bool) -> (r: Vec<String>)
    ensures
        r.deep_view() == spec_scan(s@, 0, strict),
{
    let len = s.unicode_len();
    let mut out: Vec<String> = Vec::new();
    let mut i: usize = 0;
    assert(out.deep_view() + spec_scan(s@, 0, strict) =~= spec_scan(s@, 0, strict));
    while i < len
        invariant
            i <= len,
            len == s@.len(),
            spec_scan(s@, 0, strict) == out.deep_view() + spec_scan(s@, i as int, strict),
        decreases len - i,
    {
        match name_at(s, i, len, strict) {
            Some(name_len) => {
                let ghost before = out.deep_view();
                let piece = s.substring_char(i, i + name_len);
                out.push(piece.to_owned());
                assert(out.deep_view() =~= before.push(s@.subrange(i as int, i + name_len)));
                assert(out.deep_view() + spec_scan(s@, i + name_len, strict) =~= before + (seq![
                    s@.subrange(i as int, i + name_len),
                ] + spec_scan(s@, i + name_len, strict)));
                i = i + name_len;
            },
            None => {
                i = i + 1;
            },
        }
    }
    assert(spec_scan(s@, i as int, strict) =~= Seq::empty());
    assert(out.deep_view() + Seq::<Seq<char>>::empty() =~= out.deep_view());
    out
}

/// Whether `a` comes no later than `b`.
fn name_le(a: &str, b: &str) -> (r: bool)
    ensures
        r == spec_name_le(a@, b@),
{
    let a_len = a.unicode_len();
    let b_len = b.unicode_len();
    let mut i: usize = 0;
    assert(a@.skip(0) =~= a@);
    assert(b@.skip(0) =~= b@);
    while i < a_len && i < b_len
        invariant_except_break
            i <= a_len,
            i <= b_len,
            a_len == a@.len(),
            b_len == b@.len(),
            spec_name_le(a@, b@) == spec_name_le(a@.skip(i as int), b@.skip(i as int)),
        ensures
            a_len == a@.len(),
            b_len == b@.len(),
            i <= a_len,
            i <= b_len,
            spec_name_le(a@, b@) == spec_name_le(a@.skip(i as int), b@.skip(i as int)),
            i < a_len && i < b_len ==> a@[i as int] != b@[i as int],
        decreases a_len - i,
    {
        let ca = a.get_char(i);
        let cb = b.get_char(i);
        if ca != cb {
            break ;
        }
        proof {
            assert(a@.skip(i as int).drop_first() =~= a@.skip(i + 1));
            assert(b@.skip(i as int).drop_first() =~= b@.skip(i + 1));
        }
        i = i + 1;
    }
    if i >= a_len {
        return true;
    }
    if i >= b_len {
        return false;
    }
    (a.get_char(i) as u32) < (b.get_char(i) as u32)
}

/// Insert a name into a sorted list, keeping it sorted; afterwards the list
/// holds exactly the names it held before and the new one.
fn insert_sorted(out: &mut Vec<String>, name: String)
    requires
        spec_sorted(old(out).deep_view()),
    ensures
        spec_sorted(final(out).deep_view()),
        forall|y: Seq<char>|
            spec_name_listed(final(out).deep_view(), y) == (spec_name_listed(
                old(out).deep_view(),
                y,
            ) || y == name@),
{
    let mut k: usize = 0;
    while k < out.len() && name_le(out[k].as_str(), name.as_str())
        invariant
            k <= out@.len(),
            out.deep_view().len() == out@.len(),
            spec_sorted(out.deep_view()),
            *out == *old(out),
            forall|j: int| 0 <= j < k ==> spec_name_le(out.deep_view()[j], name@),
        decreases out@.len() - k,
    {
        assert(out.deep_view()[k as int] == out@[k as int]@);
        k = k + 1;
    }
    proof {
        if k < out@.len() {
            assert(out.deep_view()[k as int] == out@[k as int]@);
            lemma_name_le_total(out.deep_view()[k as int], name@);
        }
    }
    let ghost before = out.deep_view();
    out.insert(k, name);
    proof {
        let after = out.deep_view();
        assert(after.len() == before.len() + 1);
        assert forall|j: int| 0 <= j < after.len() implies #[trigger] after[j] == (if j < k {
            before[j]
        } else if j == k {
            name@
        } else {
            before[j - 1]
        }) by {
            assert(after[j] == out@[j]@);
            if j < k {
                assert(before[j] == old(out)@[j]@);
            } else if j > k {
                assert(before[j - 1] == old(out)@[j - 1]@);
            }
        }
        assert forall|i: int, j: int|
            0 <= i <= j < after.len() implies spec_name_le(after[i], after[j]) by {
            if i == j {
                lemma_name_le_total(after[i], after[i]);
            } else if j < k || (k < i) {
                assert(spec_name_le(after[i], after[j]));
            } else if i < k && j == k {
                assert(spec_name_le(before[i], name@));
            } else if i == k && k < j {
                assert(spec_name_le(name@, before[k as int]));
                assert(spec_name_le(before[k as int], before[j - 1]));
                lemma_name_le_trans(name@, before[k as int], before[j - 1]);
            } else if i < k && k < j {
                assert(spec_name_le(before[i], before[j - 1]));
            }
        }
        assert forall|y: Seq<char>|
            spec_name_listed(after, y) == (spec_name_listed(before, y) || y == name@) by {
            if spec_name_listed(before, y) {
                let w = choose|w: int| 0 <= w < before.len() && before[w] == y;
                if w < k {
                    assert(after[w] == y);
                } else {
                    assert(after[w + 1] == y);
                }
            }
            if y == name@ {
                assert(after[k as int] == y);
            }
            if spec_name_listed(after, y) {
                let w = choose|w: int| 0 <= w < after.len() && after[w] == y;
                if w < k {
                    assert(before[w] == y);
                } else if w > k {
                    assert(before[w - 1] == y);
                }
            }
        }
    }
}

/// Sort a list of names; the sorted list holds exactly the names of the
/// input.
fn sort_names(names: Vec<String>) -> (r: Vec<String>)
    ensures
        spec_sorted(r.deep_view()),
        forall|y: Seq<char>|
            spec_name_listed(r.deep_view(), y) == spec_name_listed(names.deep_view(), y),
{
    let mut out: Vec<String> = Vec::new();
    let mut i: usize = 0;
    while i < names.len()
        invariant
            i <= names@.len(),
            names.deep_view().len() == names@.len(),
            spec_sorted(out.deep_view()),
            forall|y: Seq<char>|
                spec_name_listed(out.deep_view(), y) == spec_name_listed(
                    names.deep_view().subrange(0, i as int),
                    y,
                ),
        decreases names@.len() - i,
    {
        assert(names.deep_view()[i as int] == names@[i as int]@);
        let ghost before_prefix = names.deep_view().subrange(0, i as int);
        let ghost next_prefix = names.deep_view().subrange(0, i + 1);
        insert_sorted(&mut out, names[i].clone());
        proof {
            assert forall|y: Seq<char>|
                spec_name_listed(out.deep_view(), y) == spec_name_listed(next_prefix, y) by {
                if spec_name_listed(next_prefix, y) {
                    let w = choose|w: int| 0 <= w < next_prefix.len() && next_prefix[w] == y;
                    if w < i {
                        assert(before_prefix[w] == y);
                    } else {
                        assert(y == names.deep_view()[i as int]);
                    }
                }
                if spec_name_listed(before_prefix, y) {
                    let w = choose|w: int| 0 <= w < before_prefix.len() && before_prefix[w] == y;
                    assert(next_prefix[w] == y);
                }
                if y == names.deep_view()[i as int] {
                    assert(next_prefix[i as int] == y);
                }
            }
        }
        i = i + 1;
    }
    assert(names.deep_view().subrange(0, i as int) =~= names.deep_view());
    out
}

/// Drop repeated names from a sorted list, leaving each name once, still in
/// order.
fn dedup_names(names: Vec<String>) -> (r: Vec<String>)
    requires
        spec_sorted(names.deep_view()),
    ensures
        spec_strictly_sorted(r.deep_view()),
        forall|y: Seq<char>|
            spec_name_listed(r.deep_view(), y) == spec_name_listed(names.deep_view(), y),
{
    let mut out: Vec<String> = Vec::new();
    let mut i: usize = 0;
    while i < names.len()
        invariant
            i <= names@.len(),
            names.deep_view().len() == names@.len(),
            spec_sorted(names.deep_view()),
            spec_strictly_sorted(out.deep_view()),
            forall|y: Seq<char>|
                spec_name_listed(out.deep_view(), y) == spec_name_listed(
                    names.deep_view().subrange(0, i as int),
                    y,
                ),
            out.deep_view().len() > 0 ==> i > 0 && out.deep_view().last() == names.deep_view()[i
                - 1],
        decreases names@.len() - i,
    {
        assert(names.deep_view()[i as int] == names@[i as int]@);
        let ghost prefix = names.deep_view().subrange(0, i as int);
        let ghost next_prefix = names.deep_view().subrange(0, i + 1);
        let ghost cur = names.deep_view()[i as int];
        let ghost pre = out.deep_view();
        let take = if out.len() == 0 {
            true
        } else {
            assert(out.deep_view().last() == out@[out@.len() - 1]@);
            !crate::text::str_eq(out[out.len() - 1].as_str(), names[i].as_str())
        };
        if take {
            let ghost before = out.deep_view();
            proof {
                if before.len() > 0 {
                    assert(spec_name_le(names.deep_view()[i - 1], names.deep_view()[i as int]));
                    assert(before[before.len() - 1] != cur);
                }
            }
            out.push(names[i].clone());
            proof {
                assert(out.deep_view() =~= before.push(cur));
                assert forall|a: int, b: int|
                    0 <= a < b < out.deep_view().len() implies spec_name_le(
                    out.deep_view()[a],
                    out.deep_view()[b],
                ) && out.deep_view()[a] != out.deep_view()[b] by {
                    if b == out.deep_view().len() - 1 {
                        let last = before[before.len() - 1];
                        assert(spec_name_le(last, cur));
                        assert(last != cur);
                        if a < before.len() - 1 {
                            assert(spec_name_le(before[a], last));
                            lemma_name_le_trans(before[a], last, cur);
                            if before[a] == cur {
                                lemma_name_le_antisym(last, cur);
                            }
                        }
                    } else {
                        assert(spec_name_le(before[a], before[b]) && before[a] != before[b]);
                    }
                }
            }
        }
        proof {
            let post = out.deep_view();
            assert forall|y: Seq<char>|
                spec_name_listed(post, y) == spec_name_listed(next_prefix, y) by {
                if spec_name_listed(post, y) {
                    let w = choose|w: int| 0 <= w < post.len() && post[w] == y;
                    if take && w == post.len() - 1 {
                        assert(next_prefix[i as int] == y);
                    } else {
                        assert(pre[w] == y);
                        assert(spec_name_listed(pre, y));
                        assert(spec_name_listed(prefix, y));
                        let v = choose|v: int| 0 <= v < prefix.len() && prefix[v] == y;
                        assert(next_prefix[v] == y);
                    }
                }
                if spec_name_listed(next_prefix, y) {
                    let w = choose|w: int| 0 <= w < next_prefix.len() && next_prefix[w] == y;
                    if w < i {
                        assert(prefix[w] == y);
                        assert(spec_name_listed(prefix, y));
                        assert(spec_name_listed(pre, y));
                        let v = choose|v: int| 0 <= v < pre.len() && pre[v] == y;
                        assert(pre[v] == y);
                        assert(post[v] == y);
                    } else {
                        assert(y == cur);
                        assert(post[post.len() - 1] == y);
                    }
                }
            }
        }
        i = i + 1;
    }
    assert(names.deep_view().subrange(0, i as int) =~= names.deep_view());
    out
}

/// Extract the image names from the listing page: every occurrence of either
/// name shape, each name once, in ascending order.
pub fn extract_image_names(text: &str) -> (r: Vec<String>)
    ensures
        spec_strictly_sorted(r.deep_view()),
        forall|y: Seq<char>|
            spec_name_listed(r.deep_view(), y) == (spec_name_listed(spec_scan(text@, 0, true), y)
                || spec_name_listed(spec_scan(text@, 0, false), y)),
{
    let strict = scan_names(text, true);
    let loose = scan_names(text, false);
    let ghost strict_names = strict.deep_view();
    let ghost loose_names = loose.deep_view();
    let mut all = strict;
    let mut rest = loose;
    all.append(&mut rest);
    proof {
        assert(all.deep_view() =~= strict_names + loose_names);
        assert forall|y: Seq<char>|
            spec_name_listed(strict_names + loose_names, y) == (spec_name_listed(strict_names, y)
                || spec_name_listed(loose_names, y)) by {
            let combined = strict_names + loose_names;
            if spec_name_listed(strict_names, y) {
                let w = choose|w: int| 0 <= w < strict_names.len() && strict_names[w] == y;
                assert(combined[w] == y);
            }
            if spec_name_listed(loose_names, y) {
                let w = choose|w: int| 0 <= w < loose_names.len() && loose_names[w] == y;
                assert(combined[strict_names.len() + w] == y);
            }
        }
    }
    let sorted = sort_names(all);
    dedup_names(sorted)
}

} // verus!
