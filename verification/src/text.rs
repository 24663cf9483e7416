//! Text utilities the camera protocol needs: decimal formatting for ports
//! and timestamps, ASCII case mapping for URL variants, and substring search
//! for classifying response bodies and terminal descriptions.

use vstd::prelude::*;
use vstd::string::StrSliceExecFns;
use vstd::string::StringExecFns;

verus! {

/// Relies on String::push from std: appends exactly the one given character.
#[verifier::external_body]
pub fn push_char(s: &mut String, c: char)
    ensures
        final(s)@ == old(s)@.push(c),
{
    s.push(c);
}

/// The decimal digit character for one digit value.
pub open spec fn spec_digit_char(d: int) -> char
    recommends
        0 <= d < 10,
{
    if d == 0 {
        '0'
    } else if d == 1 {
        '1'
    } else if d == 2 {
        '2'
    } else if d == 3 {
        '3'
    } else if d == 4 {
        '4'
    } else if d == 5 {
        '5'
    } else if d == 6 {
        '6'
    } else if d == 7 {
        '7'
    } else if d == 8 {
        '8'
    } else {
        '9'
    }
}

/// The decimal rendering of a nonnegative number, most significant digit
/// first, without leading zeros (a single zero for zero).
pub open spec fn spec_decimal(n: int) -> Seq<char>
    recommends
        n >= 0,
    decreases n,
{
    if n < 10 {
        seq![spec_digit_char(n)]
    } else {
        spec_decimal(n / 10).push(spec_digit_char(n % 10))
    }
}

/// The decimal digit character for one digit value.
pub fn digit_char(d: u64) -> (r: char)
    requires
        d < 10,
    ensures
        r == spec_digit_char(d as int),
{
    if d == 0 {
        '0'
    } else if d == 1 {
        '1'
    } else if d == 2 {
        '2'
    } else if d == 3 {
        '3'
    } else if d == 4 {
        '4'
    } else if d == 5 {
        '5'
    } else if d == 6 {
        '6'
    } else if d == 7 {
        '7'
    } else if d == 8 {
        '8'
    } else {
        '9'
    }
}

/// Render a number in decimal.
pub fn decimal_string(n: u64) -> (r: String)
    ensures
        r@ == spec_decimal(n as int),
    decreases n,
{
    if n < 10 {
        let mut s = String::new();
        push_char(&mut s, digit_char(n));
        assert(s@ =~= spec_decimal(n as int));
        s
    } else {
        let mut s = decimal_string(n / 10);
        push_char(&mut s, digit_char(n % 10));
        s
    }
}

/// ASCII uppercase of one character; everything outside `a`..`z` stays.
pub open spec fn spec_upper_char(c: char) -> char {
    if c == 'a' {
        'A'
    } else if c == 'b' {
        'B'
    } else if c == 'c' {
        'C'
    } else if c == 'd' {
        'D'
    } else if c == 'e' {
        'E'
    } else if c == 'f' {
        'F'
    } else if c == 'g' {
        'G'
    } else if c == 'h' {
        'H'
    } else if c == 'i' {
        'I'
    } else if c == 'j' {
        'J'
    } else if c == 'k' {
        'K'
    } else if c == 'l' {
        'L'
    } else if c == 'm' {
        'M'
    } else if c == 'n' {
        'N'
    } else if c == 'o' {
        'O'
    } else if c == 'p' {
        'P'
    } else if c == 'q' {
        'Q'
    } else if c == 'r' {
        'R'
    } else if c == 's' {
        'S'
    } else if c == 't' {
        'T'
    } else if c == 'u' {
        'U'
    } else if c == 'v' {
        'V'
    } else if c == 'w' {
        'W'
    } else if c == 'x' {
        'X'
    } else if c == 'y' {
        'Y'
    } else if c == 'z' {
        'Z'
    } else {
        c
    }
}

/// ASCII lowercase of one character; everything outside `A`..`Z` stays.
pub open spec fn spec_lower_char(c: char) -> char {
    if c == 'A' {
        'a'
    } else if c == 'B' {
        'b'
    } else if c == 'C' {
        'c'
    } else if c == 'D' {
        'd'
    } else if c == 'E' {
        'e'
    } else if c == 'F' {
        'f'
    } else if c == 'G' {
        'g'
    } else if c == 'H' {
        'h'
    } else if c == 'I' {
        'i'
    } else if c == 'J' {
        'j'
    } else if c == 'K' {
        'k'
    } else if c == 'L' {
        'l'
    } else if c == 'M' {
        'm'
    } else if c == 'N' {
        'n'
    } else if c == 'O' {
        'o'
    } else if c == 'P' {
        'p'
    } else if c == 'Q' {
        'q'
    } else if c == 'R' {
        'r'
    } else if c == 'S' {
        's'
    } else if c == 'T' {
        't'
    } else if c == 'U' {
        'u'
    } else if c == 'V' {
        'v'
    } else if c == 'W' {
        'w'
    } else if c == 'X' {
        'x'
    } else if c == 'Y' {
        'y'
    } else if c == 'Z' {
        'z'
    } else {
        c
    }
}

/// ASCII uppercase of one character.
pub fn upper_char(c: char) -> (r: char)
    ensures
        r == spec_upper_char(c),
{
    match c {
        'a' => 'A',
        'b' => 'B',
        'c' => 'C',
        'd' => 'D',
        'e' => 'E',
        'f' => 'F',
        'g' => 'G',
        'h' => 'H',
        'i' => 'I',
        'j' => 'J',
        'k' => 'K',
        'l' => 'L',
        'm' => 'M',
        'n' => 'N',
        'o' => 'O',
        'p' => 'P',
        'q' => 'Q',
        'r' => 'R',
        's' => 'S',
        't' => 'T',
        'u' => 'U',
        'v' => 'V',
        'w' => 'W',
        'x' => 'X',
        'y' => 'Y',
        'z' => 'Z',
        _ => c,
    }
}

/// ASCII lowercase of one character.
pub fn lower_char(c: char) -> (r: char)
    ensures
        r == spec_lower_char(c),
{
    match c {
        'A' => 'a',
        'B' => 'b',
        'C' => 'c',
        'D' => 'd',
        'E' => 'e',
        'F' => 'f',
        'G' => 'g',
        'H' => 'h',
        'I' => 'i',
        'J' => 'j',
        'K' => 'k',
        'L' => 'l',
        'M' => 'm',
        'N' => 'n',
        'O' => 'o',
        'P' => 'p',
        'Q' => 'q',
        'R' => 'r',
        'S' => 's',
        'T' => 't',
        'U' => 'u',
        'V' => 'v',
        'W' => 'w',
        'X' => 'x',
        'Y' => 'y',
        'Z' => 'z',
        _ => c,
    }
}

/// ASCII uppercase of a character sequence.
pub open spec fn spec_upper(s: Seq<char>) -> Seq<char> {
    s.map_values(|c: char| spec_upper_char(c))
}

/// ASCII lowercase of a character sequence.
pub open spec fn spec_lower(s: Seq<char>) -> Seq<char> {
    s.map_values(|c: char| spec_lower_char(c))
}

/// ASCII uppercase of a string: `a`..`z` mapped, all else kept.
pub fn ascii_uppercase(s: &str) -> (r: String)
    ensures
        r@ == spec_upper(s@),
{
    let len = s.unicode_len();
    let mut out = String::new();
    let mut i: usize = 0;
    while i < len
        invariant
            i <= len,
            len == s@.len(),
            out@ == spec_upper(s@.subrange(0, i as int)),
        decreases len - i,
    {
        push_char(&mut out, upper_char(s.get_char(i)));
        i = i + 1;
        assert(out@ =~= spec_upper(s@.subrange(0, i as int)));
    }
    assert(s@.subrange(0, len as int) =~= s@);
    out
}

/// ASCII lowercase of a string: `A`..`Z` mapped, all else kept.
pub fn ascii_lowercase(s: &str) -> (r: String)
    ensures
        r@ == spec_lower(s@),
{
    let len = s.unicode_len();
    let mut out = String::new();
    let mut i: usize = 0;
    while i < len
        invariant
            i <= len,
            len == s@.len(),
            out@ == spec_lower(s@.subrange(0, i as int)),
        decreases len - i,
    {
        push_char(&mut out, lower_char(s.get_char(i)));
        i = i + 1;
        assert(out@ =~= spec_lower(s@.subrange(0, i as int)));
    }
    assert(s@.subrange(0, len as int) =~= s@);
    out
}

/// `needle` occurs in `hay` at position `i`.
pub open spec fn spec_occurs_at(hay: Seq<char>, needle: Seq<char>, i: int) -> bool {
    0 <= i && i + needle.len() <= hay.len() && hay.subrange(i, i + needle.len()) == needle
}

/// `needle` occurs somewhere in `hay`.
pub open spec fn spec_contains(hay: Seq<char>, needle: Seq<char>) -> bool {
    exists|i: int| spec_occurs_at(hay, needle, i)
}

/// Whether `needle` occurs in `hay` starting exactly at `i`.
fn occurs_at(hay: &str, needle: &str, i: usize, hay_len: usize, needle_len: usize) -> (r: bool)
    requires
        hay_len == hay@.len(),
        needle_len == needle@.len(),
        i + needle_len <= hay_len,
    ensures
        r == spec_occurs_at(hay@, needle@, i as int),
{
    let mut j: usize = 0;
    while j < needle_len
        invariant
            j <= needle_len,
            hay_len == hay@.len(),
            needle_len == needle@.len(),
            i + needle_len <= hay_len,
            forall|t: int| 0 <= t < j ==> hay@[i + t] == needle@[t],
        decreases needle_len - j,
    {
        if hay.get_char(i + j) != needle.get_char(j) {
            assert(hay@.subrange(i as int, i + needle@.len())[j as int] != needle@[j as int]);
            return false;
        }
        j = j + 1;
    }
    assert(hay@.subrange(i as int, i + needle@.len()) =~= needle@);
    true
}

/// Substring search: whether `needle` occurs anywhere in `hay`.
pub fn str_contains(hay: &str, needle: &str) -> (r: bool)
    ensures
        r == spec_contains(hay@, needle@),
{
    let hay_len = hay.unicode_len();
    let needle_len = needle.unicode_len();
    if needle_len > hay_len {
        assert(forall|i: int| !spec_occurs_at(hay@, needle@, i));
        return false;
    }
    if needle_len == 0 {
        assert(hay@.subrange(0, 0) =~= needle@);
        assert(spec_occurs_at(hay@, needle@, 0));
        return true;
    }
    let last = hay_len - needle_len;
    let mut i: usize = 0;
    while i <= last
        invariant
            hay_len == hay@.len(),
            needle_len == needle@.len(),
            0 < needle_len <= hay_len,
            last == hay_len - needle_len,
            i <= last + 1,
            forall|k: int| 0 <= k < i ==> !spec_occurs_at(hay@, needle@, k),
        decreases last + 1 - i,
    {
        if occurs_at(hay, needle, i, hay_len, needle_len) {
            return true;
        }
        i = i + 1;
    }
    assert(forall|k: int| i <= k ==> !spec_occurs_at(hay@, needle@, k));
    false
}

/// `prefix` starts `hay`.
pub open spec fn spec_starts_with(hay: Seq<char>, prefix: Seq<char>) -> bool {
    spec_occurs_at(hay, prefix, 0)
}

/// Whether the string starts with the given prefix.
pub fn str_starts_with(hay: &str, prefix: &str) -> (r: bool)
    ensures
        r == spec_starts_with(hay@, prefix@),
{
    let hay_len = hay.unicode_len();
    let prefix_len = prefix.unicode_len();
    if prefix_len > hay_len {
        return false;
    }
    occurs_at(hay, prefix, 0, hay_len, prefix_len)
}

/// Whether two strings hold the same characters.
pub fn str_eq(a: &str, b: &str) -> (r: bool)
    ensures
        r == (a@ == b@),
{
    let a_len = a.unicode_len();
    let b_len = b.unicode_len();
    if a_len != b_len {
        return false;
    }
    proof {
        assert(a@.subrange(0, a@.len() as int) =~= a@);
    }
    occurs_at(a, b, 0, a_len, b_len)
}

/// `suffix` ends `hay`.
pub open spec fn spec_ends_with(hay: Seq<char>, suffix: Seq<char>) -> bool {
    suffix.len() <= hay.len() && spec_occurs_at(hay, suffix, hay.len() - suffix.len())
}

/// Whether the string ends with the given suffix.
pub fn str_ends_with(hay: &str, suffix: &str) -> (r: bool)
    ensures
        r == spec_ends_with(hay@, suffix@),
{
    let hay_len = hay.unicode_len();
    let suffix_len = suffix.unicode_len();
    if suffix_len > hay_len {
        return false;
    }
    occurs_at(hay, suffix, hay_len - suffix_len, hay_len, suffix_len)
}

/// Whether the string ends with the given character.
pub fn str_ends_with_char(hay: &str, c: char) -> (r: bool)
    ensures
        r == (hay@.len() > 0 && hay@.last() == c),
{
    let len = hay.unicode_len();
    if len == 0 {
        return false;
    }
    hay.get_char(len - 1) == c
}

/// Whether a name occurs in a list of names.
pub open spec fn spec_name_listed(names: Seq<Seq<char>>, name: Seq<char>) -> bool {
    exists|i: int| 0 <= i < names.len() && names[i] == name
}

/// How many characters stand before the first colon (all of them when there
/// is none).
pub open spec fn spec_colon_prefix_len(s: Seq<char>) -> int
    decreases s.len(),
{
    if s.len() == 0 {
        0
    } else if s[0] == ':' {
        0
    } else {
        1 + spec_colon_prefix_len(s.drop_first())
    }
}

/// The part of a character sequence before its first colon.
pub open spec fn spec_colon_prefix(s: Seq<char>) -> Seq<char> {
    s.subrange(0, spec_colon_prefix_len(s))
}

/// The characters before the first colon are exactly the longest colon-free
/// prefix.
proof fn lemma_colon_prefix_len_props(s: Seq<char>)
    ensures
        0 <= spec_colon_prefix_len(s) <= s.len(),
        forall|k: int| 0 <= k < spec_colon_prefix_len(s) ==> s[k] != ':',
        spec_colon_prefix_len(s) < s.len() ==> s[spec_colon_prefix_len(s)] == ':',
    decreases s.len(),
{
    if s.len() != 0 && s[0] != ':' {
        lemma_colon_prefix_len_props(s.drop_first());
        assert forall|k: int| 0 <= k < spec_colon_prefix_len(s) implies s[k] != ':' by {
            if k > 0 {
                assert(s.drop_first()[k - 1] == s[k]);
            }
        }
        if spec_colon_prefix_len(s) < s.len() {
            assert(s.drop_first()[spec_colon_prefix_len(s.drop_first())] == s[spec_colon_prefix_len(
                s,
            )]);
        }
    }
}

/// Any colon-free prefix that either exhausts the string or stops right at a
/// colon is the colon prefix.
pub proof fn lemma_colon_prefix_unique(s: Seq<char>, r: Seq<char>)
    requires
        r.len() <= s.len(),
        r == s.subrange(0, r.len() as int),
        forall|k: int| 0 <= k < r.len() ==> s[k] != ':',
        r.len() < s.len() ==> s[r.len() as int] == ':',
    ensures
        r == spec_colon_prefix(s),
{
    lemma_colon_prefix_len_props(s);
    let l1 = r.len() as int;
    let l2 = spec_colon_prefix_len(s);
    if l1 < l2 {
        assert(s[l1] != ':');
        assert(false);
    }
    if l2 < l1 {
        assert(s[l2] != ':');
        assert(false);
    }
}

/// The part of a string before its first colon: the whole string when there
/// is none.
pub fn prefix_before_colon(s: &str) -> (r: String)
    ensures
        r@.len() <= s@.len(),
        r@ == s@.subrange(0, r@.len() as int),
        forall|k: int| 0 <= k < r@.len() ==> s@[k] != ':',
        r@.len() < s@.len() ==> s@[r@.len() as int] == ':',
{
    let len = s.unicode_len();
    let mut i: usize = 0;
    while i < len
        invariant_except_break
            i <= len,
            len == s@.len(),
            forall|k: int| 0 <= k < i ==> s@[k] != ':',
        ensures
            i <= len,
            len == s@.len(),
            forall|k: int| 0 <= k < i ==> s@[k] != ':',
            i < len ==> s@[i as int] == ':',
        decreases len - i,
    {
        if s.get_char(i) == ':' {
            break ;
        }
        i = i + 1;
    }
    let prefix = s.substring_char(0, i);
    prefix.to_owned()
}

/// `needle` occurs in the byte sequence `hay` at position `i`.
pub open spec fn spec_bytes_occur_at(hay: Seq<u8>, needle: Seq<u8>, i: int) -> bool {
    0 <= i && i + needle.len() <= hay.len() && hay.subrange(i, i + needle.len()) == needle
}

/// `needle` occurs somewhere in the byte sequence `hay`.
pub open spec fn spec_bytes_contain(hay: Seq<u8>, needle: Seq<u8>) -> bool {
    exists|i: int| spec_bytes_occur_at(hay, needle, i)
}

/// Whether `needle` occurs in `hay` starting exactly at `i`.
fn bytes_occur_at(hay: &[u8], needle: &[u8], i: usize) -> (r: bool)
    requires
        i + needle@.len() <= hay@.len(),
    ensures
        r == spec_bytes_occur_at(hay@, needle@, i as int),
{
    let hay_len = hay.len();
    let needle_len = needle.len();
    let mut j: usize = 0;
    while j < needle_len
        invariant
            j <= needle_len,
            hay_len == hay@.len(),
            needle_len == needle@.len(),
            i + needle_len <= hay_len,
            forall|t: int| 0 <= t < j ==> hay@[i + t] == needle@[t],
        decreases needle_len - j,
    {
        if hay[i + j] != needle[j] {
            assert(hay@.subrange(i as int, i + needle@.len())[j as int] != needle@[j as int]);
            return false;
        }
        j = j + 1;
    }
    assert(hay@.subrange(i as int, i + needle@.len()) =~= needle@);
    true
}

/// Byte-level substring search, as used to spot markers such as error text
/// in a response body.
pub fn bytes_contain(hay: &[u8], needle: &[u8]) -> (r: bool)
    ensures
        r == spec_bytes_contain(hay@, needle@),
{
    let hay_len = hay.len();
    let needle_len = needle.len();
    if needle_len > hay_len {
        assert(forall|i: int| !spec_bytes_occur_at(hay@, needle@, i));
        return false;
    }
    if needle_len == 0 {
        assert(hay@.subrange(0, 0) =~= needle@);
        assert(spec_bytes_occur_at(hay@, needle@, 0));
        return true;
    }
    let last = hay_len - needle_len;
    let mut i: usize = 0;
    while i <= last
        invariant
            hay_len == hay@.len(),
            needle_len == needle@.len(),
            0 < needle_len <= hay_len,
            last == hay_len - needle_len,
            i <= last + 1,
            forall|k: int| 0 <= k < i ==> !spec_bytes_occur_at(hay@, needle@, k),
        decreases last + 1 - i,
    {
        if bytes_occur_at(hay, needle, i) {
            return true;
        }
        i = i + 1;
    }
    assert(forall|k: int| i <= k ==> !spec_bytes_occur_at(hay@, needle@, k));
    false
}

} // verus!
