//! Character-level scanning primitives shared by all field parsers: finding a
//! delimiter, matching a literal tag (case-sensitive or ASCII-case-insensitive),
//! and trimming whitespace.

use vstd::prelude::*;
use vstd::string::StrSliceExecFns;

verus! {

/// Index of the first occurrence of `c` in `s` at or after `pos`,
/// or `s.len()` when there is none.
pub open spec fn find_from(s: Seq<char>, pos: int, c: char) -> int
    decreases s.len() - pos,
{
    if pos < 0 || pos >= s.len() {
        s.len() as int
    } else if s[pos] == c {
        pos
    } else {
        find_from(s, pos + 1, c)
    }
}

pub proof fn lemma_find_from(s: Seq<char>, pos: int, c: char)
    requires
        0 <= pos <= s.len(),
    ensures
        pos <= find_from(s, pos, c) <= s.len(),
        forall|j: int| pos <= j < find_from(s, pos, c) ==> s[j] != c,
        find_from(s, pos, c) < s.len() ==> s[find_from(s, pos, c)] == c,
    decreases s.len() - pos,
{
    if pos < s.len() && s[pos] != c {
        lemma_find_from(s, pos + 1, c);
    }
}

/// The characterization of `find_from` is unique: any index that is preceded
/// only by non-matches and either sits on a match or at the end is the result.
pub proof fn lemma_find_from_unique(s: Seq<char>, pos: int, c: char, i: int)
    requires
        0 <= pos <= i <= s.len(),
        forall|j: int| pos <= j < i ==> s[j] != c,
        i < s.len() ==> s[i] == c,
    ensures
        find_from(s, pos, c) == i,
    decreases i - pos,
{
    if pos < i {
        lemma_find_from_unique(s, pos + 1, c, i);
    }
}

/// The Unicode white-space characters, as the upstream reports may use them
/// between tokens.
pub open spec fn is_space_char(c: char) -> bool {
    ||| c == ' '
    ||| c == '\t'
    ||| c == '\n'
    ||| c == '\r'
    ||| c == '\u{b}'
    ||| c == '\u{c}'
    ||| c == '\u{85}'
    ||| c == '\u{a0}'
    ||| c == '\u{1680}'
    ||| ('\u{2000}' as u32 <= c as u32 && c as u32 <= '\u{200a}' as u32)
    ||| c == '\u{2028}'
    ||| c == '\u{2029}'
    ||| c == '\u{202f}'
    ||| c == '\u{205f}'
    ||| c == '\u{3000}'
}

pub fn is_space(c: char) -> (r: bool)
    ensures
        r == is_space_char(c),
{
    let cu = c as u32;
    c == ' ' || c == '\t' || c == '\n' || c == '\r' || c == '\u{b}' || c == '\u{c}'
        || c == '\u{85}' || c == '\u{a0}' || c == '\u{1680}' || ('\u{2000}' as u32 <= cu && cu
        <= '\u{200a}' as u32) || c == '\u{2028}' || c == '\u{2029}' || c == '\u{202f}' || c
        == '\u{205f}' || c == '\u{3000}'
}

/// Index of the first white-space character in `s` at or after `pos`,
/// or `s.len()` when there is none.
pub open spec fn find_space_from(s: Seq<char>, pos: int) -> int
    decreases s.len() - pos,
{
    if pos < 0 || pos >= s.len() {
        s.len() as int
    } else if is_space_char(s[pos]) {
        pos
    } else {
        find_space_from(s, pos + 1)
    }
}

pub proof fn lemma_find_space_from(s: Seq<char>, pos: int)
    requires
        0 <= pos <= s.len(),
    ensures
        pos <= find_space_from(s, pos) <= s.len(),
        forall|j: int| pos <= j < find_space_from(s, pos) ==> !is_space_char(s[j]),
        find_space_from(s, pos) < s.len() ==> is_space_char(s[find_space_from(s, pos)]),
    decreases s.len() - pos,
{
    if pos < s.len() && !is_space_char(s[pos]) {
        lemma_find_space_from(s, pos + 1);
    }
}

pub proof fn lemma_find_space_from_unique(s: Seq<char>, pos: int, i: int)
    requires
        0 <= pos <= i <= s.len(),
        forall|j: int| pos <= j < i ==> !is_space_char(s[j]),
        i < s.len() ==> is_space_char(s[i]),
    ensures
        find_space_from(s, pos) == i,
    decreases i - pos,
{
    if pos < i {
        lemma_find_space_from_unique(s, pos + 1, i);
    }
}

/// First index at or after `pos` holding a white-space character.
pub fn find_space_char_from(s: &str, pos: usize) -> (r: usize)
    requires
        pos <= s@.len(),
    ensures
        r == find_space_from(s@, pos as int),
{
    let n = s.unicode_len();
    let mut i = pos;
    while i < n
        invariant
            pos <= i <= n,
            n == s@.len(),
            forall|j: int| pos <= j < i ==> !is_space_char(s@[j]),
        decreases n - i,
    {
        if is_space(s.get_char(i)) {
            proof {
                lemma_find_space_from_unique(s@, pos as int, i as int);
            }
            return i;
        }
        i = i + 1;
    }
    proof {
        lemma_find_space_from_unique(s@, pos as int, n as int);
    }
    n
}

/// A blank in the narrow sense: the space or tab that may pad tokens within
/// a line (line breaks are significant and never padding).
pub open spec fn is_blank_char(c: char) -> bool {
    c == ' ' || c == '\t'
}

/// Index of the first character at or after `pos` that is not a space or a
/// tab, or `s.len()` when everything from `pos` on is blank.
pub open spec fn skip_blanks_from(s: Seq<char>, pos: int) -> int
    decreases s.len() - pos,
{
    if pos < 0 || pos >= s.len() {
        s.len() as int
    } else if !is_blank_char(s[pos]) {
        pos
    } else {
        skip_blanks_from(s, pos + 1)
    }
}

pub proof fn lemma_skip_blanks_from(s: Seq<char>, pos: int)
    requires
        0 <= pos <= s.len(),
    ensures
        pos <= skip_blanks_from(s, pos) <= s.len(),
        forall|j: int| pos <= j < skip_blanks_from(s, pos) ==> is_blank_char(s[j]),
        skip_blanks_from(s, pos) < s.len() ==> !is_blank_char(s[skip_blanks_from(s, pos)]),
    decreases s.len() - pos,
{
    if pos < s.len() && is_blank_char(s[pos]) {
        lemma_skip_blanks_from(s, pos + 1);
    }
}

pub proof fn lemma_skip_blanks_from_unique(s: Seq<char>, pos: int, i: int)
    requires
        0 <= pos <= i <= s.len(),
        forall|j: int| pos <= j < i ==> is_blank_char(s[j]),
        i < s.len() ==> !is_blank_char(s[i]),
    ensures
        skip_blanks_from(s, pos) == i,
    decreases i - pos,
{
    if pos < i {
        lemma_skip_blanks_from_unique(s, pos + 1, i);
    }
}

/// First index at or after `pos` holding neither a space nor a tab.
pub fn skip_blank_chars_from(s: &str, pos: usize) -> (r: usize)
    requires
        pos <= s@.len(),
    ensures
        r == skip_blanks_from(s@, pos as int),
{
    let n = s.unicode_len();
    let mut i = pos;
    while i < n
        invariant
            pos <= i <= n,
            n == s@.len(),
            forall|j: int| pos <= j < i ==> is_blank_char(s@[j]),
        decreases n - i,
    {
        let c = s.get_char(i);
        if !(c == ' ' || c == '\t') {
            proof {
                lemma_skip_blanks_from_unique(s@, pos as int, i as int);
            }
            return i;
        }
        i = i + 1;
    }
    proof {
        lemma_skip_blanks_from_unique(s@, pos as int, n as int);
    }
    n
}

/// `tag` occurs in `s` starting exactly at `pos`.
pub open spec fn match_at(s: Seq<char>, pos: int, tag: Seq<char>) -> bool {
    &&& 0 <= pos
    &&& pos + tag.len() <= s.len()
    &&& forall|j: int| 0 <= j < tag.len() ==> s[pos + j] == tag[j]
}

pub fn starts_with_at(s: &str, pos: usize, tag: &str) -> (r: bool)
    requires
        pos <= s@.len(),
    ensures
        r == match_at(s@, pos as int, tag@),
{
    let n = s.unicode_len();
    let m = tag.unicode_len();
    if m > n - pos {
        return false;
    }
    let mut j: usize = 0;
    while j < m
        invariant
            j <= m,
            pos + m <= n,
            n == s@.len(),
            m == tag@.len(),
            forall|k: int| 0 <= k < j ==> s@[pos + k] == tag@[k],
        decreases m - j,
    {
        if s.get_char(pos + j) != tag.get_char(j) {
            assert(s@[pos + j as int] != tag@[j as int]);
            return false;
        }
        j = j + 1;
    }
    true
}

pub open spec fn is_ascii_upper(c: char) -> bool {
    'A' as u32 <= c as u32 && c as u32 <= 'Z' as u32
}

/// Character equality up to ASCII letter case.
pub open spec fn chars_eq_nocase(a: char, b: char) -> bool {
    ||| a == b
    ||| (is_ascii_upper(a) && a as u32 + 32 == b as u32)
    ||| (is_ascii_upper(b) && b as u32 + 32 == a as u32)
}

pub fn char_eq_nocase(a: char, b: char) -> (r: bool)
    ensures
        r == chars_eq_nocase(a, b),
{
    let au = a as u32;
    let bu = b as u32;
    a == b || ('A' as u32 <= au && au <= 'Z' as u32 && au + 32 == bu) || ('A' as u32 <= bu && bu
        <= 'Z' as u32 && bu + 32 == au)
}

/// The two sequences are equal up to ASCII letter case.
pub open spec fn seq_eq_nocase(a: Seq<char>, b: Seq<char>) -> bool {
    &&& a.len() == b.len()
    &&& forall|j: int| 0 <= j < a.len() ==> chars_eq_nocase(a[j], b[j])
}

pub fn str_eq_nocase(a: &str, b: &str) -> (r: bool)
    ensures
        r == seq_eq_nocase(a@, b@),
{
    let n = a.unicode_len();
    if n != b.unicode_len() {
        return false;
    }
    let mut j: usize = 0;
    while j < n
        invariant
            j <= n,
            n == a@.len(),
            n == b@.len(),
            forall|k: int| 0 <= k < j ==> chars_eq_nocase(a@[k], b@[k]),
        decreases n - j,
    {
        if !char_eq_nocase(a.get_char(j), b.get_char(j)) {
            assert(!chars_eq_nocase(a@[j as int], b@[j as int]));
            return false;
        }
        j = j + 1;
    }
    true
}

/// Character-for-character string equality.
pub fn str_eq(a: &str, b: &str) -> (r: bool)
    ensures
        r == (a@ == b@),
{
    let n = a.unicode_len();
    if n != b.unicode_len() {
        return false;
    }
    let mut j: usize = 0;
    while j < n
        invariant
            j <= n,
            n == a@.len(),
            n == b@.len(),
            forall|k: int| 0 <= k < j ==> a@[k] == b@[k],
        decreases n - j,
    {
        if a.get_char(j) != b.get_char(j) {
            assert(a@[j as int] != b@[j as int]);
            return false;
        }
        j = j + 1;
    }
    proof {
        assert(a@ =~= b@);
    }
    true
}

/// Index of the first non-white-space character at or after `pos`,
/// or `s.len()` when everything from `pos` on is white space.
pub open spec fn first_non_space(s: Seq<char>, pos: int) -> int
    decreases s.len() - pos,
{
    if pos < 0 || pos >= s.len() {
        s.len() as int
    } else if !is_space_char(s[pos]) {
        pos
    } else {
        first_non_space(s, pos + 1)
    }
}

/// End (exclusive) of the last non-white-space character strictly before `e`,
/// or `0` when everything before `e` is white space.
pub open spec fn last_non_space_end(s: Seq<char>, e: int) -> int
    decreases e,
{
    if e <= 0 || e > s.len() {
        0
    } else if !is_space_char(s[e - 1]) {
        e
    } else {
        last_non_space_end(s, e - 1)
    }
}

/// `s` with leading and trailing white space removed.
pub open spec fn spec_trim(s: Seq<char>) -> Seq<char> {
    let a = first_non_space(s, 0);
    let b = last_non_space_end(s, s.len() as int);
    if a >= b {
        Seq::empty()
    } else {
        s.subrange(a, b)
    }
}

/// Copies `s` without its leading and trailing white space.
pub fn trim(s: &str) -> (r: String)
    ensures
        r@ == spec_trim(s@),
{
    let n = s.unicode_len();
    let mut a: usize = 0;
    while a < n && is_space(s.get_char(a))
        invariant
            a <= n,
            n == s@.len(),
            forall|j: int| 0 <= j < a ==> is_space_char(s@[j]),
        decreases n - a,
    {
        a = a + 1;
    }
    proof {
        lemma_first_non_space_unique(s@, 0, a as int);
    }
    if a == n {
        proof {
            lemma_last_non_space_end_unique(s@, n as int, 0);
        }
        return String::new();
    }
    let mut b: usize = n;
    while b > a && is_space(s.get_char(b - 1))
        invariant
            a <= b <= n,
            n == s@.len(),
            forall|j: int| b <= j < n ==> is_space_char(s@[j]),
        decreases b,
    {
        b = b - 1;
    }
    proof {
        assert(!is_space_char(s@[a as int]));
        lemma_last_non_space_end_unique(s@, n as int, b as int);
    }
    let piece = s.substring_char(a, b);
    piece.to_owned()
}

pub proof fn lemma_first_non_space_unique(s: Seq<char>, pos: int, i: int)
    requires
        0 <= pos <= i <= s.len(),
        forall|j: int| pos <= j < i ==> is_space_char(s[j]),
        i < s.len() ==> !is_space_char(s[i]),
    ensures
        first_non_space(s, pos) == i,
    decreases i - pos,
{
    if pos < i {
        lemma_first_non_space_unique(s, pos + 1, i);
    }
}

pub proof fn lemma_last_non_space_end_unique(s: Seq<char>, e: int, i: int)
    requires
        0 <= i <= e <= s.len(),
        forall|j: int| i <= j < e ==> is_space_char(s[j]),
        i > 0 ==> !is_space_char(s[i - 1]),
    ensures
        last_non_space_end(s, e) == i,
    decreases e - i,
{
    if i < e {
        lemma_last_non_space_end_unique(s, e - 1, i);
    }
}

// What follows are extension lemmas: appending text to the input does not
// disturb a scan that settled strictly inside it, and a scan that ran to the
// end settles at the same place when the first appended character would have
// stopped it.

pub proof fn lemma_find_from_extend(s: Seq<char>, t: Seq<char>, pos: int, c: char)
    requires
        0 <= pos <= s.len(),
    ensures
        find_from(s, pos, c) < s.len() ==> find_from(s + t, pos, c) == find_from(s, pos, c),
        find_from(s, pos, c) == s.len() && (t.len() == 0 || t[0] == c) ==> find_from(s + t, pos, c)
            == s.len(),
{
    lemma_find_from(s, pos, c);
    let r = find_from(s, pos, c);
    if r < s.len() {
        assert forall|j: int| pos <= j < r implies (s + t)[j] != c by {
            assert((s + t)[j] == s[j]);
        }
        assert((s + t)[r] == s[r]);
        lemma_find_from_unique(s + t, pos, c, r);
    } else if t.len() == 0 {
        assert(s + t =~= s);
    } else if t[0] == c {
        assert forall|j: int| pos <= j < r implies (s + t)[j] != c by {
            assert((s + t)[j] == s[j]);
        }
        assert((s + t)[s.len() as int] == t[0]);
        lemma_find_from_unique(s + t, pos, c, s.len() as int);
    }
}

pub proof fn lemma_find_space_from_extend(s: Seq<char>, t: Seq<char>, pos: int)
    requires
        0 <= pos <= s.len(),
    ensures
        find_space_from(s, pos) < s.len() ==> find_space_from(s + t, pos) == find_space_from(
            s,
            pos,
        ),
        find_space_from(s, pos) == s.len() && (t.len() == 0 || is_space_char(t[0]))
            ==> find_space_from(s + t, pos) == s.len(),
{
    lemma_find_space_from(s, pos);
    let r = find_space_from(s, pos);
    if r < s.len() {
        assert forall|j: int| pos <= j < r implies !is_space_char((s + t)[j]) by {
            assert((s + t)[j] == s[j]);
        }
        assert((s + t)[r] == s[r]);
        lemma_find_space_from_unique(s + t, pos, r);
    } else if t.len() == 0 {
        assert(s + t =~= s);
    } else if is_space_char(t[0]) {
        assert forall|j: int| pos <= j < r implies !is_space_char((s + t)[j]) by {
            assert((s + t)[j] == s[j]);
        }
        assert((s + t)[s.len() as int] == t[0]);
        lemma_find_space_from_unique(s + t, pos, s.len() as int);
    }
}

pub proof fn lemma_skip_blanks_from_extend(s: Seq<char>, t: Seq<char>, pos: int)
    requires
        0 <= pos <= s.len(),
    ensures
        skip_blanks_from(s, pos) < s.len() ==> skip_blanks_from(s + t, pos) == skip_blanks_from(
            s,
            pos,
        ),
        skip_blanks_from(s, pos) == s.len() && (t.len() == 0 || !is_blank_char(t[0]))
            ==> skip_blanks_from(s + t, pos) == s.len(),
{
    lemma_skip_blanks_from(s, pos);
    let r = skip_blanks_from(s, pos);
    if r < s.len() {
        assert forall|j: int| pos <= j < r implies is_blank_char((s + t)[j]) by {
            assert((s + t)[j] == s[j]);
        }
        assert((s + t)[r] == s[r]);
        lemma_skip_blanks_from_unique(s + t, pos, r);
    } else if t.len() == 0 {
        assert(s + t =~= s);
    } else if !is_blank_char(t[0]) {
        assert forall|j: int| pos <= j < r implies is_blank_char((s + t)[j]) by {
            assert((s + t)[j] == s[j]);
        }
        assert((s + t)[s.len() as int] == t[0]);
        lemma_skip_blanks_from_unique(s + t, pos, s.len() as int);
    }
}

/// A tag matched inside `s` still matches after appending.
pub proof fn lemma_match_at_extend(s: Seq<char>, t: Seq<char>, pos: int, tag: Seq<char>)
    requires
        match_at(s, pos, tag),
    ensures
        match_at(s + t, pos, tag),
{
    assert forall|j: int| 0 <= j < tag.len() implies (s + t)[pos + j] == tag[j] by {
        assert((s + t)[pos + j] == s[pos + j]);
    }
}

/// A tag refuted by a mismatching character inside `s` still mismatches
/// after appending.
pub proof fn lemma_match_at_neg_witness(s: Seq<char>, t: Seq<char>, pos: int, tag: Seq<char>, j: int)
    requires
        0 <= pos,
        0 <= j < tag.len(),
        pos + j < s.len(),
        s[pos + j] != tag[j],
    ensures
        !match_at(s + t, pos, tag),
{
    assert((s + t)[pos + j] == s[pos + j]);
}

/// A piece cut from inside `s` is unchanged by appending.
pub proof fn lemma_subrange_extend(s: Seq<char>, t: Seq<char>, a: int, b: int)
    requires
        0 <= a <= b <= s.len(),
    ensures
        (s + t).subrange(a, b) == s.subrange(a, b),
{
    assert((s + t).subrange(a, b) =~= s.subrange(a, b));
}

/// First index at or after `pos` with `s[pos] == c`, found by a linear scan.
pub fn find_char_from(s: &str, pos: usize, c: char) -> (r: usize)
    requires
        pos <= s@.len(),
    ensures
        r == find_from(s@, pos as int, c),
{
    let n = s.unicode_len();
    let mut i = pos;
    while i < n
        invariant
            pos <= i <= n,
            n == s@.len(),
            forall|j: int| pos <= j < i ==> s@[j] != c,
        decreases n - i,
    {
        if s.get_char(i) == c {
            proof {
                lemma_find_from_unique(s@, pos as int, c, i as int);
            }
            return i;
        }
        i = i + 1;
    }
    proof {
        lemma_find_from_unique(s@, pos as int, c, n as int);
    }
    n
}

} // verus!
