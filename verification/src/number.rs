//! Locale-free numeric tokens: unsigned digit runs and signed decimal numbers
//! of the shape `-?digits(.digits)?`, as the bulletin prints them.

use vstd::prelude::*;
use vstd::string::StrSliceExecFns;
use crate::text::find_from;
use crate::text::find_char_from;

verus! {

pub open spec fn is_digit(c: char) -> bool {
    '0' as u32 <= c as u32 && c as u32 <= '9' as u32
}

pub open spec fn digit_val(c: char) -> int {
    c as u32 - '0' as u32
}

pub open spec fn all_digits(s: Seq<char>) -> bool {
    forall|j: int| 0 <= j < s.len() ==> is_digit(s[j])
}

/// Numeric value of a digit run, most significant digit first.
pub open spec fn digits_val(s: Seq<char>) -> int
    decreases s.len(),
{
    if s.len() == 0 {
        0
    } else {
        digits_val(s.drop_last()) * 10 + digit_val(s.last())
    }
}

pub proof fn lemma_digits_val_nonneg(s: Seq<char>)
    requires
        all_digits(s),
    ensures
        digits_val(s) >= 0,
    decreases s.len(),
{
    if s.len() > 0 {
        assert(all_digits(s.drop_last()));
        assert(is_digit(s.last()));
        lemma_digits_val_nonneg(s.drop_last());
    }
}

/// A digit run is worth at least any of its prefixes.
pub proof fn lemma_digits_val_prefix_grows(s: Seq<char>, k: int)
    requires
        all_digits(s),
        0 <= k <= s.len(),
    ensures
        digits_val(s.subrange(0, k)) <= digits_val(s),
    decreases s.len() - k,
{
    if k == s.len() {
        assert(s.subrange(0, k) =~= s);
    } else {
        let t = s.subrange(0, k + 1);
        assert(t.drop_last() =~= s.subrange(0, k));
        assert(t.last() == s[k]);
        assert(all_digits(s.subrange(0, k)));
        lemma_digits_val_nonneg(s.subrange(0, k));
        assert(is_digit(s[k]));
        lemma_digits_val_prefix_grows(s, k + 1);
    }
}

/// The token is a non-empty digit run whose value is at most `max`.
pub open spec fn digits_fit(tok: Seq<char>, max: int) -> bool {
    tok.len() > 0 && all_digits(tok) && digits_val(tok) <= max
}

/// Value of the digit run `s[from..to)`: `None` when the range is empty,
/// holds a non-digit, or its value exceeds `u32::MAX`.
pub fn parse_u32_digits(s: &str, from: usize, to: usize) -> (r: Option<u32>)
    requires
        from <= to <= s@.len(),
    ensures
        ({
            let tok = s@.subrange(from as int, to as int);
            match r {
                Some(v) => from < to && all_digits(tok) && digits_val(tok) <= u32::MAX && v
                    == digits_val(tok),
                None => !(from < to && all_digits(tok) && digits_val(tok) <= u32::MAX),
            }
        }),
{
    let ghost tok = s@.subrange(from as int, to as int);
    if from == to {
        return None;
    }
    let mut acc: u64 = 0;
    let mut i = from;
    while i < to
        invariant
            from <= i <= to,
            to <= s@.len(),
            tok == s@.subrange(from as int, to as int),
            all_digits(s@.subrange(from as int, i as int)),
            acc == digits_val(s@.subrange(from as int, i as int)),
            acc <= u32::MAX,
        decreases to - i,
    {
        let c = s.get_char(i);
        let cu = c as u32;
        if cu < '0' as u32 || cu > '9' as u32 {
            assert(!is_digit(s@[i as int]));
            assert(tok[i as int - from as int] == s@[i as int]);
            assert(!all_digits(tok));
            return None;
        }
        let d: u64 = (cu - '0' as u32) as u64;
        proof {
            let prev = s@.subrange(from as int, i as int);
            let cur = s@.subrange(from as int, i as int + 1);
            assert(cur.drop_last() =~= prev);
            assert(cur.last() == s@[i as int]);
            assert(is_digit(s@[i as int]));
            assert(all_digits(cur));
            assert(digits_val(cur) == digits_val(prev) * 10 + digit_val(s@[i as int]));
        }
        let next: u64 = acc * 10 + d;
        if next > u32::MAX as u64 {
            proof {
                if all_digits(tok) && digits_val(tok) <= u32::MAX {
                    let k = i + 1 - from;
                    assert(tok.subrange(0, k as int) =~= s@.subrange(from as int, i as int + 1));
                    lemma_digits_val_prefix_grows(tok, k as int);
                    assert(false);
                }
            }
            return None;
        }
        acc = next;
        i = i + 1;
    }
    proof {
        assert(tok =~= s@.subrange(from as int, i as int));
    }
    Some(acc as u32)
}

/// Like `parse_u32_digits`, bounded by `u16::MAX`.
pub fn parse_u16_digits(s: &str, from: usize, to: usize) -> (r: Option<u16>)
    requires
        from <= to <= s@.len(),
    ensures
        ({
            let tok = s@.subrange(from as int, to as int);
            match r {
                Some(v) => from < to && all_digits(tok) && digits_val(tok) <= u16::MAX && v
                    == digits_val(tok),
                None => !(from < to && all_digits(tok) && digits_val(tok) <= u16::MAX),
            }
        }),
{
    match parse_u32_digits(s, from, to) {
        Some(v) => if v <= u16::MAX as u32 {
            Some(v as u16)
        } else {
            None
        },
        None => None,
    }
}

/// Like `parse_u32_digits`, bounded by `u8::MAX`.
pub fn parse_u8_digits(s: &str, from: usize, to: usize) -> (r: Option<u8>)
    requires
        from <= to <= s@.len(),
    ensures
        ({
            let tok = s@.subrange(from as int, to as int);
            match r {
                Some(v) => from < to && all_digits(tok) && digits_val(tok) <= u8::MAX && v
                    == digits_val(tok),
                None => !(from < to && all_digits(tok) && digits_val(tok) <= u8::MAX),
            }
        }),
{
    match parse_u32_digits(s, from, to) {
        Some(v) => if v <= u8::MAX as u32 {
            Some(v as u8)
        } else {
            None
        },
        None => None,
    }
}

/// Like `parse_u32_digits`, bounded by `i16::MAX`; the bulletin's pressure
/// field is a small non-negative integer.
pub fn parse_i16_digits(s: &str, from: usize, to: usize) -> (r: Option<i16>)
    requires
        from <= to <= s@.len(),
    ensures
        ({
            let tok = s@.subrange(from as int, to as int);
            match r {
                Some(v) => from < to && all_digits(tok) && digits_val(tok) <= i16::MAX && v
                    == digits_val(tok),
                None => !(from < to && all_digits(tok) && digits_val(tok) <= i16::MAX),
            }
        }),
{
    match parse_u32_digits(s, from, to) {
        Some(v) => if v <= i16::MAX as u32 {
            Some(v as i16)
        } else {
            None
        },
        None => None,
    }
}

/// A decimal number exactly as the bulletin spells it: an optional minus sign,
/// a whole part, and an optional fractional digit run whose leading zeros are
/// preserved by keeping its digit count.
#[derive(Clone, Copy, Debug, PartialEq, Eq, Structural)]
pub struct Decimal {
    pub neg: bool,
    pub whole: u32,
    pub frac: u32,
    pub frac_digits: u8,
}

impl Decimal {
    /// The decimal spelling of a plain unsigned integer.
    pub open spec fn spec_whole(w: u32) -> Decimal {
        Decimal { neg: false, whole: w, frac: 0, frac_digits: 0 }
    }

    /// Builds the decimal that a plain unsigned integer token parses to.
    pub fn from_whole(w: u32) -> (r: Decimal)
        ensures
            r == Decimal::spec_whole(w),
    {
        Decimal { neg: false, whole: w, frac: 0, frac_digits: 0 }
    }
}

/// The decimal number a token denotes: `None` when the token is not of the
/// shape `-?digits(.digits)?` or a part does not fit the field widths.
pub open spec fn spec_decimal(tok: Seq<char>) -> Option<Decimal> {
    let neg = tok.len() > 0 && tok[0] == '-';
    let body = if neg {
        tok.skip(1)
    } else {
        tok
    };
    let dot = find_from(body, 0, '.');
    if dot == body.len() {
        if body.len() > 0 && all_digits(body) && digits_val(body) <= u32::MAX {
            Some(
                Decimal {
                    neg,
                    whole: digits_val(body) as u32,
                    frac: 0,
                    frac_digits: 0,
                },
            )
        } else {
            None
        }
    } else {
        let w = body.subrange(0, dot);
        let f = body.subrange(dot + 1, body.len() as int);
        if w.len() > 0 && f.len() > 0 && all_digits(w) && all_digits(f) && digits_val(w)
            <= u32::MAX && digits_val(f) <= u32::MAX && f.len() <= u8::MAX {
            Some(
                Decimal {
                    neg,
                    whole: digits_val(w) as u32,
                    frac: digits_val(f) as u32,
                    frac_digits: f.len() as u8,
                },
            )
        } else {
            None
        }
    }
}

/// Parses the token `s[from..to)` as a decimal number.
pub fn parse_decimal(s: &str, from: usize, to: usize) -> (r: Option<Decimal>)
    requires
        from <= to <= s@.len(),
    ensures
        r == spec_decimal(s@.subrange(from as int, to as int)),
{
    let ghost tok = s@.subrange(from as int, to as int);
    let neg = from < to && s.get_char(from) == '-';
    let bstart = if neg {
        from + 1
    } else {
        from
    };
    let body = s.substring_char(bstart, to);
    proof {
        if neg {
            assert(tok.skip(1) =~= s@.subrange(bstart as int, to as int));
        }
        assert(body@ == if neg {
            tok.skip(1)
        } else {
            tok
        });
    }
    let blen = body.unicode_len();
    let dot = find_char_from(body, 0, '.');
    proof {
        crate::text::lemma_find_from(body@, 0, '.');
        assert(body@.subrange(0, blen as int) =~= body@);
    }
    if dot == blen {
        match parse_u32_digits(body, 0, blen) {
            Some(v) => {
                proof {
                    lemma_digits_val_nonneg(body@);
                }
                Some(Decimal { neg, whole: v, frac: 0, frac_digits: 0 })
            },
            None => None,
        }
    } else {
        let whole = match parse_u32_digits(body, 0, dot) {
            Some(v) => v,
            None => {
                return None;
            },
        };
        let frac = match parse_u32_digits(body, dot + 1, blen) {
            Some(v) => v,
            None => {
                return None;
            },
        };
        let fd = blen - (dot + 1);
        if fd > u8::MAX as usize {
            return None;
        }
        proof {
            lemma_digits_val_nonneg(body@.subrange(0, dot as int));
            lemma_digits_val_nonneg(body@.subrange(dot as int + 1, blen as int));
        }
        Some(Decimal { neg, whole, frac, frac_digits: fd as u8 })
    }
}

} // verus!
