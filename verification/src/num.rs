//! Decimal text: rendering integers for outbound commands, and parsing the
//! numeric fields of inbound report lines.

use vstd::prelude::*;

verus! {

pub open spec fn is_digit(c: char) -> bool {
    48 <= c as int <= 57
}

pub open spec fn digit_val(c: char) -> int {
    c as int - 48
}

pub open spec fn digit_chr(d: int) -> char {
    if d == 0 {
        '0'
    } else if d == 1 {
        '1'
    } else if d == 2 {
        '2'
    } else if d == 3 {
        '3'
    } else if d == 4 {
        '4'
    } else if d == 5 {
        '5'
    } else if d == 6 {
        '6'
    } else if d == 7 {
        '7'
    } else if d == 8 {
        '8'
    } else {
        '9'
    }
}

pub open spec fn all_digits(s: Seq<char>) -> bool {
    forall|i: int| 0 <= i < s.len() ==> is_digit(#[trigger] s[i])
}

/// Value of a digit string, most significant digit first.
pub open spec fn digits_val(s: Seq<char>) -> int
    decreases s.len(),
{
    if s.len() == 0 {
        0
    } else {
        digits_val(s.drop_last()) * 10 + digit_val(s.last())
    }
}

/// Canonical decimal representation of a natural number.
pub open spec fn dec_rep(n: nat) -> Seq<char>
    decreases n,
{
    if n < 10 {
        seq![digit_chr(n as int)]
    } else {
        dec_rep(n / 10) + seq![digit_chr((n % 10) as int)]
    }
}

/// Decimal representation of an integer, with a sign for negatives.
pub open spec fn dec_rep_signed(v: int) -> Seq<char> {
    if v < 0 {
        seq!['-'] + dec_rep((-v) as nat)
    } else {
        dec_rep(v as nat)
    }
}

fn digit_str(d: u64) -> (r: &'static str)
    requires
        d < 10,
    ensures
        r@ =~= seq![digit_chr(d as int)],
{
    proof {
        reveal_strlit("0");
        reveal_strlit("1");
        reveal_strlit("2");
        reveal_strlit("3");
        reveal_strlit("4");
        reveal_strlit("5");
        reveal_strlit("6");
        reveal_strlit("7");
        reveal_strlit("8");
        reveal_strlit("9");
    }
    if d == 0 {
        "0"
    } else if d == 1 {
        "1"
    } else if d == 2 {
        "2"
    } else if d == 3 {
        "3"
    } else if d == 4 {
        "4"
    } else if d == 5 {
        "5"
    } else if d == 6 {
        "6"
    } else if d == 7 {
        "7"
    } else if d == 8 {
        "8"
    } else {
        "9"
    }
}

/// Render a number the way the engine expects it in commands.
pub fn u64_dec(n: u64) -> (r: String)
    ensures
        r@ == dec_rep(n as nat),
    decreases n,
{
    if n < 10 {
        String::from_str(digit_str(n))
    } else {
        let q = u64_dec(n / 10);
        q.concat(digit_str(n % 10))
    }
}

/// Render a possibly negative number (the skill-level option).
pub fn i32_dec(v: i32) -> (r: String)
    ensures
        r@ == dec_rep_signed(v as int),
{
    if v >= 0 {
        u64_dec(v as u64)
    } else {
        let m = -(v as i64);
        let s = String::from_str("-");
        proof {
            reveal_strlit("-");
            assert("-"@ =~= seq!['-']);
        }
        let r = s.concat(u64_dec(m as u64).as_str());
        r
    }
}

/// What parsing an unsigned decimal field accepts: an optional leading
/// plus sign, then at least one digit, and a value within `max`.
pub open spec fn strip_plus(s: Seq<char>) -> Seq<char> {
    if s.len() > 0 && s[0] == '+' {
        s.subrange(1, s.len() as int)
    } else {
        s
    }
}

pub open spec fn spec_parse_u64(s: Seq<char>) -> Option<u64> {
    let d = strip_plus(s);
    if d.len() > 0 && all_digits(d) && digits_val(d) <= u64::MAX {
        Some(digits_val(d) as u64)
    } else {
        None
    }
}

pub open spec fn spec_parse_u32(s: Seq<char>) -> Option<u32> {
    let d = strip_plus(s);
    if d.len() > 0 && all_digits(d) && digits_val(d) <= u32::MAX {
        Some(digits_val(d) as u32)
    } else {
        None
    }
}

/// Parsing of the line-index field, which must be a positive integer that
/// fits in one byte.
pub open spec fn spec_parse_nzu8(s: Seq<char>) -> Option<u8> {
    let d = strip_plus(s);
    if d.len() > 0 && all_digits(d) && 1 <= digits_val(d) <= u8::MAX {
        Some(digits_val(d) as u8)
    } else {
        None
    }
}

pub open spec fn spec_parse_i32(s: Seq<char>) -> Option<i32> {
    if s.len() > 0 && s[0] == '-' {
        let d = s.subrange(1, s.len() as int);
        if d.len() > 0 && all_digits(d) && digits_val(d) <= 0x8000_0000 {
            Some((-digits_val(d)) as i32)
        } else {
            None
        }
    } else {
        let d = strip_plus(s);
        if d.len() > 0 && all_digits(d) && digits_val(d) <= i32::MAX {
            Some(digits_val(d) as i32)
        } else {
            None
        }
    }
}

proof fn lemma_digits_val_nonneg(s: Seq<char>)
    requires
        all_digits(s),
    ensures
        digits_val(s) >= 0,
    decreases s.len(),
{
    if s.len() > 0 {
        assert(all_digits(s.drop_last()));
        lemma_digits_val_nonneg(s.drop_last());
    }
}

proof fn lemma_digits_val_step(s: Seq<char>, i: int)
    requires
        0 <= i < s.len(),
    ensures
        digits_val(s.subrange(0, i + 1)) == digits_val(s.subrange(0, i)) * 10 + digit_val(s[i]),
{
    assert(s.subrange(0, i + 1).drop_last() =~= s.subrange(0, i));
    assert(s.subrange(0, i + 1).last() == s[i]);
}

proof fn lemma_digits_val_mono(s: Seq<char>, i: int, j: int)
    requires
        all_digits(s),
        0 <= i <= j <= s.len(),
    ensures
        digits_val(s.subrange(0, j)) >= digits_val(s.subrange(0, i)),
    decreases j - i,
{
    if i < j {
        lemma_digits_val_mono(s, i, j - 1);
        lemma_digits_val_step(s, j - 1);
        assert(all_digits(s.subrange(0, j - 1)));
        lemma_digits_val_nonneg(s.subrange(0, j - 1));
        assert(digits_val(s.subrange(0, j - 1)) * 10 >= digits_val(s.subrange(0, j - 1))) by (
        nonlinear_arith)
            requires
                digits_val(s.subrange(0, j - 1)) >= 0,
        ;
    }
}

/// Parse the digits of `s` from position `start` to the end as an
/// unsigned value; every remaining character must be a digit and the
/// value must fit.
fn parse_digits(s: &str, start: usize) -> (r: Option<u64>)
    requires
        start <= s@.len(),
    ensures
        ({
            let d = s@.subrange(start as int, s@.len() as int);
            match r {
                Some(v) => d.len() > 0 && all_digits(d) && digits_val(d) == v,
                None => !(d.len() > 0 && all_digits(d) && digits_val(d) <= u64::MAX),
            }
        }),
{
    let ghost d = s@.subrange(start as int, s@.len() as int);
    let n = s.unicode_len();
    if start == n {
        return None;
    }
    let mut acc: u64 = 0;
    let mut i = start;
    while i < n
        invariant
            start <= i <= n,
            n == s@.len(),
            d == s@.subrange(start as int, s@.len() as int),
            all_digits(d.subrange(0, i - start)),
            acc == digits_val(d.subrange(0, i - start)),
        decreases n - i,
    {
        let c = s.get_char(i);
        let u = c as u32;
        if u < 48 || u > 57 {
            proof {
                assert(d[i - start] == s@[i as int]);
                assert(!is_digit(d[i - start]));
            }
            return None;
        }
        let v = (u - 48) as u64;
        proof {
            lemma_digits_val_step(d, i - start);
            assert(d.subrange(0, i - start + 1).drop_last() =~= d.subrange(0, i - start));
        }
        if acc > (u64::MAX - v) / 10 {
            proof {
                assert(digits_val(d.subrange(0, i - start + 1)) > u64::MAX);
                assert(all_digits(d.subrange(0, i - start + 1))) by {
                    assert(d[i - start] == s@[i as int]);
                }
                if all_digits(d) {
                    lemma_digits_val_mono(d, i - start + 1, d.len() as int);
                    assert(d.subrange(0, d.len() as int) =~= d);
                }
            }
            return None;
        }
        acc = acc * 10 + v;
        proof {
            assert(d[i - start] == s@[i as int]);
        }
        i = i + 1;
    }
    proof {
        assert(d.subrange(0, d.len() as int) =~= d);
    }
    Some(acc)
}

pub fn parse_u64(s: &str) -> (r: Option<u64>)
    ensures
        r == spec_parse_u64(s@),
{
    let n = s.unicode_len();
    let start: usize = if n > 0 && s.get_char(0) == '+' {
        1
    } else {
        0
    };
    proof {
        assert(strip_plus(s@) =~= s@.subrange(start as int, s@.len() as int));
    }
    parse_digits(s, start)
}

pub fn parse_u32(s: &str) -> (r: Option<u32>)
    ensures
        r == spec_parse_u32(s@),
{
    proof {
        let d = strip_plus(s@);
        if d.len() > 0 && all_digits(d) {
            lemma_digits_val_nonneg(d);
        }
    }
    match parse_u64(s) {
        Some(v) => if v <= u32::MAX as u64 {
            Some(v as u32)
        } else {
            None
        },
        None => None,
    }
}

pub fn parse_nzu8(s: &str) -> (r: Option<u8>)
    ensures
        r == spec_parse_nzu8(s@),
{
    proof {
        let d = strip_plus(s@);
        if d.len() > 0 && all_digits(d) {
            lemma_digits_val_nonneg(d);
        }
    }
    match parse_u64(s) {
        Some(v) => if 1 <= v && v <= u8::MAX as u64 {
            Some(v as u8)
        } else {
            None
        },
        None => None,
    }
}

pub fn parse_i32(s: &str) -> (r: Option<i32>)
    ensures
        r == spec_parse_i32(s@),
{
    let n = s.unicode_len();
    if n > 0 && s.get_char(0) == '-' {
        proof {
            let d = s@.subrange(1, s@.len() as int);
            if d.len() > 0 && all_digits(d) {
                lemma_digits_val_nonneg(d);
            }
        }
        match parse_digits(s, 1) {
            Some(v) => if v <= 0x8000_0000u64 {
                Some((-(v as i64)) as i32)
            } else {
                None
            },
            None => {
                proof {
                    let d = s@.subrange(1, s@.len() as int);
                    if d.len() > 0 && all_digits(d) && digits_val(d) <= 0x8000_0000 {
                        lemma_digits_val_nonneg(d);
                    }
                }
                None
            },
        }
    } else {
        proof {
            let d = strip_plus(s@);
            if d.len() > 0 && all_digits(d) {
                lemma_digits_val_nonneg(d);
            }
        }
        match parse_u64(s) {
            Some(v) => if v <= i32::MAX as u64 {
                Some(v as i32)
            } else {
                None
            },
            None => None,
        }
    }
}

} // verus!
