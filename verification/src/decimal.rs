//! Decimal text for integers: rendering (as `Display` for integers writes
//! them) and parsing (as `str::parse` reads them).

use vstd::prelude::*;

verus! {

/// The ASCII character of the decimal digit `d` (`0 <= d < 10`).
pub open spec fn digit_char(d: nat) -> char {
    ((d + 48) as u8) as char
}

/// The decimal digits of `n`, most significant first, without leading zeros
/// (a single `0` for zero).
pub open spec fn digits(n: nat) -> Seq<char>
    decreases n,
{
    if n < 10 {
        seq![digit_char(n)]
    } else {
        digits(n / 10).push(digit_char(n % 10))
    }
}

/// The decimal text of `i`: its digits, behind a `-` when negative.
pub open spec fn int_text(i: int) -> Seq<char> {
    if i < 0 {
        seq!['-'] + digits((-i) as nat)
    } else {
        digits(i as nat)
    }
}

/// Is `c` an ASCII decimal digit?
pub open spec fn is_digit(c: char) -> bool {
    '0' <= c && c <= '9'
}

/// The value of the ASCII digit `c`.
pub open spec fn digit_value(c: char) -> nat {
    ((c as u32) - 48) as nat
}

/// The value of a string of decimal digits, or `None` when some character
/// is not a digit; the empty string has value zero.
pub open spec fn digits_value(s: Seq<char>) -> Option<nat>
    decreases s.len(),
{
    if s.len() == 0 {
        Some(0)
    } else {
        match digits_value(s.drop_last()) {
            Some(v) => if is_digit(s.last()) {
                Some(v * 10 + digit_value(s.last()))
            } else {
                None
            },
            None => None,
        }
    }
}

/// The integer that `str::parse` reads from `s` for an integer type with the
/// range `min..=max`: an optional `+` sign (or `-` when `signed`) followed by
/// at least one decimal digit and nothing else, whose value lies in range.
pub open spec fn parse_int(s: Seq<char>, signed: bool, min: int, max: int) -> Option<int> {
    if s.len() == 0 {
        None
    } else if (s[0] == '+' || s[0] == '-') && s.len() == 1 {
        None
    } else {
        let (negative, body) = if s[0] == '+' {
            (false, s.drop_first())
        } else if s[0] == '-' && signed {
            (true, s.drop_first())
        } else {
            (false, s)
        };
        match digits_value(body) {
            Some(v) => {
                let i: int = if negative { -v } else { v as int };
                if min <= i <= max {
                    Some(i)
                } else {
                    None
                }
            },
            None => None,
        }
    }
}

/// Appends the decimal digits of `n` to `out`.
fn push_digits(n: u64, out: &mut Vec<char>)
    ensures
        final(out)@ == old(out)@ + digits(n as nat),
    decreases n,
{
    if n >= 10 {
        push_digits(n / 10, out);
    }
    let d: u8 = (n % 10) as u8;
    let c = (d + 48) as char;
    out.push(c);
    proof {
        if n >= 10 {
            assert(digits(n as nat) == digits((n / 10) as nat).push(digit_char((n % 10) as nat)));
        }
    }
}

/// The decimal digits of `n`.
pub fn u64_text(n: u64) -> (r: Vec<char>)
    ensures
        r@ == digits(n as nat),
{
    let mut out: Vec<char> = Vec::new();
    push_digits(n, &mut out);
    assert(out@ =~= digits(n as nat));
    out
}

/// The decimal text of `i`, as `Display` writes an `i64`.
pub fn i64_text(i: i64) -> (r: Vec<char>)
    ensures
        r@ == int_text(i as int),
{
    let mut out: Vec<char> = Vec::new();
    let mag: u64 = if i < 0 {
        out.push('-');
        ((-(i as i128)) as u64)
    } else {
        i as u64
    };
    push_digits(mag, &mut out);
    assert(out@ =~= int_text(i as int));
    out
}

/// The value of the digits `v[from..]`, when it is at most `u64::MAX`; `None`
/// when a character is not a digit or the value is larger.
fn digits_in_u64(v: &Vec<char>, from: usize) -> (r: Option<u64>)
    requires
        from <= v.len(),
    ensures
        match r {
            Some(x) => digits_value(v@.subrange(from as int, v.len() as int)) == Some(x as nat),
            None => match digits_value(v@.subrange(from as int, v.len() as int)) {
                Some(x) => x > u64::MAX,
                None => true,
            },
        },
{
    let mut acc: u64 = 0;
    let mut i = from;
    assert(v@.subrange(from as int, from as int) =~= Seq::<char>::empty());
    while i < v.len()
        invariant
            from <= i <= v.len(),
            digits_value(v@.subrange(from as int, i as int)) == Some(acc as nat),
        decreases v.len() - i,
    {
        let c = v[i];
        let ghost pre = v@.subrange(from as int, i as int);
        let ghost next = v@.subrange(from as int, i + 1);
        assert(next.drop_last() =~= pre);
        if !('0' <= c && c <= '9') {
            proof {
                lemma_digits_none_extends(v@, from as int, i as int + 1);
            }
            return None;
        }
        let d: u64 = (c as u32 - 48) as u64;
        match acc.checked_mul(10) {
            Some(m) => match m.checked_add(d) {
                Some(a) => {
                    acc = a;
                },
                None => {
                    proof {
                        lemma_digits_big_extends(v@, from as int, i as int + 1);
                    }
                    return None;
                },
            },
            None => {
                proof {
                    lemma_digits_big_extends(v@, from as int, i as int + 1);
                }
                return None;
            },
        }
        i = i + 1;
    }
    Some(acc)
}

proof fn lemma_digits_none_extends(s: Seq<char>, from: int, j: int)
    requires
        0 <= from <= j <= s.len(),
        digits_value(s.subrange(from, j)) is None,
    ensures
        digits_value(s.subrange(from, s.len() as int)) is None,
    decreases s.len() - j,
{
    if j < s.len() {
        assert(s.subrange(from, j + 1).drop_last() =~= s.subrange(from, j));
        lemma_digits_none_extends(s, from, j + 1);
    }
}

proof fn lemma_digits_big_extends(s: Seq<char>, from: int, j: int)
    requires
        0 <= from <= j <= s.len(),
        match digits_value(s.subrange(from, j)) {
            Some(x) => x > u64::MAX,
            None => true,
        },
    ensures
        match digits_value(s.subrange(from, s.len() as int)) {
            Some(x) => x > u64::MAX,
            None => true,
        },
    decreases s.len() - j,
{
    if j < s.len() {
        assert(s.subrange(from, j + 1).drop_last() =~= s.subrange(from, j));
        lemma_digits_big_extends(s, from, j + 1);
    }
}

/// Reads an integer in the range `min..=max` as `str::parse` does for an
/// integer type with that range (`signed` when it has negative values).
fn parse_in_range(s: &str, signed: bool, min: i128, max: i128) -> (r: Option<i128>)
    requires
        -0x8000_0000_0000_0000 <= min <= 0 <= max <= 0xffff_ffff_ffff_ffff,
    ensures
        match r {
            Some(x) => parse_int(s@, signed, min as int, max as int) == Some(x as int),
            None => parse_int(s@, signed, min as int, max as int) is None,
        },
{
    let v = crate::text::chars_of(s);
    if v.len() == 0 {
        return None;
    }
    if (v[0] == '+' || v[0] == '-') && v.len() == 1 {
        return None;
    }
    let (negative, from): (bool, usize) = if v[0] == '+' {
        (false, 1)
    } else if v[0] == '-' && signed {
        (true, 1)
    } else {
        (false, 0)
    };
    assert(from == 1 ==> v@.subrange(1, v@.len() as int) =~= s@.drop_first());
    assert(v@.subrange(0, v@.len() as int) =~= s@);
    match digits_in_u64(&v, from) {
        Some(m) => {
            let i: i128 = if negative { -(m as i128) } else { m as i128 };
            if min <= i && i <= max {
                Some(i)
            } else {
                None
            }
        },
        None => None,
    }
}

/// Reads a `usize` as `str::parse::<usize>` does.
pub fn parse_usize(s: &str) -> (r: Option<usize>)
    ensures
        match r {
            Some(x) => parse_int(s@, false, 0, usize::MAX as int) == Some(x as int),
            None => parse_int(s@, false, 0, usize::MAX as int) is None,
        },
{
    match parse_in_range(s, false, 0, usize::MAX as i128) {
        Some(x) => Some(x as usize),
        None => None,
    }
}

/// Reads a `u8` as `str::parse::<u8>` does.
pub fn parse_u8(s: &str) -> (r: Option<u8>)
    ensures
        match r {
            Some(x) => parse_int(s@, false, 0, u8::MAX as int) == Some(x as int),
            None => parse_int(s@, false, 0, u8::MAX as int) is None,
        },
{
    match parse_in_range(s, false, 0, u8::MAX as i128) {
        Some(x) => Some(x as u8),
        None => None,
    }
}

/// Reads an `i32` as `str::parse::<i32>` does.
pub fn parse_i32(s: &str) -> (r: Option<i32>)
    ensures
        match r {
            Some(x) => parse_int(s@, true, i32::MIN as int, i32::MAX as int) == Some(x as int),
            None => parse_int(s@, true, i32::MIN as int, i32::MAX as int) is None,
        },
{
    match parse_in_range(s, true, i32::MIN as i128, i32::MAX as i128) {
        Some(x) => Some(x as i32),
        None => None,
    }
}

/// Reads an `i64` as `str::parse::<i64>` does.
pub fn parse_i64(s: &str) -> (r: Option<i64>)
    ensures
        match r {
            Some(x) => parse_int(s@, true, i64::MIN as int, i64::MAX as int) == Some(x as int),
            None => parse_int(s@, true, i64::MIN as int, i64::MAX as int) is None,
        },
{
    match parse_in_range(s, true, i64::MIN as i128, i64::MAX as i128) {
        Some(x) => Some(x as i64),
        None => None,
    }
}

} // verus!
