//! Decimal text: rendering unsigned integers as digit strings (plain and
//! zero-padded) and parsing signed 32-bit integers from digit strings.
use vstd::prelude::*;

verus! {

/// The character for one decimal digit value.
pub open spec fn digit_char(d: int) -> char {
    if d == 0 {
        '0'
    } else if d == 1 {
        '1'
    } else if d == 2 {
        '2'
    } else if d == 3 {
        '3'
    } else if d == 4 {
        '4'
    } else if d == 5 {
        '5'
    } else if d == 6 {
        '6'
    } else if d == 7 {
        '7'
    } else if d == 8 {
        '8'
    } else {
        '9'
    }
}

pub open spec fn is_digit_char(c: char) -> bool {
    '0' as int <= c as int && c as int <= '9' as int
}

pub open spec fn digit_val(c: char) -> int {
    c as int - '0' as int
}

/// The decimal rendering of `n`, most significant digit first, no sign and
/// no leading zero (a single `'0'` for zero itself).
pub open spec fn spec_dec_digits(n: nat) -> Seq<char>
    decreases n,
{
    if n < 10 {
        seq![digit_char(n as int)]
    } else {
        spec_dec_digits(n / 10) + seq![digit_char((n % 10) as int)]
    }
}

fn digit_str(d: u64) -> (r: String)
    requires
        d < 10,
    ensures
        r@ == seq![digit_char(d as int)],
{
    let s: &str = if d == 0 {
        "0"
    } else if d == 1 {
        "1"
    } else if d == 2 {
        "2"
    } else if d == 3 {
        "3"
    } else if d == 4 {
        "4"
    } else if d == 5 {
        "5"
    } else if d == 6 {
        "6"
    } else if d == 7 {
        "7"
    } else if d == 8 {
        "8"
    } else {
        "9"
    };
    proof {
        reveal_strlit("0");
        reveal_strlit("1");
        reveal_strlit("2");
        reveal_strlit("3");
        reveal_strlit("4");
        reveal_strlit("5");
        reveal_strlit("6");
        reveal_strlit("7");
        reveal_strlit("8");
        reveal_strlit("9");
        assert(s@ =~= seq![digit_char(d as int)]);
    }
    s.to_owned()
}

/// Renders `n` in decimal, as `u64::to_string` would.
pub fn u64_to_dec(n: u64) -> (r: String)
    ensures
        r@ == spec_dec_digits(n as nat),
    decreases n,
{
    if n < 10 {
        digit_str(n)
    } else {
        let mut s = u64_to_dec(n / 10);
        let d = digit_str(n % 10);
        s.append(d.as_str());
        proof {
            assert(s@ =~= spec_dec_digits(n as nat));
        }
        s
    }
}

/// Renders `n` as exactly two digits, zero-padded.
pub fn pad2(n: u64) -> (r: String)
    requires
        n < 100,
    ensures
        r@ == seq![digit_char(n as int / 10), digit_char(n as int % 10)],
{
    let hi = digit_str(n / 10);
    let r = hi.concat(digit_str(n % 10).as_str());
    proof {
        assert(r@ =~= seq![digit_char(n as int / 10), digit_char(n as int % 10)]);
    }
    r
}

/// Renders `n` as exactly four digits, zero-padded.
pub fn pad4(n: u64) -> (r: String)
    requires
        n < 10000,
    ensures
        r@ == seq![
            digit_char(n as int / 1000),
            digit_char(n as int / 100 % 10),
            digit_char(n as int / 10 % 10),
            digit_char(n as int % 10),
        ],
{
    let hi = pad2(n / 100);
    let lo = pad2(n % 100);
    proof {
        assert(n as int / 100 / 10 == n as int / 1000) by (nonlinear_arith);
        assert(n as int / 100 % 10 == n as int / 100 % 10);
        assert(n as int % 100 / 10 == n as int / 10 % 10) by (nonlinear_arith);
        assert(n as int % 100 % 10 == n as int % 10) by (nonlinear_arith);
    }
    let r = hi.concat(lo.as_str());
    proof {
        assert(r@ =~= seq![
            digit_char(n as int / 1000),
            digit_char(n as int / 100 % 10),
            digit_char(n as int / 10 % 10),
            digit_char(n as int % 10),
        ]);
    }
    r
}

pub open spec fn all_digit_chars(s: Seq<char>) -> bool {
    forall|i: int| 0 <= i < s.len() ==> is_digit_char(#[trigger] s[i])
}

/// The value of a digit string read in base ten.
pub open spec fn digits_val(s: Seq<char>) -> int
    decreases s.len(),
{
    if s.len() == 0 {
        0
    } else {
        digits_val(s.drop_last()) * 10 + digit_val(s.last())
    }
}

/// What `str::parse::<i32>` accepts: an optional sign, then one or more
/// decimal digits, whose signed value fits in an `i32`.
pub open spec fn spec_parse_i32(s: Seq<char>) -> Option<i32> {
    let negative = s.len() > 0 && s[0] == '-';
    let body = if s.len() > 0 && (s[0] == '-' || s[0] == '+') {
        s.subrange(1, s.len() as int)
    } else {
        s
    };
    if body.len() == 0 || !all_digit_chars(body) {
        None
    } else {
        let v = if negative {
            -digits_val(body)
        } else {
            digits_val(body)
        };
        if i32::MIN <= v <= i32::MAX {
            Some(v as i32)
        } else {
            None
        }
    }
}

/// Parses a decimal integer as `str::parse::<i32>` does: an optional leading
/// `+` or `-`, then at least one digit; anything else, or a value outside the
/// `i32` range, is rejected.
pub fn parse_i32(s: &str) -> (r: Option<i32>)
    ensures
        r == spec_parse_i32(s@),
{
    let n = s.unicode_len();
    if n == 0 {
        return None;
    }
    let first = s.get_char(0);
    let negative = first == '-';
    let has_sign = first == '-' || first == '+';
    let start: usize = if has_sign {
        1
    } else {
        0
    };
    let ghost body = if has_sign {
        s@.subrange(1, s@.len() as int)
    } else {
        s@
    };
    if start == n {
        return None;
    }
    let mut i = start;
    let mut acc: u64 = 0;
    let mut too_big = false;
    while i < n
        invariant
            start <= i <= n,
            n == s@.len(),
            n > 0,
            has_sign == (s@[0] == '-' || s@[0] == '+'),
            negative == (s@[0] == '-'),
            start == if has_sign { 1int } else { 0int },
            start < n,
            body == if has_sign { s@.subrange(1, s@.len() as int) } else { s@ },
            body.len() == n - start,
            forall|k: int| 0 <= k < body.len() ==> body[k] == s@[k + start],
            all_digit_chars(body.subrange(0, i - start)),
            !too_big ==> acc == digits_val(body.subrange(0, i - start)),
            too_big ==> digits_val(body.subrange(0, i - start)) >= 10_000_000_000,
        decreases n - i,
    {
        let c = s.get_char(i);
        let cv = c as u32;
        if cv < 48 || cv > 57 {
            proof {
                assert(!all_digit_chars(body));
            }
            return None;
        }
        let d: u64 = (cv - 48) as u64;
        proof {
            let p = body.subrange(0, i - start);
            let q = body.subrange(0, i + 1 - start);
            assert(q.drop_last() =~= p);
            assert(q.last() == body[i - start]);
            assert(digits_val(q) == digits_val(p) * 10 + digit_val(body[i - start]));
        }
        if too_big || acc >= 10_000_000_000 {
            too_big = true;
        } else {
            acc = acc * 10 + d;
        }
        i += 1;
    }
    proof {
        assert(body.subrange(0, i - start) =~= body);
    }
    if too_big {
        return None;
    }
    if negative {
        if acc <= 2147483648 {
            if acc == 2147483648 {
                Some(i32::MIN)
            } else {
                Some(-(acc as i32))
            }
        } else {
            None
        }
    } else {
        if acc <= 2147483647 {
            Some(acc as i32)
        } else {
            None
        }
    }
}

} // verus!
