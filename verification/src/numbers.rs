//! Recognizers for the numeric word classes of the search compiler: exact
//! signed-integer parsing, and the syntax of a decimal floating-point
//! word (optional sign, then `inf`, `infinity`, `nan` in any case, or a
//! number of digits, an optional point and fraction, and an optional
//! exponent).

use vstd::prelude::*;

verus! {

/// Whether `c` is a decimal digit.
pub open spec fn is_digit(c: char) -> bool {
    c == '0' || c == '1' || c == '2' || c == '3' || c == '4' || c == '5' || c == '6' || c == '7'
        || c == '8' || c == '9'
}

/// The value of a decimal digit.
pub open spec fn digit_val(c: char) -> nat {
    if c == '0' {
        0
    } else if c == '1' {
        1
    } else if c == '2' {
        2
    } else if c == '3' {
        3
    } else if c == '4' {
        4
    } else if c == '5' {
        5
    } else if c == '6' {
        6
    } else if c == '7' {
        7
    } else if c == '8' {
        8
    } else {
        9
    }
}

/// Whether every character of `s` is a decimal digit.
pub open spec fn all_digits(s: Seq<char>) -> bool {
    forall|k: int| 0 <= k < s.len() ==> is_digit(s[k])
}

/// The value of a digit string read in base ten.
pub open spec fn digits_val(s: Seq<char>) -> nat
    decreases s.len(),
{
    if s.len() == 0 {
        0
    } else {
        digits_val(s.drop_last()) * 10 + digit_val(s.last())
    }
}

/// `s` without its sign character, if it starts with one.
pub open spec fn sign_body(s: Seq<char>) -> Seq<char> {
    if s.len() > 0 && (s[0] == '+' || s[0] == '-') {
        s.drop_first()
    } else {
        s
    }
}

/// The sign that a leading `'-'` gives a numeric word.
pub open spec fn sign_of(s: Seq<char>) -> int {
    if s.len() > 0 && s[0] == '-' {
        -1
    } else {
        1
    }
}

/// Whether `s` is an integer word: an optional sign, one or more digits,
/// and a value within the signed 64-bit range.
pub open spec fn is_int_word(s: Seq<char>) -> bool {
    let b = sign_body(s);
    b.len() > 0 && all_digits(b) && i64::MIN <= sign_of(s) * digits_val(b) <= i64::MAX
}

/// The value of an integer word.
pub open spec fn int_word_val(s: Seq<char>) -> int {
    sign_of(s) * digits_val(sign_body(s))
}

/// The value of a digit string never shrinks as digits are appended.
proof fn lemma_digits_val_prefix(s: Seq<char>, i: int)
    requires
        0 <= i <= s.len(),
    ensures
        digits_val(s.subrange(0, i)) <= digits_val(s),
    decreases s.len() - i,
{
    if i == s.len() {
        assert(s.subrange(0, i) =~= s);
    } else {
        assert(s.subrange(0, i + 1).drop_last() =~= s.subrange(0, i));
        assert(digits_val(s.subrange(0, i + 1)) == digits_val(s.subrange(0, i)) * 10 + digit_val(
            s.subrange(0, i + 1).last(),
        ));
        lemma_digits_val_prefix(s, i + 1);
    }
}

/// Decides [`is_digit`] for one character.
pub fn char_is_digit(c: char) -> (r: bool)
    ensures
        r == is_digit(c),
{
    c == '0' || c == '1' || c == '2' || c == '3' || c == '4' || c == '5' || c == '6' || c == '7'
        || c == '8' || c == '9'
}

/// The value of a digit character.
fn char_digit_val(c: char) -> (r: u64)
    requires
        is_digit(c),
    ensures
        r == digit_val(c),
{
    if c == '0' {
        0
    } else if c == '1' {
        1
    } else if c == '2' {
        2
    } else if c == '3' {
        3
    } else if c == '4' {
        4
    } else if c == '5' {
        5
    } else if c == '6' {
        6
    } else if c == '7' {
        7
    } else if c == '8' {
        8
    } else {
        9
    }
}

/// Parses a signed 64-bit integer from its decimal form: an optional
/// sign followed by one or more digits, rejecting anything else and any
/// value outside the representable range.
pub fn parse_i64(s: &str) -> (r: Option<i64>)
    ensures
        r is Some <==> is_int_word(s@),
        r is Some ==> r->Some_0 as int == int_word_val(s@),
{
    let n = s.unicode_len();
    if n == 0 {
        return None;
    }
    let c0 = s.get_char(0);
    let neg = c0 == '-';
    let start: usize = if c0 == '-' || c0 == '+' {
        1
    } else {
        0
    };
    let ghost body = sign_body(s@);
    proof {
        assert(body =~= s@.subrange(start as int, n as int));
    }
    if start == n {
        return None;
    }
    let bound: u64 = if neg {
        9223372036854775808
    } else {
        9223372036854775807
    };
    let mut acc: u64 = 0;
    let mut i: usize = start;
    while i < n
        invariant
            start <= i <= n,
            n == s@.len(),
            start == 1 ==> (s@[0] == '-' || s@[0] == '+'),
            neg == (s@.len() > 0 && s@[0] == '-'),
            body == sign_body(s@),
            body == s@.subrange(start as int, n as int),
            bound == (if neg {
                9223372036854775808u64
            } else {
                9223372036854775807u64
            }),
            forall|k: int| 0 <= k < i - start ==> is_digit(body[k]),
            acc == digits_val(body.subrange(0, i - start)),
            acc <= bound,
        decreases n - i,
    {
        let c = s.get_char(i);
        if !char_is_digit(c) {
            proof {
                assert(!is_digit(body[i - start]));
            }
            return None;
        }
        let d = char_digit_val(c);
        let ghost taken = body.subrange(0, i - start);
        let ghost taken1 = body.subrange(0, i + 1 - start);
        proof {
            assert(taken1.drop_last() =~= taken);
            assert(taken1.last() == body[i - start]);
            assert(digits_val(taken1) == acc * 10 + d);
        }
        if acc > (bound - d) / 10 {
            proof {
                let q = ((bound - d) / 10) as int;
                let m = ((bound - d) % 10) as int;
                assert((bound - d) as int == 10 * q + m && 0 <= m < 10);
                assert(acc >= q + 1);
                assert(acc * 10 >= (q + 1) * 10) by (nonlinear_arith)
                    requires
                        acc >= q + 1,
                ;
                assert(acc * 10 + d > bound);
                lemma_digits_val_prefix(body, i + 1 - start);
                assert(digits_val(body) >= digits_val(taken1));
                if neg {
                    assert(sign_of(s@) == -1);
                    assert(sign_of(s@) * digits_val(body) < i64::MIN);
                } else {
                    assert(sign_of(s@) * digits_val(body) > i64::MAX);
                }
            }
            return None;
        }
        proof {
            let q = ((bound - d) / 10) as int;
            let m = ((bound - d) % 10) as int;
            assert((bound - d) as int == 10 * q + m && 0 <= m < 10);
            assert(acc <= q);
            assert(acc * 10 <= q * 10) by (nonlinear_arith)
                requires
                    acc <= q,
            ;
            assert(acc * 10 + d <= bound);
        }
        acc = acc * 10 + d;
        i = i + 1;
    }
    proof {
        assert(body.subrange(0, n - start) =~= body);
        assert(all_digits(body));
    }
    if neg {
        if acc == 9223372036854775808 {
            Some(i64::MIN)
        } else {
            Some(-(acc as i64))
        }
    } else {
        Some(acc as i64)
    }
}

/// Whether the characters of `s` from `from` on begin with `k`
/// consecutive digits and no more.
pub open spec fn digit_run(s: Seq<char>, from: int) -> int
    decreases s.len() - from,
{
    if from < 0 || from >= s.len() || !is_digit(s[from]) {
        0
    } else {
        1 + digit_run(s, from + 1)
    }
}

proof fn lemma_digit_run_bounds(s: Seq<char>, from: int)
    requires
        0 <= from <= s.len(),
    ensures
        0 <= digit_run(s, from) <= s.len() - from,
    decreases s.len() - from,
{
    if from < s.len() && is_digit(s[from]) {
        lemma_digit_run_bounds(s, from + 1);
    }
}

/// Counts the digits of `s` from position `from` on.
fn scan_digits(s: &str, from: usize, n: usize) -> (r: usize)
    requires
        from <= n,
        n == s@.len(),
    ensures
        r == digit_run(s@, from as int),
        from + r <= n,
{
    let mut i: usize = from;
    while i < n && char_is_digit(s.get_char(i))
        invariant
            from <= i <= n,
            n == s@.len(),
            digit_run(s@, from as int) == i - from + digit_run(s@, i as int),
        decreases n - i,
    {
        i = i + 1;
    }
    proof {
        assert(digit_run(s@, i as int) == 0);
    }
    i - from
}

/// Whether `s` ends, from position `from` on, with an exponent part:
/// `e` or `E`, an optional sign, and one or more digits reaching the end.
pub open spec fn is_exp_part(s: Seq<char>, from: int) -> bool {
    0 <= from < s.len() && (s[from] == 'e' || s[from] == 'E') && {
        let a = if from + 1 < s.len() && (s[from + 1] == '+' || s[from + 1] == '-') {
            from + 2
        } else {
            from + 1
        };
        a < s.len() && digit_run(s, a) == s.len() - a
    }
}

/// Whether `s` (sign already stripped) is a decimal number: digits, an
/// optional point with optional further digits, an optional exponent;
/// or a point, digits and an optional exponent.  At least one digit must
/// appear before the exponent.
pub open spec fn is_number_body(s: Seq<char>) -> bool {
    let d1 = digit_run(s, 0);
    if d1 == s.len() {
        d1 > 0
    } else if s[d1] == '.' {
        let d2 = digit_run(s, d1 + 1);
        let rest = d1 + 1 + d2;
        (d1 > 0 || d2 > 0) && (rest == s.len() || is_exp_part(s, rest))
    } else {
        d1 > 0 && is_exp_part(s, d1)
    }
}

/// Case-insensitive equality with a lower-case letter.
pub open spec fn eqi(c: char, lower: char, upper: char) -> bool {
    c == lower || c == upper
}

/// Whether `s` (sign already stripped) spells `inf` in any case.
pub open spec fn is_inf_body(s: Seq<char>) -> bool {
    s.len() == 3 && eqi(s[0], 'i', 'I') && eqi(s[1], 'n', 'N') && eqi(s[2], 'f', 'F')
}

/// Whether `s` (sign already stripped) spells `infinity` in any case.
pub open spec fn is_infinity_body(s: Seq<char>) -> bool {
    s.len() == 8 && eqi(s[0], 'i', 'I') && eqi(s[1], 'n', 'N') && eqi(s[2], 'f', 'F') && eqi(
        s[3],
        'i',
        'I',
    ) && eqi(s[4], 'n', 'N') && eqi(s[5], 'i', 'I') && eqi(s[6], 't', 'T') && eqi(s[7], 'y', 'Y')
}

/// Whether `s` (sign already stripped) spells `nan` in any case.
pub open spec fn is_nan_body(s: Seq<char>) -> bool {
    s.len() == 3 && eqi(s[0], 'n', 'N') && eqi(s[1], 'a', 'A') && eqi(s[2], 'n', 'N')
}

/// Whether `s` is a floating-point word: an optional sign, then `inf`,
/// `infinity` or `nan` in any case, or a decimal number.
pub open spec fn is_float_word(s: Seq<char>) -> bool {
    let b = sign_body(s);
    is_inf_body(b) || is_infinity_body(b) || is_nan_body(b) || is_number_body(b)
}

fn char_at_eqi(s: &str, i: usize, lower: char, upper: char) -> (r: bool)
    requires
        i < s@.len(),
    ensures
        r == eqi(s@[i as int], lower, upper),
{
    let c = s.get_char(i);
    c == lower || c == upper
}

/// Decides whether a word has the syntax of a floating-point number.
pub fn is_float_str(s: &str) -> (r: bool)
    ensures
        r == is_float_word(s@),
{
    let n = s.unicode_len();
    let start: usize = if n > 0 {
        let c0 = s.get_char(0);
        if c0 == '-' || c0 == '+' {
            1
        } else {
            0
        }
    } else {
        0
    };
    let ghost body = sign_body(s@);
    proof {
        assert(body =~= s@.skip(start as int));
    }
    let m = n - start;
    let named = if m == 3 {
        (char_at_eqi(s, start, 'i', 'I') && char_at_eqi(s, start + 1, 'n', 'N') && char_at_eqi(
            s,
            start + 2,
            'f',
            'F',
        )) || (char_at_eqi(s, start, 'n', 'N') && char_at_eqi(s, start + 1, 'a', 'A')
            && char_at_eqi(s, start + 2, 'n', 'N'))
    } else if m == 8 {
        char_at_eqi(s, start, 'i', 'I') && char_at_eqi(s, start + 1, 'n', 'N') && char_at_eqi(
            s,
            start + 2,
            'f',
            'F',
        ) && char_at_eqi(s, start + 3, 'i', 'I') && char_at_eqi(s, start + 4, 'n', 'N')
            && char_at_eqi(s, start + 5, 'i', 'I') && char_at_eqi(s, start + 6, 't', 'T')
            && char_at_eqi(s, start + 7, 'y', 'Y')
    } else {
        false
    };
    if named {
        return true;
    }
    proof {
        assert(!is_inf_body(body) && !is_infinity_body(body) && !is_nan_body(body));
    }
    is_number_str(s, start, n)
}

/// Digit runs are the same on a suffix as on the whole, shifted.
proof fn lemma_digit_run_skip(s: Seq<char>, off: int, from: int)
    requires
        0 <= off <= s.len(),
        off <= from <= s.len(),
    ensures
        digit_run(s, from) == digit_run(s.skip(off), from - off),
    decreases s.len() - from,
{
    let t = s.skip(off);
    if from < s.len() && is_digit(s[from]) {
        lemma_digit_run_skip(s, off, from + 1);
    }
}

/// Decides [`is_number_body`] for the characters of `s` from `start` on.
fn is_number_str(s: &str, start: usize, n: usize) -> (r: bool)
    requires
        start <= n,
        n == s@.len(),
    ensures
        r == is_number_body(s@.skip(start as int)),
{
    let ghost body = s@.skip(start as int);
    let d1 = scan_digits(s, start, n);
    proof {
        lemma_digit_run_skip(s@, start as int, start as int);
        assert(digit_run(body, 0) == d1);
        lemma_digit_run_bounds(body, 0);
    }
    if start + d1 == n {
        return d1 > 0;
    }
    let c = s.get_char(start + d1);
    proof {
        assert(body[d1 as int] == s@[start + d1]);
    }
    if c == '.' {
        let d2 = scan_digits(s, start + d1 + 1, n);
        proof {
            lemma_digit_run_skip(s@, start as int, start + d1 + 1);
            assert(digit_run(body, d1 + 1) == d2);
        }
        let rest = start + d1 + 1 + d2;
        if d1 == 0 && d2 == 0 {
            return false;
        }
        if rest == n {
            return true;
        }
        is_exp_str(s, rest, n, start)
    } else {
        if d1 == 0 {
            return false;
        }
        is_exp_str(s, start + d1, n, start)
    }
}

/// Decides [`is_exp_part`] for the characters of `s` from `from` on,
/// relative to the body that begins at `start`.
fn is_exp_str(s: &str, from: usize, n: usize, start: usize) -> (r: bool)
    requires
        start <= from <= n,
        n == s@.len(),
    ensures
        r == is_exp_part(s@.skip(start as int), from - start),
{
    let ghost body = s@.skip(start as int);
    if from == n {
        return false;
    }
    let c = s.get_char(from);
    proof {
        assert(body[from - start] == s@[from as int]);
    }
    if !(c == 'e' || c == 'E') {
        return false;
    }
    let a: usize = if from + 1 < n {
        let c1 = s.get_char(from + 1);
        proof {
            assert(body[from + 1 - start] == s@[from + 1]);
        }
        if c1 == '+' || c1 == '-' {
            from + 2
        } else {
            from + 1
        }
    } else {
        from + 1
    };
    if a >= n {
        return false;
    }
    let d = scan_digits(s, a, n);
    proof {
        lemma_digit_run_skip(s@, start as int, a as int);
        assert(digit_run(body, a - start) == d);
    }
    a + d == n
}

} // verus!
