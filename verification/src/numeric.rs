//! Which texts the standard numeric parsers accept: `i64` and `u16` from
//! `str::parse`, and the documented grammar of `f64::from_str`.
//!
//! Only acceptance matters here, never the parsed value. Each grammar is a
//! few lines of the parsers' documentation, stated below and checked; the
//! `f64` one is matched on the text alone, so no floating-point value enters
//! the library.
use vstd::prelude::*;
use crate::text::{ascii_lower, char_ascii_lower, digit_value, is_digit, to_chars};

verus! {

/// Every character is a decimal digit.
pub open spec fn all_digits(s: Seq<char>) -> bool {
    forall|i: int| 0 <= i < s.len() ==> is_digit(#[trigger] s[i])
}

/// The value of a string of decimal digits.
pub open spec fn digits_value(s: Seq<char>) -> nat
    decreases s.len(),
{
    if s.len() == 0 {
        0
    } else {
        digits_value(s.drop_last()) * 10 + digit_value(s.last())
    }
}

/// Length of a leading `+` or `-`.
pub open spec fn sign_len(s: Seq<char>) -> int {
    if s.len() > 0 && (s[0] == '+' || s[0] == '-') {
        1
    } else {
        0
    }
}

/// `s` is accepted by `str::parse::<i64>`: an optional `+` or `-`, then at least
/// one digit, and the value fits in `i64`.
pub open spec fn is_i64_text(s: Seq<char>) -> bool {
    let body = s.skip(sign_len(s));
    &&& body.len() > 0
    &&& all_digits(body)
    &&& if s.len() > 0 && s[0] == '-' {
        digits_value(body) <= 0x8000_0000_0000_0000
    } else {
        digits_value(body) <= 0x7fff_ffff_ffff_ffff
    }
}

/// The digits of `s` after an optional `+` (unsigned types take no `-`).
pub open spec fn unsigned_body(s: Seq<char>) -> Seq<char> {
    if s.len() > 0 && s[0] == '+' {
        s.drop_first()
    } else {
        s
    }
}

/// What `str::parse::<u16>` returns for `s`, as an `Option`.
pub open spec fn parse_u16_spec(s: Seq<char>) -> Option<u16> {
    let body = unsigned_body(s);
    if body.len() > 0 && all_digits(body) && digits_value(body) <= 0xffff {
        Some(digits_value(body) as u16)
    } else {
        None
    }
}

proof fn lemma_digits_value_prefix(s: Seq<char>, i: int)
    requires
        0 <= i <= s.len(),
        all_digits(s),
    ensures
        digits_value(s.take(i)) <= digits_value(s),
    decreases s.len() - i,
{
    if i < s.len() {
        let t = s.take(i + 1);
        assert(t.drop_last() == s.take(i));
        assert(is_digit(s[i]));
        lemma_digits_value_prefix(s, i + 1);
    } else {
        assert(s.take(i) == s);
    }
}

/// Scans `v[from..]` as decimal digits; `Some(value)` when every character is
/// a digit and the value does not exceed `limit`, else `None`.
fn scan_digits(v: &[char], from: usize, limit: u64) -> (r: Option<u64>)
    requires
        from <= v.len(),
        limit >= 9,
    ensures
        r matches Some(x) ==> all_digits(v@.skip(from as int)) && x == digits_value(
            v@.skip(from as int),
        ) && x <= limit,
        r is None ==> !all_digits(v@.skip(from as int)) || digits_value(v@.skip(from as int))
            > limit,
{
    let ghost body = v@.skip(from as int);
    let mut acc: u64 = 0;
    let mut i = from;
    while i < v.len()
        invariant
            from <= i <= v.len(),
            body == v@.skip(from as int),
            all_digits(body.take(i - from)),
            acc == digits_value(body.take(i - from)),
            acc <= limit,
            limit >= 9,
        decreases v.len() - i,
    {
        let c = v[i];
        proof {
            assert(body[i - from] == c);
        }
        if !('0' <= c && c <= '9') {
            return None;
        }
        let d = (c as u64) - 48;
        proof {
            let t = body.take(i - from + 1);
            assert(t.drop_last() == body.take(i - from));
            assert(t.last() == c);
            assert(all_digits(t)) by {
                assert forall|j: int| 0 <= j < t.len() implies is_digit(#[trigger] t[j]) by {
                    if j < t.len() - 1 {
                        assert(t[j] == body.take(i - from)[j]);
                    }
                }
            }
        }
        if acc > (limit - d) / 10 {
            proof {
                let t = body.take(i - from + 1);
                assert(digits_value(t) == acc * 10 + d);
                assert(acc * 10 + d > limit) by (nonlinear_arith)
                    requires
                        acc > (limit - d) / 10,
                        d <= limit || d > limit,
                ;
                if all_digits(body) {
                    lemma_digits_value_prefix(body, i - from + 1);
                }
            }
            return None;
        }
        assert(acc * 10 + d <= limit) by (nonlinear_arith)
            requires
                acc <= (limit - d) / 10,
                d <= 9,
        ;
        acc = acc * 10 + d;
        i += 1;
    }
    assert(body.take(v.len() - from) == body);
    Some(acc)
}

/// `str::parse::<i64>(text).is_ok()`.
pub fn parses_as_i64(text: &str) -> (r: bool)
    ensures
        r == is_i64_text(text@),
{
    let v = to_chars(text);
    let from: usize = if v.len() > 0 && (v[0] == '+' || v[0] == '-') {
        1
    } else {
        0
    };
    let neg = v.len() > 0 && v[0] == '-';
    if from >= v.len() {
        return false;
    }
    let limit: u64 = if neg {
        0x8000_0000_0000_0000
    } else {
        0x7fff_ffff_ffff_ffff
    };
    let r = scan_digits(v.as_slice(), from, limit);
    r.is_some()
}

/// `str::parse::<u16>(text).ok()`.
pub fn parse_u16(text: &str) -> (r: Option<u16>)
    ensures
        r == parse_u16_spec(text@),
{
    let v = to_chars(text);
    let from: usize = if v.len() > 0 && v[0] == '+' {
        1
    } else {
        0
    };
    proof {
        if from == 1 {
            assert(unsigned_body(text@) == v@.skip(1));
        } else {
            assert(v@.skip(0) == v@);
        }
    }
    if from >= v.len() {
        return None;
    }
    match scan_digits(v.as_slice(), from, 0xffff) {
        Some(x) => Some(x as u16),
        None => None,
    }
}

/// `c` is `e` or `E`.
pub open spec fn is_exp_char(c: char) -> bool {
    c == 'e' || c == 'E'
}

/// Index of the first `e`/`E` in `s` (or `s.len()`).
pub open spec fn exp_pos(s: Seq<char>) -> nat
    decreases s.len(),
{
    if s.len() == 0 || is_exp_char(s[0]) {
        0
    } else {
        1 + exp_pos(s.drop_first())
    }
}

/// Number of `.` in `s`.
pub open spec fn count_dots(s: Seq<char>) -> nat
    decreases s.len(),
{
    if s.len() == 0 {
        0
    } else {
        count_dots(s.drop_last()) + if s.last() == '.' {
            1nat
        } else {
            0nat
        }
    }
}

/// Number of decimal digits in `s`.
pub open spec fn count_digits(s: Seq<char>) -> nat
    decreases s.len(),
{
    if s.len() == 0 {
        0
    } else {
        count_digits(s.drop_last()) + if is_digit(s.last()) {
            1nat
        } else {
            0nat
        }
    }
}

/// `Digit+ | Digit+ '.' Digit* | Digit* '.' Digit+`: digits with at most one
/// `.` and at least one digit.
pub open spec fn mantissa_ok(m: Seq<char>) -> bool {
    &&& forall|i: int| 0 <= i < m.len() ==> is_digit(#[trigger] m[i]) || m[i] == '.'
    &&& count_dots(m) <= 1
    &&& count_digits(m) >= 1
}

/// `Exp?` where `Exp ::= 'e' Sign? Digit+` (either case of `e`).
pub open spec fn exponent_ok(x: Seq<char>) -> bool {
    x.len() == 0 || (is_exp_char(x[0]) && {
        let y = x.drop_first();
        let d = y.skip(sign_len(y));
        d.len() > 0 && all_digits(d)
    })
}

/// `Number ::= ( Digit+ | Digit+ '.' Digit* | Digit* '.' Digit+ ) Exp?`.
pub open spec fn number_ok(b: Seq<char>) -> bool {
    let k = exp_pos(b) as int;
    mantissa_ok(b.take(k)) && exponent_ok(b.skip(k))
}

/// `s`, ASCII-lower-cased, is `t`.
pub open spec fn lower_is(s: Seq<char>, t: Seq<char>) -> bool {
    s.len() == t.len() && forall|i: int| 0 <= i < s.len() ==> ascii_lower(#[trigger] s[i]) == t[i]
}

/// `s` is accepted by `f64::from_str`: the grammar
/// `Sign? ( 'inf' | 'infinity' | 'nan' | Number )` of the `FromStr for f64`
/// documentation, matched after ASCII lower-casing.
pub open spec fn is_f64_text(s: Seq<char>) -> bool {
    let b = s.skip(sign_len(s));
    lower_is(b, seq!['i', 'n', 'f']) || lower_is(
        b,
        seq!['i', 'n', 'f', 'i', 'n', 'i', 't', 'y'],
    ) || lower_is(b, seq!['n', 'a', 'n']) || number_ok(b)
}

fn chars_lower_is(v: &[char], from: usize, t: &[char]) -> (r: bool)
    requires
        from <= v.len(),
    ensures
        r == lower_is(v@.skip(from as int), t@),
{
    let ghost b = v@.skip(from as int);
    if v.len() - from != t.len() {
        return false;
    }
    let mut i: usize = 0;
    while i < t.len()
        invariant
            i <= t.len(),
            from + t.len() == v.len(),
            b == v@.skip(from as int),
            forall|j: int| 0 <= j < i ==> ascii_lower(#[trigger] b[j]) == t@[j],
        decreases t.len() - i,
    {
        if char_ascii_lower(v[from + i]) != t[i] {
            assert(b[i as int] == v@[from + i]);
            return false;
        }
        assert(b[i as int] == v@[from + i]);
        i += 1;
    }
    true
}

proof fn lemma_exp_pos(s: Seq<char>, k: int)
    requires
        0 <= k <= s.len(),
        forall|j: int| 0 <= j < k ==> !is_exp_char(#[trigger] s[j]),
        k == s.len() || is_exp_char(s[k]),
    ensures
        exp_pos(s) == k,
    decreases k,
{
    if k > 0 {
        let t = s.drop_first();
        assert(!is_exp_char(s[0]));
        assert forall|j: int| 0 <= j < k - 1 implies !is_exp_char(#[trigger] t[j]) by {
            assert(t[j] == s[j + 1]);
        }
        if k < s.len() {
            assert(t[k - 1] == s[k]);
        }
        lemma_exp_pos(t, k - 1);
    }
}

/// Checks `Number` on `v[from..]`.
fn number_text_ok(v: &[char], from: usize) -> (r: bool)
    requires
        from <= v.len(),
    ensures
        r == number_ok(v@.skip(from as int)),
{
    let ghost b = v@.skip(from as int);
    // mantissa: up to the first e/E
    let mut i = from;
    let mut dots: usize = 0;
    let mut digits: usize = 0;
    let mut chars_ok = true;
    while i < v.len() && !(v[i] == 'e' || v[i] == 'E')
        invariant
            from <= i <= v.len(),
            b == v@.skip(from as int),
            forall|j: int| 0 <= j < i - from ==> !is_exp_char(#[trigger] b[j]),
            dots == count_dots(b.take(i - from)),
            digits == count_digits(b.take(i - from)),
            dots <= i - from,
            digits <= i - from,
            chars_ok == (forall|j: int|
                0 <= j < i - from ==> is_digit(#[trigger] b.take(i - from)[j]) || b.take(
                    i - from,
                )[j] == '.'),
        decreases v.len() - i,
    {
        let c = v[i];
        proof {
            let t = b.take(i - from + 1);
            assert(t.drop_last() == b.take(i - from));
            assert(t.last() == c);
            assert(b[i - from] == c);
            assert forall|j: int| 0 <= j < i - from implies t[j] == b.take(i - from)[j] by {}
        }
        if c == '.' {
            dots += 1;
        } else if '0' <= c && c <= '9' {
            digits += 1;
        } else {
            chars_ok = false;
        }
        i += 1;
        proof {
            let t = b.take(i - from);
            let t0 = b.take(i - from - 1);
            assert(chars_ok == (forall|j: int|
                0 <= j < i - from ==> is_digit(#[trigger] t[j]) || t[j] == '.')) by {
                if forall|j: int| 0 <= j < i - from ==> is_digit(#[trigger] t[j]) || t[j] == '.' {
                    assert forall|j: int| 0 <= j < i - from - 1 implies is_digit(
                        #[trigger] t0[j],
                    ) || t0[j] == '.' by {
                        assert(t0[j] == t[j]);
                    }
                    assert(is_digit(t[i - from - 1]) || t[i - from - 1] == '.');
                }
            }
        }
    }
    let k = i - from;
    proof {
        lemma_exp_pos(b, k as int);
    }
    let mant_ok = chars_ok && dots <= 1 && digits >= 1;
    if !mant_ok {
        return false;
    }
    // exponent
    if i == v.len() {
        assert(b.skip(k as int).len() == 0);
        return true;
    }
    let ghost x = b.skip(k as int);
    assert(x[0] == v@[i as int]);
    let mut j = i + 1;
    proof {
        let y = x.drop_first();
        assert(y == v@.skip(j as int));
    }
    if j < v.len() && (v[j] == '+' || v[j] == '-') {
        j += 1;
    }
    proof {
        let y = x.drop_first();
        assert(y.skip(sign_len(y)) == v@.skip(j as int));
    }
    if j >= v.len() {
        return false;
    }
    all_digits_from(v, j)
}

/// Every character of `v[from..]` is a digit.
fn all_digits_from(v: &[char], from: usize) -> (r: bool)
    requires
        from <= v.len(),
    ensures
        r == all_digits(v@.skip(from as int)),
{
    let mut i = from;
    while i < v.len()
        invariant
            from <= i <= v.len(),
            forall|j: int| from <= j < i ==> is_digit(#[trigger] v@[j]),
        decreases v.len() - i,
    {
        if !('0' <= v[i] && v[i] <= '9') {
            assert(v@.skip(from as int)[i - from] == v@[i as int]);
            return false;
        }
        i += 1;
    }
    assert forall|j: int| 0 <= j < v@.skip(from as int).len() implies is_digit(
        #[trigger] v@.skip(from as int)[j],
    ) by {
        assert(v@.skip(from as int)[j] == v@[j + from]);
    }
    true
}

/// `f64::from_str(text).is_ok()`.
pub fn parses_as_f64(text: &str) -> (r: bool)
    ensures
        r == is_f64_text(text@),
{
    let v = to_chars(text);
    let from: usize = if v.len() > 0 && (v[0] == '+' || v[0] == '-') {
        1
    } else {
        0
    };
    let inf = ['i', 'n', 'f'];
    let infinity = ['i', 'n', 'f', 'i', 'n', 'i', 't', 'y'];
    let nan = ['n', 'a', 'n'];
    assert(inf@ == seq!['i', 'n', 'f']);
    assert(infinity@ == seq!['i', 'n', 'f', 'i', 'n', 'i', 't', 'y']);
    assert(nan@ == seq!['n', 'a', 'n']);
    chars_lower_is(v.as_slice(), from, inf.as_slice()) || chars_lower_is(
        v.as_slice(),
        from,
        infinity.as_slice(),
    ) || chars_lower_is(v.as_slice(), from, nan.as_slice()) || number_text_ok(
        v.as_slice(),
        from,
    )
}

} // verus!
