//! Character-level string helpers with their mathematical meaning.

use vstd::prelude::*;

verus! {

/// Copies the characters of `s` into a vector.
pub fn chars_of(s: &str) -> (v: Vec<char>)
    ensures
        v@ == s@,
{
    let mut v: Vec<char> = Vec::new();
    for c in it: s.chars()
        invariant
            it.seq() == s@,
            v@ == it.seq().take(it.index() as int),
    {
        v.push(c);
    }
    assert(v@ =~= s@);
    v
}

/// Whether two strings hold the same characters.
pub fn str_eq(a: &str, b: &str) -> (r: bool)
    ensures
        r == (a@ == b@),
{
    let n = a.unicode_len();
    if n != b.unicode_len() {
        return false;
    }
    let mut i: usize = 0;
    while i < n
        invariant
            n == a@.len(),
            n == b@.len(),
            i <= n,
            forall|j: int| 0 <= j < i ==> a@[j] == b@[j],
        decreases n - i,
    {
        if a.get_char(i) != b.get_char(i) {
            return false;
        }
        i = i + 1;
    }
    assert(a@ =~= b@);
    true
}

/// Unicode `White_Space`, the property `char::is_whitespace` tests.
pub open spec fn is_white_space(c: char) -> bool {
    let u = c as u32;
    ||| 0x9 <= u <= 0xd
    ||| u == 0x20
    ||| u == 0x85
    ||| u == 0xa0
    ||| u == 0x1680
    ||| 0x2000 <= u <= 0x200a
    ||| u == 0x2028
    ||| u == 0x2029
    ||| u == 0x202f
    ||| u == 0x205f
    ||| u == 0x3000
}

/// Whether `c` is Unicode white space.
pub fn is_whitespace_char(c: char) -> (r: bool)
    ensures
        r == is_white_space(c),
{
    let u = c as u32;
    (0x9 <= u && u <= 0xd) || u == 0x20 || u == 0x85 || u == 0xa0 || u == 0x1680 || (0x2000
        <= u && u <= 0x200a) || u == 0x2028 || u == 0x2029 || u == 0x202f || u == 0x205f || u
        == 0x3000
}

/// `s` without its trailing white space.
pub open spec fn trim_end_ws(s: Seq<char>) -> Seq<char>
    decreases s.len(),
{
    if s.len() > 0 && is_white_space(s.last()) {
        trim_end_ws(s.drop_last())
    } else {
        s
    }
}

/// `s` without its leading white space.
pub open spec fn trim_start_ws(s: Seq<char>) -> Seq<char>
    decreases s.len(),
{
    if s.len() > 0 && is_white_space(s[0]) {
        trim_start_ws(s.drop_first())
    } else {
        s
    }
}

/// `s` without leading and trailing white space, as `str::trim` gives it.
pub open spec fn trim_ws(s: Seq<char>) -> Seq<char> {
    trim_start_ws(trim_end_ws(s))
}

/// Whether `c` is a carriage return or a line feed.
pub open spec fn is_line_break(c: char) -> bool {
    c == '\r' || c == '\n'
}

/// `s` without its trailing carriage returns and line feeds.
pub open spec fn trim_end_line_breaks(s: Seq<char>) -> Seq<char>
    decreases s.len(),
{
    if s.len() > 0 && is_line_break(s.last()) {
        trim_end_line_breaks(s.drop_last())
    } else {
        s
    }
}

/// The index of the last occurrence of `c` in `s`.
pub open spec fn last_index_of(s: Seq<char>, c: char) -> Option<int>
    decreases s.len(),
{
    if s.len() == 0 {
        None
    } else if s.last() == c {
        Some(s.len() - 1)
    } else {
        last_index_of(s.drop_last(), c)
    }
}

/// The end of `cs[lo..hi]` once its trailing white space is dropped.
pub fn trim_end_index(cs: &Vec<char>, lo: usize, hi: usize) -> (e: usize)
    requires
        lo <= hi <= cs@.len(),
    ensures
        lo <= e <= hi,
        trim_end_ws(cs@.subrange(lo as int, hi as int)) == cs@.subrange(lo as int, e as int),
{
    let mut e = hi;
    while e > lo && is_whitespace_char(cs[e - 1])
        invariant
            lo <= e <= hi <= cs@.len(),
            trim_end_ws(cs@.subrange(lo as int, hi as int)) == trim_end_ws(
                cs@.subrange(lo as int, e as int),
            ),
        decreases e,
    {
        assert(cs@.subrange(lo as int, e as int).drop_last() =~= cs@.subrange(
            lo as int,
            e - 1,
        ));
        e = e - 1;
    }
    e
}

/// The start of `cs[lo..hi]` once its leading white space is dropped.
pub fn trim_start_index(cs: &Vec<char>, lo: usize, hi: usize) -> (b: usize)
    requires
        lo <= hi <= cs@.len(),
    ensures
        lo <= b <= hi,
        trim_start_ws(cs@.subrange(lo as int, hi as int)) == cs@.subrange(b as int, hi as int),
{
    let mut b = lo;
    while b < hi && is_whitespace_char(cs[b])
        invariant
            lo <= b <= hi <= cs@.len(),
            trim_start_ws(cs@.subrange(lo as int, hi as int)) == trim_start_ws(
                cs@.subrange(b as int, hi as int),
            ),
        decreases hi - b,
    {
        assert(cs@.subrange(b as int, hi as int).drop_first() =~= cs@.subrange(
            b + 1,
            hi as int,
        ));
        b = b + 1;
    }
    b
}

/// The bounds of `cs[lo..hi]` once white space is dropped at both ends.
pub fn trim_indices(cs: &Vec<char>, lo: usize, hi: usize) -> (r: (usize, usize))
    requires
        lo <= hi <= cs@.len(),
    ensures
        lo <= r.0 <= r.1 <= hi,
        trim_ws(cs@.subrange(lo as int, hi as int)) == cs@.subrange(r.0 as int, r.1 as int),
{
    let e = trim_end_index(cs, lo, hi);
    let b = trim_start_index(cs, lo, e);
    (b, e)
}

/// Whether `c` is one of the ASCII digits `0`..`9`.
pub open spec fn is_ascii_digit(c: char) -> bool {
    '0' <= c <= '9'
}

/// The value of a string of decimal digits.
pub open spec fn digits_value(s: Seq<char>) -> nat
    decreases s.len(),
{
    if s.len() == 0 {
        0
    } else {
        digits_value(s.drop_last()) * 10 + ((s.last() as u32) - ('0' as u32)) as nat
    }
}

/// The digits that follow an optional leading `+`.
pub open spec fn unsigned_digits(s: Seq<char>) -> Seq<char> {
    if s.len() > 0 && s[0] == '+' {
        s.drop_first()
    } else {
        s
    }
}

/// What `str::parse::<u16>` yields: an optional `+` followed by at least one
/// ASCII digit and nothing else, whose value fits in 16 bits.
pub open spec fn parse_u16_spec(s: Seq<char>) -> Option<nat> {
    let digits = unsigned_digits(s);
    if digits.len() > 0 && (forall|i: int| 0 <= i < digits.len() ==> is_ascii_digit(#[trigger] digits[i]))
        && digits_value(digits) <= 65535 {
        Some(digits_value(digits))
    } else {
        None
    }
}

/// A longer string of digits never has a smaller value.
pub proof fn lemma_digits_value_prefix(s: Seq<char>, k: int)
    requires
        0 <= k <= s.len(),
        forall|i: int| 0 <= i < s.len() ==> is_ascii_digit(#[trigger] s[i]),
    ensures
        digits_value(s.take(k)) <= digits_value(s),
    decreases s.len(),
{
    if k < s.len() {
        assert(s.drop_last().take(k) =~= s.take(k));
        lemma_digits_value_prefix(s.drop_last(), k);
    } else {
        assert(s.take(k) =~= s);
    }
}

/// Parses a decimal `u16` the way `str::parse::<u16>` does.
pub fn parse_u16(s: &str) -> (r: Option<u16>)
    ensures
        match r {
            Some(v) => parse_u16_spec(s@) == Some(v as nat),
            None => parse_u16_spec(s@) is None,
        },
{
    let cs = chars_of(s);
    let n = cs.len();
    let start: usize = if n > 0 && cs[0] == '+' {
        1
    } else {
        0
    };
    let ghost digits = unsigned_digits(s@);
    assert(digits =~= cs@.subrange(start as int, n as int));
    if start == n {
        return None;
    }
    let mut value: u32 = 0;
    let mut i: usize = start;
    while i < n
        invariant
            start <= i <= n == cs@.len(),
            cs@ == s@,
            digits == unsigned_digits(s@),
            digits == cs@.subrange(start as int, n as int),
            forall|j: int| 0 <= j < i - start ==> is_ascii_digit(#[trigger] digits[j]),
            value as nat == digits_value(digits.take(i - start)),
            value <= 65535,
        decreases n - i,
    {
        let c = cs[i];
        if !('0' <= c && c <= '9') {
            assert(digits[i - start] == cs@[i as int]);
            assert(!is_ascii_digit(digits[i - start]));
            return None;
        }
        assert(digits[i - start] == c);
        let d = (c as u32) - ('0' as u32);
        assert(digits.take(i + 1 - start).drop_last() =~= digits.take(i - start));
        value = value * 10 + d;
        i = i + 1;
        if value > 65535 {
            proof {
                if forall|j: int| 0 <= j < digits.len() ==> is_ascii_digit(#[trigger] digits[j]) {
                    lemma_digits_value_prefix(digits, i - start);
                }
            }
            return None;
        }
    }
    assert(digits.take(n - start) =~= digits);
    Some(value as u16)
}

/// The character of a decimal digit.
pub open spec fn digit_char(d: nat) -> char {
    (d + ('0' as u32)) as char
}

/// The decimal representation of `n`, without sign or leading zeros.
pub open spec fn decimal(n: nat) -> Seq<char>
    decreases n,
{
    if n < 10 {
        seq![digit_char(n)]
    } else {
        decimal(n / 10) + seq![digit_char(n % 10)]
    }
}

/// The one-character string of a decimal digit.
fn digit_str(d: u64) -> (r: &'static str)
    requires
        d < 10,
    ensures
        r@ == seq![digit_char(d as nat)],
{
    proof {
        reveal_strlit("0");
        reveal_strlit("1");
        reveal_strlit("2");
        reveal_strlit("3");
        reveal_strlit("4");
        reveal_strlit("5");
        reveal_strlit("6");
        reveal_strlit("7");
        reveal_strlit("8");
        reveal_strlit("9");
    }
    let r = if d == 0 {
        "0"
    } else if d == 1 {
        "1"
    } else if d == 2 {
        "2"
    } else if d == 3 {
        "3"
    } else if d == 4 {
        "4"
    } else if d == 5 {
        "5"
    } else if d == 6 {
        "6"
    } else if d == 7 {
        "7"
    } else if d == 8 {
        "8"
    } else {
        "9"
    };
    assert(r@ =~= seq![digit_char(d as nat)]);
    r
}

/// A decimal representation is a non-empty string of digits with the value it represents.
pub proof fn lemma_decimal_digits(n: nat)
    ensures
        decimal(n).len() >= 1,
        forall|i: int| 0 <= i < decimal(n).len() ==> is_ascii_digit(#[trigger] decimal(n)[i]),
        digits_value(decimal(n)) == n,
    decreases n,
{
    let d = n % 10;
    assert((digit_char(d) as u32) == d + 48);
    assert(('0' as u32) == 48);
    assert(decimal(n).last() == digit_char(d));
    assert(((decimal(n).last() as u32) - ('0' as u32)) as nat == d);
    if n < 10 {
        assert(decimal(n).drop_last() =~= Seq::<char>::empty());
        assert(digits_value(decimal(n).drop_last()) == 0);
    } else {
        lemma_decimal_digits(n / 10);
        assert(decimal(n).drop_last() =~= decimal(n / 10));
        assert((n / 10) * 10 + n % 10 == n) by (nonlinear_arith);
    }
}

/// Distinct numbers have distinct decimal representations.
pub proof fn lemma_decimal_injective(a: nat, b: nat)
    requires
        decimal(a) == decimal(b),
    ensures
        a == b,
{
    lemma_decimal_digits(a);
    lemma_decimal_digits(b);
}

/// Appends the decimal representation of `n` to `s`.
pub fn push_decimal(s: &mut String, n: u64)
    ensures
        final(s)@ == old(s)@ + decimal(n as nat),
    decreases n,
{
    if n >= 10 {
        push_decimal(s, n / 10);
        s.append(digit_str(n % 10));
        assert(s@ =~= old(s)@ + decimal(n as nat));
    } else {
        s.append(digit_str(n));
        assert(s@ =~= old(s)@ + decimal(n as nat));
    }
}

} // verus!
